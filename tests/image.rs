use std::io::Write;

use kaps::digest::{sha256_digest, to_uid};
use kaps::image::config::{ContainerConfig, ImageConfig};
use kaps::image::manager::{ImageManager, PullPlan};
use kaps::image::puller::{PreparedLayer, Puller};
use kaps::image::snapshots::{OverlayFS, Snapshotter};
use kaps::image::state::{ImageMetadata, LayerMetadata, State};
use kaps::image::Error;
use kaps::text::{join, join_with};

fn gzip(data: &[u8]) -> Vec<u8> {
    let mut encoder = flate2::write::GzEncoder::new(Vec::new(), flate2::Compression::default());
    encoder.write_all(data).unwrap();
    encoder.finish().unwrap()
}

fn hex_digest(data: &[u8]) -> String {
    let digest = <sha2::Sha256 as sha2::Digest>::digest(data);
    let mut s = String::from("sha256:");
    for b in digest.iter() {
        s.push_str(&format!("{:02x}", b));
    }
    s
}

fn layer(digest: &str, path: &str) -> LayerMetadata {
    LayerMetadata {
        id: digest.to_string(),
        compressed_digest: digest.to_string(),
        uncompressed_digest: format!("u-{}", digest),
        store_path: path.to_string(),
    }
}

fn image(id: &str, layers: Vec<LayerMetadata>) -> ImageMetadata {
    ImageMetadata {
        id: id.to_string(),
        reference: "docker.io/amd64/alpine".to_string(),
        digest: "sha256:m".to_string(),
        layers,
        config: ImageConfig::empty(),
    }
}

#[test]
fn it_create_a_puller_instance() {
    assert!(Puller::new("docker.io/library/busybox", "/tmp/kaps_tests/images").is_ok());
}

#[test]
fn it_throw_an_error_if_invalid_image_reference() {
    assert!(Puller::new("$", "/tmp/kaps_tests/images").is_err());
    assert!(matches!(Puller::new("", "/tmp/x"), Err(Error::InvalidOCIReference(_))));
}

#[test]
fn sha256_digest_of_known_input() {
    assert_eq!(
        sha256_digest(&b"abc".to_vec()),
        "sha256:ba7816bf8f01cfea414140de5dae2223b00361a396177a9cb410ff61f20015ad"
    );
}

#[test]
fn uid_is_decimal_and_deterministic() {
    let a = to_uid("sha256:1234");
    assert_eq!(a, to_uid("sha256:1234"));
    assert!(!a.is_empty());
    assert!(a.chars().all(|c| c.is_ascii_digit()));
    assert!(a == "0" || !a.starts_with('0'));
    assert_ne!(a, "sha256:1234");
}

#[test]
fn joining_paths_and_lists() {
    assert_eq!(join("/var/lib", "kaps"), "/var/lib/kaps");
    assert_eq!(join("/var/lib/", "kaps"), "/var/lib/kaps");
    assert_eq!(join("", "kaps"), "kaps");
    assert_eq!(join("/var", "/abs"), "/abs");
    let parts = vec!["a".to_string(), "b".to_string(), "c".to_string()];
    assert_eq!(join_with(&parts, ':'), "a:b:c");
    assert_eq!(join_with(&vec![], ':'), "");
}

#[test]
fn test_add_image() {
    let mut state = State::new();
    state.add_image(ImageMetadata {
        id: String::new(),
        reference: String::new(),
        digest: String::new(),
        layers: vec![],
        config: ImageConfig::empty(),
    });
    assert_eq!(state.images().len(), 1);
}

#[test]
fn test_add_layer() {
    let mut state = State::new();
    state.add_layer(layer("", ""));
    assert_eq!(state.layers().len(), 1);
    state.add_layer(layer("", "again"));
    assert_eq!(state.layers().len(), 1);
    assert_eq!(state.layer("").unwrap().store_path, "again");
}

#[test]
fn state_rebuilt_from_consistent_parts() {
    let l = layer("sha256:a", "/l/a");
    let state = State::from_parts(vec![image("img", vec![layer("sha256:a", "/l/a")])], vec![l], 4);
    assert!(state.has_image("img"));
    assert!(state.has_layer("sha256:a"));
    assert_eq!(state.index(), 4);
    assert_eq!(state.image("img").unwrap().layers.len(), 1);
}

#[test]
fn state_with_missing_layer_is_replaced_by_empty() {
    let state = State::from_parts(vec![image("img", vec![layer("sha256:a", "/l/a")])], vec![], 9);
    assert!(!state.has_image("img"));
    assert!(state.images().is_empty());
    assert!(state.layers().is_empty());
    assert_eq!(state.index(), 0);
}

#[test]
fn snapshot_indices_increase() {
    let mut state = State::new();
    assert_eq!(state.snapshot_index(), 1);
    assert_eq!(state.snapshot_index(), 2);
    assert_eq!(state.index(), 2);
}

#[test]
fn overlay_mount_options() {
    let overlay = OverlayFS { data_dir: "/data/snapshots".to_string() };
    let layers = vec!["/l/top".to_string(), "/l/base".to_string()];
    let request = overlay.mount(&layers, "/b/rootfs", 3, true);
    assert_eq!(
        request.options,
        "lowerdir=/l/top:/l/base,upperdir=/data/snapshots/3/upperdir,workdir=/data/snapshots/3/workdir"
    );
    assert_eq!(request.source, "overlay");
    assert_eq!(request.fstype, "overlay");
    assert_eq!(request.target, "/b/rootfs");
    assert!(request.read_only);
    assert_eq!(
        request.directories,
        vec![
            "/data/snapshots".to_string(),
            "/data/snapshots/3/upperdir".to_string(),
            "/data/snapshots/3/workdir".to_string(),
            "/b/rootfs".to_string(),
        ]
    );
    let point = OverlayFS::mount_point("/b/rootfs");
    assert_eq!(point.typ, "overlay");
}

#[test]
fn fresh_layer_is_verified() {
    let tar = b"layer contents".to_vec();
    let blob = gzip(&tar);
    let diff = hex_digest(&tar);
    let puller = Puller::new("docker.io/library/busybox", "/img").unwrap();
    let state = State::new();
    match puller.prepare_layer(&state, &blob, &diff).unwrap() {
        PreparedLayer::Fresh { meta, tar: out } => {
            let digest = hex_digest(&blob);
            assert_eq!(out, tar);
            assert_eq!(meta.compressed_digest, digest);
            assert_eq!(meta.id, digest);
            assert_eq!(meta.uncompressed_digest, diff);
            assert_eq!(meta.store_path, format!("/img/layers/{}", digest.replace(':', "_")));
        }
        other => panic!("unexpected {:?}", other),
    }
}

#[test]
fn layer_with_wrong_digest_is_refused() {
    let blob = gzip(b"layer contents");
    let puller = Puller::new("docker.io/library/busybox", "/img").unwrap();
    let state = State::new();
    let wrong = hex_digest(b"something else");
    match puller.prepare_layer(&state, &blob, &wrong) {
        Err(Error::UncompressedLayerInvalid(message)) => {
            assert!(message.contains(&wrong));
            assert!(message.contains(&hex_digest(b"layer contents")));
        }
        other => panic!("unexpected {:?}", other),
    }
    assert!(matches!(
        puller.prepare_layer(&state, &b"not gzip".to_vec(), &wrong),
        Err(Error::UnpackLayer(_))
    ));
}

#[test]
fn known_layer_is_not_decoded_again() {
    let blob = b"not even gzip".to_vec();
    let digest = hex_digest(&blob);
    let mut state = State::new();
    state.add_layer(layer(&digest, "/cached"));
    let puller = Puller::new("docker.io/library/busybox", "/img").unwrap();
    match puller.prepare_layer(&state, &blob, &"anything".to_string()).unwrap() {
        PreparedLayer::Cached(meta) => assert_eq!(meta.store_path, "/cached"),
        other => panic!("unexpected {:?}", other),
    }
}

#[test]
fn layers_keep_their_order_and_counts_must_match() {
    let tars = [b"one".to_vec(), b"two".to_vec()];
    let blobs: Vec<Vec<u8>> = tars.iter().map(|t| gzip(t)).collect();
    let diffs: Vec<String> = tars.iter().map(|t| hex_digest(t)).collect();
    let puller = Puller::new("docker.io/library/busybox", "/img").unwrap();
    let state = State::new();
    let layers = puller.verify_layers(&state, &blobs, &diffs).unwrap();
    assert_eq!(layers.len(), 2);
    assert_eq!(layers[0].meta().uncompressed_digest, diffs[0]);
    assert_eq!(layers[1].meta().uncompressed_digest, diffs[1]);
    assert!(matches!(
        puller.verify_layers(&state, &blobs, &diffs[..1].to_vec()),
        Err(Error::InvalidPulledLayers(_))
    ));
    assert!(puller.verify_layers(&state, &vec![], &vec![]).unwrap().is_empty());
}

#[test]
fn media_types_are_recorded_once_each() {
    let mut puller = Puller::new("docker.io/library/busybox", "/img").unwrap();
    let types: Vec<String> = ["a", "a", "b", "a"].iter().map(|s| s.to_string()).collect();
    puller.record_media_types(&types);
    assert_eq!(*puller.accepted_media_types(), vec!["a", "b"]);
}

fn manager_with_image() -> ImageManager {
    let mut state = State::new();
    state.add_layer(layer("sha256:base", "/l/base"));
    state.add_layer(layer("sha256:top", "/l/top"));
    let mut config = ImageConfig::empty();
    config.config = Some(ContainerConfig::empty());
    let mut img = image("img", vec![layer("sha256:base", "/l/base"), layer("sha256:top", "/l/top")]);
    img.config = config;
    state.add_image(img);
    ImageManager::new("/data", OverlayFS { data_dir: "/data/snapshots".to_string() }, state)
}

#[test]
fn manager_paths() {
    let manager = manager_with_image();
    assert_eq!(manager.state_file(), "/data/state.json");
    assert_eq!(manager.images_dir(), "/data/images");
    assert_eq!(manager.bundles_dir(), "/data/bundles");
}

#[test]
fn pull_of_known_image_is_cached_unless_forced() {
    let manager = manager_with_image();
    let id = Some("img".to_string());
    assert!(matches!(manager.pull_plan(&id, "sha256:m", false), PullPlan::Cached(ref i) if i == "img"));
    assert!(matches!(manager.pull_plan(&id, "sha256:m", true), PullPlan::Fetch(ref i) if i == "img"));
    match manager.pull_plan(&None, "sha256:m", false) {
        PullPlan::Fetch(i) => assert_eq!(i, to_uid("sha256:m")),
        other => panic!("unexpected {:?}", other),
    }
}

#[test]
fn layer_count_must_match_manifest() {
    let mut config = ImageConfig::empty();
    config.diff_ids = vec!["sha256:a".to_string()];
    assert!(ImageManager::check_layer_count(&config, 1).is_ok());
    assert!(matches!(
        ImageManager::check_layer_count(&config, 2),
        Err(Error::InvalidPulledLayers(_))
    ));
}

#[test]
fn recording_a_pull_keeps_known_layers() {
    let mut manager = manager_with_image();
    let id = manager.record_pull(
        "new".to_string(),
        "docker.io/amd64/ubuntu",
        "sha256:d".to_string(),
        vec![layer("sha256:n", "/l/n")],
        ImageConfig::empty(),
    );
    assert_eq!(id, "new");
    let state = manager.state();
    assert!(state.has_layer("sha256:base"));
    assert!(state.has_layer("sha256:n"));
    assert!(state.has_image("img"));
    assert_eq!(state.image("new").unwrap().reference, "docker.io/amd64/ubuntu");
}

#[test]
fn mount_plans_a_bundle() {
    let mut manager = manager_with_image();
    let plan = manager.mount("img").unwrap();
    assert_eq!(plan.bundle_path, "/data/bundles/img");
    assert_eq!(plan.config_path, "/data/bundles/img/config.json");
    assert_eq!(plan.snapshot_index, 1);
    assert_eq!(plan.rootfs.target, "/data/bundles/img/rootfs");
    assert!(!plan.rootfs.read_only);
    assert_eq!(
        plan.rootfs.options,
        "lowerdir=/l/top:/l/base,upperdir=/data/snapshots/1/upperdir,workdir=/data/snapshots/1/workdir"
    );
    assert_eq!(plan.runtime_config.version.as_deref(), Some("1.0"));
    let again = manager.mount("img").unwrap();
    assert_eq!(again.snapshot_index, 2);
    assert!(matches!(manager.mount("missing"), Err(Error::ImageNotFound(_))));
    assert_eq!(manager.state().index(), 2);
}

fn copy_layer(l: &LayerMetadata) -> LayerMetadata {
    l.duplicate()
}

fn copy_image(m: &ImageMetadata) -> ImageMetadata {
    ImageMetadata {
        id: m.id.clone(),
        reference: m.reference.clone(),
        digest: m.digest.clone(),
        layers: m.layers.iter().map(copy_layer).collect(),
        config: m.config.clone(),
    }
}

#[test]
fn state_round_trip_through_parts() {
    let mut state = State::new();
    state.add_layer(layer("sha256:a", "/l/a"));
    state.add_layer(layer("sha256:b", "/l/b"));
    state.add_image(image("one", vec![layer("sha256:a", "/l/a")]));
    state.add_image(image("two", vec![layer("sha256:b", "/l/b"), layer("sha256:a", "/l/a")]));
    state.snapshot_index();
    let mut images: Vec<ImageMetadata> = state.images().iter().map(|(_, m)| copy_image(m)).collect();
    images.reverse();
    let layers: Vec<LayerMetadata> = state.layers().iter().map(|(_, l)| copy_layer(l)).collect();
    let rebuilt = State::from_parts(images, layers, state.index());
    assert_eq!(rebuilt.index(), 1);
    assert_eq!(rebuilt.images().len(), 2);
    assert_eq!(rebuilt.layers().len(), 2);
    assert_eq!(rebuilt.image("two").unwrap().layers.len(), 2);
    assert_eq!(rebuilt.layer("sha256:b").unwrap().store_path, "/l/b");
}

#[test]
fn fresh_layer_from_given_digests() {
    let puller = Puller::new("docker.io/library/busybox", "/img").unwrap();
    let ok = puller
        .fresh_layer("sha256:c".to_string(), vec![1, 2], "sha256:u".to_string(), &"sha256:u".to_string())
        .unwrap();
    match ok {
        PreparedLayer::Fresh { meta, tar } => {
            assert_eq!(tar, vec![1, 2]);
            assert_eq!(meta.id, "sha256:c");
            assert_eq!(meta.uncompressed_digest, "sha256:u");
            assert_eq!(meta.store_path, "/img/layers/sha256_c");
        }
        other => panic!("unexpected {:?}", other),
    }
    match puller.fresh_layer("sha256:c".to_string(), vec![], "sha256:u".to_string(), &"sha256:v".to_string()) {
        Err(Error::UncompressedLayerInvalid(m)) => {
            assert_eq!(m, "uncompressed digest sha256:u differs from the configured digest sha256:v")
        }
        other => panic!("unexpected {:?}", other),
    }
}
