//! The image manager: decides what a pull must fetch, records pulled images
//! and layers, and plans the bundle that mounting an image makes.

use vstd::prelude::*;
use vstd::string::*;
use crate::container::spec::{generated_from, new_runtime_config, RuntimeConfig};
use crate::digest::{to_uid, uid_of};
use crate::image::Error;
use crate::image::config::ImageConfig;
use crate::image::snapshots::{overlay_options, upper_dir, work_dir, MountRequest, OverlayFS};
use crate::image::state::{ImageMetadata, LayerMetadata, State};
use crate::text::{join, join_path, views};

verus! {

/// What a pull has to do once the manifest is known.
#[derive(Debug)]
pub enum PullPlan {
    /// The image is already known: nothing more is fetched.
    Cached(String),
    /// The image's layers must be fetched and verified.
    Fetch(String),
}

/// The bundle that mounting an image makes: mount `rootfs`, then write
/// `runtime_config` to `config_path`; the bundle is `bundle_path`.
#[derive(Debug)]
pub struct BundlePlan {
    pub bundle_path: String,
    pub config_path: String,
    pub rootfs: MountRequest,
    pub runtime_config: RuntimeConfig,
    /// The snapshot index the mount consumed.
    pub snapshot_index: u64,
}

/// A layer map with the layers inserted in order, each under its compressed digest.
pub open spec fn with_layers(known: Map<Seq<char>, LayerMetadata>, layers: Seq<LayerMetadata>) -> Map<
    Seq<char>,
    LayerMetadata,
>
    decreases layers.len(),
{
    if layers.len() == 0 {
        known
    } else {
        with_layers(known, layers.drop_last()).insert(layers.last().compressed_digest@, layers.last())
    }
}

/// Inserting layers never forgets a known digest.
pub proof fn lemma_with_layers_keeps(known: Map<Seq<char>, LayerMetadata>, layers: Seq<LayerMetadata>)
    ensures
        known.dom().subset_of(with_layers(known, layers).dom()),
        forall|i: int|
            0 <= i < layers.len() ==> with_layers(known, layers).contains_key(
                #[trigger] layers[i].compressed_digest@,
            ),
    decreases layers.len(),
{
    if layers.len() > 0 {
        lemma_with_layers_keeps(known, layers.drop_last());
        assert forall|i: int| 0 <= i < layers.len() implies with_layers(known, layers).contains_key(
            #[trigger] layers[i].compressed_digest@,
        ) by {
            if i < layers.len() - 1 {
                assert(layers.drop_last()[i] == layers[i]);
            }
        }
    }
}

/// The cached layer digests only grow: along any sequence of states where
/// each step keeps every digest of the one before (as recording a pull and
/// mounting do), a digest known at some point is known at every later point.
pub proof fn lemma_cache_monotone(layer_maps: Seq<Map<Seq<char>, LayerMetadata>>)
    requires
        forall|k: int|
            1 <= k < layer_maps.len() ==> layer_maps[k - 1].dom().subset_of(#[trigger] layer_maps[k].dom()),
    ensures
        forall|i: int, j: int|
            0 <= i <= j < layer_maps.len() ==> layer_maps[i].dom().subset_of(layer_maps[j].dom()),
    decreases layer_maps.len(),
{
    if layer_maps.len() > 1 {
        let n = layer_maps.len() - 1;
        let init = layer_maps.drop_last();
        assert forall|k: int| 1 <= k < init.len() implies init[k - 1].dom().subset_of(
            #[trigger] init[k].dom(),
        ) by {
            assert(layer_maps[k - 1].dom().subset_of(layer_maps[k].dom()));
        }
        lemma_cache_monotone(init);
        assert forall|i: int, j: int| 0 <= i <= j < layer_maps.len() implies layer_maps[i].dom().subset_of(
            layer_maps[j].dom(),
        ) by {
            if j == n && i < n {
                assert(init[i].dom().subset_of(init[n - 1].dom()));
                assert(layer_maps[n - 1].dom().subset_of(layer_maps[n].dom()));
            } else if j < n {
                assert(init[i].dom().subset_of(init[j].dom()));
            }
        }
    }
}

/// The id of a pulled image: the one asked for, or else the identifier
/// derived from the manifest digest.
pub open spec fn image_id_of(id: Option<String>, manifest_digest: Seq<char>) -> Seq<char> {
    match id {
        Some(id) => id@,
        None => uid_of(manifest_digest),
    }
}

/// The text `rootfs`.
pub open spec fn rootfs_text() -> Seq<char> {
    "rootfs"@
}

/// The store paths of an image's layers, topmost (last) layer first.
pub open spec fn lower_dirs(layers: Seq<LayerMetadata>) -> Seq<Seq<char>> {
    layers.reverse().map_values(|l: LayerMetadata| l.store_path@)
}

/// Pulls, records and mounts images under a data directory.
pub struct ImageManager {
    data_dir: String,
    state: State,
    snapshot: OverlayFS,
}

impl ImageManager {
    /// The data directory.
    pub closed spec fn data_dir_spec(&self) -> Seq<char> {
        self.data_dir@
    }

    /// The manager's state.
    pub closed spec fn state_spec(&self) -> State {
        self.state
    }

    /// The snapshotter's data directory.
    pub closed spec fn snapshot_dir_spec(&self) -> Seq<char> {
        self.snapshot.data_dir@
    }

    /// The manager's invariant: its state is well formed.
    pub open spec fn wf(&self) -> bool {
        self.state_spec().wf()
    }

    /// A manager for `data_dir`, with the state read back from it.
    pub fn new(data_dir: &str, snapshot: OverlayFS, state: State) -> (r: Self)
        requires
            state.wf(),
        ensures
            r.wf(),
            r.data_dir_spec() == data_dir@,
            r.state_spec() == state,
            r.snapshot_dir_spec() == snapshot.data_dir@,
    {
        ImageManager { data_dir: data_dir.to_string(), state, snapshot }
    }

    /// The manager's state.
    pub fn state(&self) -> (r: &State)
        ensures
            *r == self.state_spec(),
    {
        &self.state
    }

    /// The state file: `state.json` in the data directory.
    pub fn state_file(&self) -> (r: String)
        ensures
            r@ == join_path(self.data_dir_spec(), "state.json"@),
    {
        join(self.data_dir.as_str(), "state.json")
    }

    /// The images directory: `images` in the data directory.
    pub fn images_dir(&self) -> (r: String)
        ensures
            r@ == join_path(self.data_dir_spec(), "images"@),
    {
        join(self.data_dir.as_str(), "images")
    }

    /// The bundles directory: `bundles` in the data directory.
    pub fn bundles_dir(&self) -> (r: String)
        ensures
            r@ == join_path(self.data_dir_spec(), "bundles"@),
    {
        join(self.data_dir.as_str(), "bundles")
    }

    /// The id of a pulled image: `id` when given, else derived from the
    /// manifest digest.
    pub fn image_id(id: &Option<String>, manifest_digest: &str) -> (r: String)
        ensures
            r@ == image_id_of(*id, manifest_digest@),
    {
        match id {
            Some(id) => id.clone(),
            None => to_uid(manifest_digest),
        }
    }

    /// Decides a pull once its manifest is known: an image the state already
    /// knows is not fetched again unless `force` is set.
    pub fn pull_plan(&self, id: &Option<String>, manifest_digest: &str, force: bool) -> (r: PullPlan)
        requires
            self.wf(),
        ensures
            match r {
                PullPlan::Cached(image_id) => image_id@ == image_id_of(*id, manifest_digest@)
                    && self.state_spec().image_map().contains_key(image_id@) && !force,
                PullPlan::Fetch(image_id) => image_id@ == image_id_of(*id, manifest_digest@)
                    && !(self.state_spec().image_map().contains_key(image_id@) && !force),
            },
    {
        let image_id = ImageManager::image_id(id, manifest_digest);
        if self.state.has_image(image_id.as_str()) && !force {
            PullPlan::Cached(image_id)
        } else {
            PullPlan::Fetch(image_id)
        }
    }

    /// Checks that the image configuration lists as many layers as the
    /// manifest; `InvalidPulledLayers` otherwise.
    pub fn check_layer_count(config: &ImageConfig, manifest_layers: usize) -> (r: Result<(), Error>)
        ensures
            r is Ok <==> config.diff_ids@.len() == manifest_layers,
            r is Err ==> r->Err_0 is InvalidPulledLayers,
    {
        if config.diff_ids.len() != manifest_layers {
            Err(
                Error::InvalidPulledLayers(
                    String::from_str(
                        "the number of pulled layers differs from the image configuration",
                    ),
                ),
            )
        } else {
            Ok(())
        }
    }

    /// Records a pulled image: its layers, in order, then the image itself.
    /// No layer already known is forgotten.
    pub fn record_pull(
        &mut self,
        image_id: String,
        reference: &str,
        digest: String,
        layers: Vec<LayerMetadata>,
        config: ImageConfig,
    ) -> (r: String)
        requires
            old(self).wf(),
            forall|i: int| 0 <= i < layers@.len() ==> (#[trigger] layers@[i]).id@ == layers@[i].compressed_digest@,
        ensures
            final(self).wf(),
            r@ == image_id@,
            final(self).state_spec().layer_map() == with_layers(
                old(self).state_spec().layer_map(),
                layers@,
            ),
            old(self).state_spec().layer_map().dom().subset_of(
                final(self).state_spec().layer_map().dom(),
            ),
            final(self).state_spec().image_map().contains_key(image_id@),
            final(self).state_spec().image_map()[image_id@].layers@ == layers@,
            final(self).state_spec().image_map()[image_id@].id@ == image_id@,
            final(self).state_spec().image_map()[image_id@].reference@ == reference@,
            final(self).state_spec().image_map()[image_id@].digest@ == digest@,
            final(self).state_spec().image_map()[image_id@].config == config,
            final(self).state_spec().image_map() == old(self).state_spec().image_map().insert(
                image_id@,
                final(self).state_spec().image_map()[image_id@],
            ),
            final(self).state_spec().last_index() == old(self).state_spec().last_index(),
            final(self).data_dir_spec() == old(self).data_dir_spec(),
            final(self).snapshot_dir_spec() == old(self).snapshot_dir_spec(),
    {
        let ghost start = self.state.layer_map();
        let mut i: usize = 0;
        while i < layers.len()
            invariant
                self.state.wf(),
                i <= layers@.len(),
                forall|j: int| 0 <= j < layers@.len() ==> (#[trigger] layers@[j]).id@ == layers@[j].compressed_digest@,
                self.state.layer_map() == with_layers(start, layers@.subrange(0, i as int)),
                start.dom().subset_of(self.state.layer_map().dom()),
                self.state.image_map() == old(self).state.image_map(),
                self.state.last_index() == old(self).state.last_index(),
                self.data_dir == old(self).data_dir,
                self.snapshot == old(self).snapshot,
                forall|j: int|
                    0 <= j < i ==> self.state.layer_map().contains_key(
                        #[trigger] layers@[j].compressed_digest@,
                    ),
            decreases layers.len() - i,
        {
            assert(layers@.subrange(0, i + 1).drop_last() =~= layers@.subrange(0, i as int));
            self.state.add_layer(layers[i].duplicate());
            i = i + 1;
        }
        assert(layers@.subrange(0, layers@.len() as int) =~= layers@);
        let image = ImageMetadata {
            id: image_id.clone(),
            reference: reference.to_string(),
            digest,
            layers,
            config,
        };
        self.state.add_image(image);
        image_id
    }

    /// Plans mounting an image as a bundle. Fails with `ImageNotFound` when the
    /// image is unknown, and with `SnapshotIndexExhausted` when no snapshot
    /// index is left; otherwise consumes one new snapshot index. The bundle is
    /// `bundles/<id>`; its `rootfs` stacks the image's layers, topmost first,
    /// read-write, in the scratch space of the new index; its `config.json`
    /// holds the runtime configuration generated from the image.
    pub fn mount(&mut self, image_id: &str) -> (r: Result<BundlePlan, Error>)
        requires
            old(self).wf(),
        ensures
            final(self).wf(),
            final(self).state_spec().image_map() == old(self).state_spec().image_map(),
            final(self).state_spec().layer_map() == old(self).state_spec().layer_map(),
            final(self).data_dir_spec() == old(self).data_dir_spec(),
            final(self).snapshot_dir_spec() == old(self).snapshot_dir_spec(),
            !old(self).state_spec().image_map().contains_key(image_id@) ==> r is Err
                && r->Err_0 is ImageNotFound,
            old(self).state_spec().image_map().contains_key(image_id@) && old(self).state_spec().last_index()
                == u64::MAX ==> r is Err && r->Err_0 is SnapshotIndexExhausted,
            r is Ok <==> old(self).state_spec().image_map().contains_key(image_id@) && old(self).state_spec().last_index() < u64::MAX,
            r is Err ==> final(self).state_spec().last_index() == old(self).state_spec().last_index(),
            match r {
                Ok(plan) => {
                    let image = old(self).state_spec().image_map()[image_id@];
                    let index = plan.snapshot_index;
                    let bundle = join_path(join_path(old(self).data_dir_spec(), "bundles"@), image_id@);
                    let rootfs = join_path(bundle, rootfs_text());
                    &&& index == old(self).state_spec().last_index() + 1
                    &&& final(self).state_spec().last_index() == index
                    &&& plan.bundle_path@ == bundle
                    &&& plan.config_path@ == join_path(bundle, "config.json"@)
                    &&& plan.rootfs.target@ == rootfs
                    &&& !plan.rootfs.read_only
                    &&& plan.rootfs.options@ == overlay_options(
                        lower_dirs(image.layers@),
                        upper_dir(old(self).snapshot_dir_spec(), index),
                        work_dir(old(self).snapshot_dir_spec(), index),
                    )
                    &&& generated_from(Some(image.config), plan.runtime_config)
                },
                Err(_) => true,
            },
    {
        if !self.state.has_image(image_id) {
            let message = crate::text::concat("no image found with id=", image_id);
            return Err(Error::ImageNotFound(message));
        }
        if self.state.index() == u64::MAX {
            return Err(Error::SnapshotIndexExhausted(String::from_str("every snapshot index is used")));
        }
        let index = self.state.snapshot_index();
        let image = match self.state.image(image_id) {
            Some(image) => image,
            None => {
                return Err(Error::ImageNotFound(String::from_str("no image found")));
            },
        };
        let bundles = join(self.data_dir.as_str(), "bundles");
        let bundle_path = join(bundles.as_str(), image_id);
        let rootfs = join(bundle_path.as_str(), "rootfs");
        let config_path = join(bundle_path.as_str(), "config.json");
        let mut lower: Vec<String> = Vec::new();
        let mut k: usize = image.layers.len();
        while k > 0
            invariant
                k <= image.layers@.len(),
                views(lower@) == lower_dirs(image.layers@).subrange(
                    0,
                    (image.layers@.len() - k) as int,
                ),
            decreases k,
        {
            k = k - 1;
            let ghost before = lower@;
            lower.push(image.layers[k].store_path.clone());
            proof {
                let n = image.layers@.len();
                assert(lower@ == before.push(image.layers@[k as int].store_path));
                assert(views(lower@) =~= views(before).push(image.layers@[k as int].store_path@));
                assert(image.layers@.reverse()[n - 1 - k] == image.layers@[k as int]);
                assert(lower_dirs(image.layers@)[n - 1 - k] == image.layers@[k as int].store_path@);
            }
            assert(views(lower@) =~= lower_dirs(image.layers@).subrange(
                0,
                (image.layers@.len() - k) as int,
            ));
        }
        assert(views(lower@) =~= lower_dirs(image.layers@));
        let mount = self.snapshot.overlay_mount(&lower, rootfs.as_str(), index, false);
        let runtime_config = match new_runtime_config(Some(&image.config)) {
            Ok(c) => c,
            Err(_) => {
                return Err(Error::GenerateOCIConfig(String::from_str("runtime configuration")));
            },
        };
        proof {
            reveal_strlit("rootfs");
        }
        Ok(BundlePlan { bundle_path, config_path, rootfs: mount, runtime_config, snapshot_index: index })
    }
}

} // verus!
