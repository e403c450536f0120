//! Pulling an image: validating its reference, recording the layer media types
//! of its manifest, and verifying each pulled layer blob against the image
//! configuration before it is unpacked. Fetching blobs and unpacking archives
//! is left to the caller, which hands the blobs in and unpacks what comes out.

use vstd::prelude::*;
use vstd::string::*;
use crate::digest::{digest_text, gunzip, gunzip_of, sha256_digest, sha256_of};
use crate::image::Error;
use crate::image::state::{lemma_state_layers_agree, LayerMetadata, State};
use crate::text::{concat, join, join_path, replace, replace_char};

verus! {

#[verifier::external_type_specification]
#[verifier::external_body]
pub struct ExReference(oci_distribution::Reference);

/// Whether a string parses as an image reference
/// (`registry/repository[:tag][@digest]`).
pub uninterp spec fn reference_accepted(s: Seq<char>) -> bool;

/// Relies on `oci_distribution::Reference::try_from(&str)`: parses an image
/// reference, and refuses the empty string.
#[verifier::external_body]
fn parse_reference(image: &str) -> (r: Option<oci_distribution::Reference>)
    ensures
        r is Some <==> reference_accepted(image@),
        image@.len() == 0 ==> r is None,
{
    oci_distribution::Reference::try_from(image).ok()
}

/// The text `layers`.
pub open spec fn layers_text() -> Seq<char> {
    seq!['l', 'a', 'y', 'e', 'r', 's']
}

/// The directory under the image directory that holds unpacked layers.
pub open spec fn layers_dir(image_dir: Seq<char>) -> Seq<char> {
    join_path(image_dir, layers_text())
}

/// Where the layer with this compressed digest is unpacked: its digest with
/// `:` replaced by `_`, under the layers directory.
pub open spec fn layer_store_path(image_dir: Seq<char>, digest: Seq<char>) -> Seq<char> {
    join_path(layers_dir(image_dir), replace_char(digest, ':', '_'))
}

/// Each entry of the list once, in order of first appearance.
pub open spec fn distinct_in_order(s: Seq<Seq<char>>) -> Seq<Seq<char>>
    decreases s.len(),
{
    if s.len() == 0 {
        s
    } else if distinct_in_order(s.drop_last()).contains(s.last()) {
        distinct_in_order(s.drop_last())
    } else {
        distinct_in_order(s.drop_last()).push(s.last())
    }
}

/// `distinct_in_order` holds no entry twice, and exactly the entries of its
/// argument.
pub proof fn lemma_distinct_in_order(s: Seq<Seq<char>>)
    ensures
        distinct_in_order(s).no_duplicates(),
        forall|t: Seq<char>| #[trigger] distinct_in_order(s).contains(t) <==> s.contains(t),
    decreases s.len(),
{
    if s.len() > 0 {
        let init = s.drop_last();
        lemma_distinct_in_order(init);
        assert forall|t: Seq<char>| #[trigger] distinct_in_order(s).contains(t) <==> s.contains(t) by {
            if init.contains(t) {
                let k = choose|k: int| 0 <= k < init.len() && init[k] == t;
                assert(s[k] == t);
            }
            if s.contains(t) {
                let k = choose|k: int| 0 <= k < s.len() && s[k] == t;
                if k < s.len() - 1 {
                    assert(init[k] == t);
                }
            }
            if !distinct_in_order(init).contains(s.last()) && t == s.last() {
                assert(distinct_in_order(s)[distinct_in_order(s).len() - 1] == t);
            }
            if !distinct_in_order(init).contains(s.last()) && distinct_in_order(s).contains(t)
                && t != s.last() {
                let k = choose|k: int| 0 <= k < distinct_in_order(s).len() && distinct_in_order(s)[k] == t;
                assert(distinct_in_order(init)[k] == t);
            }
            if !distinct_in_order(init).contains(s.last()) && distinct_in_order(init).contains(t) {
                let k = choose|k: int| 0 <= k < distinct_in_order(init).len() && distinct_in_order(init)[k] == t;
                assert(distinct_in_order(s)[k] == t);
            }
        }
    }
}

/// A verified layer blob: either one already known to the state, or one to
/// unpack at its store path and then record.
#[derive(Debug)]
pub enum PreparedLayer {
    /// The layer is already known; nothing needs to be fetched or unpacked.
    Cached(LayerMetadata),
    /// The layer is new: `tar` is its uncompressed archive, to be unpacked into
    /// `meta.store_path`.
    Fresh { meta: LayerMetadata, tar: Vec<u8> },
}

impl PreparedLayer {
    /// The layer's metadata.
    pub open spec fn meta_spec(&self) -> LayerMetadata {
        match self {
            PreparedLayer::Cached(m) => *m,
            PreparedLayer::Fresh { meta, .. } => *meta,
        }
    }

    /// The layer's metadata.
    pub fn meta(&self) -> (r: &LayerMetadata)
        ensures
            *r == self.meta_spec(),
    {
        match self {
            PreparedLayer::Cached(m) => m,
            PreparedLayer::Fresh { meta, .. } => meta,
        }
    }
}

/// The compressed digest of a blob.
pub open spec fn blob_digest(blob: Seq<u8>) -> Seq<char> {
    digest_text(sha256_of(blob))
}

/// Whether a blob passes verification against its expected uncompressed
/// digest: it is already known, or it decodes and its uncompressed digest is
/// the expected one.
pub open spec fn blob_ok(known: Map<Seq<char>, LayerMetadata>, blob: Seq<u8>, diff_id: Seq<char>) -> bool {
    known.contains_key(blob_digest(blob)) || (gunzip_of(blob) is Some && digest_text(
        sha256_of(gunzip_of(blob)->0),
    ) == diff_id)
}

/// What verifying an acceptable blob yields.
pub open spec fn prepared_as(
    p: PreparedLayer,
    known: Map<Seq<char>, LayerMetadata>,
    image_dir: Seq<char>,
    blob: Seq<u8>,
    diff_id: Seq<char>,
) -> bool {
    let digest = blob_digest(blob);
    if known.contains_key(digest) {
        p == PreparedLayer::Cached(known[digest])
    } else {
        match p {
            PreparedLayer::Fresh { meta, tar } => {
                &&& tar@ == gunzip_of(blob)->0
                &&& meta.id@ == digest
                &&& meta.compressed_digest@ == digest
                &&& meta.uncompressed_digest@ == diff_id
                &&& meta.uncompressed_digest@ == digest_text(sha256_of(tar@))
                &&& meta.store_path@ == layer_store_path(image_dir, digest)
            },
            PreparedLayer::Cached(_) => false,
        }
    }
}

/// The message of a digest mismatch: `uncompressed digest <computed> differs
/// from the configured digest <expected>`.
pub open spec fn mismatch_message(computed: Seq<char>, expected: Seq<char>) -> Seq<char> {
    "uncompressed digest "@ + computed + " differs from the configured digest "@ + expected
}

/// The error that verifying a refused blob gives.
pub open spec fn refused_as(e: Error, blob: Seq<u8>, diff_id: Seq<char>) -> bool {
    if gunzip_of(blob) is None {
        e is UnpackLayer
    } else {
        e is UncompressedLayerInvalid && e->UncompressedLayerInvalid_0@ == mismatch_message(
            digest_text(sha256_of(gunzip_of(blob)->0)),
            diff_id,
        )
    }
}

/// Pulls one image: its reference, where its layers go, and the media types
/// its manifest lists for them.
pub struct Puller {
    reference: oci_distribution::Reference,
    image_dir: String,
    accepted_media_types: Vec<String>,
}

impl Puller {
    /// The directory where the image's layers are stored.
    pub closed spec fn image_dir_spec(&self) -> Seq<char> {
        self.image_dir@
    }

    /// The layer media types recorded from the manifest.
    pub closed spec fn media_types_spec(&self) -> Seq<Seq<char>> {
        self.accepted_media_types@.map_values(|t: String| t@)
    }

    /// A puller for the image `image`, storing layers under `image_dir`. Fails
    /// with `InvalidOCIReference` when `image` does not parse as a reference.
    pub fn new(image: &str, image_dir: &str) -> (r: Result<Puller, Error>)
        ensures
            r is Ok <==> reference_accepted(image@),
            match r {
                Ok(p) => p.image_dir_spec() == image_dir@ && p.media_types_spec().len() == 0,
                Err(e) => e is InvalidOCIReference && e->InvalidOCIReference_0@ == image@,
            },
    {
        match parse_reference(image) {
            Some(reference) => {
                let p = Puller {
                    reference,
                    image_dir: image_dir.to_string(),
                    accepted_media_types: Vec::new(),
                };
                assert(p.media_types_spec() =~= Seq::<Seq<char>>::empty());
                Ok(p)
            },
            None => Err(Error::InvalidOCIReference(image.to_string())),
        }
    }

    /// The parsed reference, for the registry client.
    pub fn reference(&self) -> &oci_distribution::Reference {
        &self.reference
    }

    /// The directory where the image's layers are stored.
    pub fn image_dir(&self) -> (r: &String)
        ensures
            r@ == self.image_dir_spec(),
    {
        &self.image_dir
    }

    /// The layer media types recorded from the manifest.
    pub fn accepted_media_types(&self) -> (r: &Vec<String>)
        ensures
            r@.map_values(|t: String| t@) == self.media_types_spec(),
    {
        &self.accepted_media_types
    }

    /// Records the set of media types of the manifest's layers: each once,
    /// in order of first appearance.
    pub fn record_media_types(&mut self, layer_media_types: &Vec<String>)
        ensures
            final(self).media_types_spec() == distinct_in_order(
                layer_media_types@.map_values(|t: String| t@),
            ),
            final(self).media_types_spec().no_duplicates(),
            forall|t: Seq<char>| #[trigger]
                final(self).media_types_spec().contains(t) <==> layer_media_types@.map_values(
                    |t: String| t@,
                ).contains(t),
            final(self).image_dir_spec() == old(self).image_dir_spec(),
    {
        let ghost all = layer_media_types@.map_values(|t: String| t@);
        let mut kept: Vec<String> = Vec::new();
        let mut i: usize = 0;
        while i < layer_media_types.len()
            invariant
                i <= layer_media_types@.len(),
                all == layer_media_types@.map_values(|t: String| t@),
                kept@.map_values(|t: String| t@) == distinct_in_order(all.subrange(0, i as int)),
            decreases layer_media_types.len() - i,
        {
            let t = &layer_media_types[i];
            let ghost next = all.subrange(0, i + 1);
            assert(next.drop_last() =~= all.subrange(0, i as int));
            assert(next.last() == t@);
            let mut seen = false;
            let mut k: usize = 0;
            while k < kept.len()
                invariant
                    k <= kept@.len(),
                    seen == kept@.map_values(|t: String| t@).subrange(0, k as int).contains(t@),
                decreases kept.len() - k,
            {
                let ghost before = kept@.map_values(|t: String| t@).subrange(0, k as int);
                let ghost after = kept@.map_values(|t: String| t@).subrange(0, k + 1);
                assert(after =~= before.push(kept@[k as int]@));
                proof {
                    if before.contains(t@) {
                        let j = choose|j: int| 0 <= j < before.len() && before[j] == t@;
                        assert(after[j] == t@);
                    }
                    if after.contains(t@) && !before.contains(t@) {
                        let j = choose|j: int| 0 <= j < after.len() && after[j] == t@;
                        if j < before.len() {
                            assert(before[j] == t@);
                        }
                    }
                    if kept@[k as int]@ == t@ {
                        assert(after[k as int] == t@);
                    }
                }
                if kept[k].eq(t) {
                    seen = true;
                }
                k = k + 1;
            }
            assert(kept@.map_values(|t: String| t@).subrange(0, kept@.len() as int) =~= kept@.map_values(
                |t: String| t@,
            ));
            if !seen {
                kept.push(t.clone());
                assert(kept@.map_values(|t: String| t@) =~= distinct_in_order(next));
            }
            i = i + 1;
        }
        assert(all.subrange(0, layer_media_types@.len() as int) =~= all);
        proof {
            lemma_distinct_in_order(all);
        }
        self.accepted_media_types = kept;
    }

    /// Verifies one layer blob against its expected uncompressed digest. A blob
    /// whose compressed digest is already known gives the known layer and is
    /// not decoded. Otherwise it is gunzipped (failing with `UnpackLayer` when
    /// it does not decode) and the digest of the result must be `diff_id`
    /// (failing with `UncompressedLayerInvalid`, which names both digests).
    pub fn prepare_layer(&self, state: &State, blob: &Vec<u8>, diff_id: &String) -> (r: Result<
        PreparedLayer,
        Error,
    >)
        requires
            state.wf(),
        ensures
            r is Ok <==> blob_ok(state.layer_map(), blob@, diff_id@),
            match r {
                Ok(p) => prepared_as(p, state.layer_map(), self.image_dir_spec(), blob@, diff_id@)
                    && p.meta_spec().id@ == blob_digest(blob@) && p.meta_spec().compressed_digest@
                    == blob_digest(blob@),
                Err(e) => refused_as(e, blob@, diff_id@),
            },
    {
        let digest = sha256_digest(blob);
        proof {
            lemma_state_layers_agree(*state);
        }
        match state.layer(digest.as_str()) {
            Some(known) => {
                return Ok(PreparedLayer::Cached(known.duplicate()));
            },
            None => {},
        }
        let tar = match gunzip(blob) {
            Some(tar) => tar,
            None => {
                return Err(Error::UnpackLayer(concat("layer does not decode as gzip: ", digest.as_str())));
            },
        };
        let uncompressed_digest = sha256_digest(&tar);
        self.fresh_layer(digest, tar, uncompressed_digest, diff_id)
    }

    /// A new layer, once decoded: `digest` is the digest of its compressed
    /// blob, `tar` its uncompressed archive and `uncompressed_digest` that
    /// archive's digest. Fails with `UncompressedLayerInvalid`, naming both
    /// digests, when `uncompressed_digest` is not `diff_id`; otherwise the layer
    /// is to be unpacked at its store path.
    pub fn fresh_layer(&self, digest: String, tar: Vec<u8>, uncompressed_digest: String, diff_id: &String) -> (r:
        Result<PreparedLayer, Error>)
        ensures
            r is Ok <==> uncompressed_digest@ == diff_id@,
            match r {
                Ok(p) => match p {
                    PreparedLayer::Fresh { meta, tar: out } => {
                        &&& out == tar
                        &&& meta.id@ == digest@
                        &&& meta.compressed_digest@ == digest@
                        &&& meta.uncompressed_digest@ == uncompressed_digest@
                        &&& meta.store_path@ == layer_store_path(self.image_dir_spec(), digest@)
                    },
                    PreparedLayer::Cached(_) => false,
                },
                Err(e) => e is UncompressedLayerInvalid && e->UncompressedLayerInvalid_0@
                    == mismatch_message(uncompressed_digest@, diff_id@),
            },
    {
        if !uncompressed_digest.eq(diff_id) {
            let message = concat("uncompressed digest ", uncompressed_digest.as_str());
            let message = concat(message.as_str(), " differs from the configured digest ");
            let message = concat(message.as_str(), diff_id.as_str());
            proof {
                reveal_strlit("uncompressed digest ");
                reveal_strlit(" differs from the configured digest ");
            }
            assert(message@ =~= mismatch_message(uncompressed_digest@, diff_id@));
            return Err(Error::UncompressedLayerInvalid(message));
        }
        let dir = join(self.image_dir.as_str(), "layers");
        let name = replace(digest.as_str(), ':', '_');
        let store_path = join(dir.as_str(), name.as_str());
        proof {
            reveal_strlit("layers");
            assert("layers"@ =~= layers_text());
        }
        Ok(PreparedLayer::Fresh {
            meta: LayerMetadata {
                id: digest.clone(),
                compressed_digest: digest,
                uncompressed_digest,
                store_path,
            },
            tar,
        })
    }
}

impl Puller {
    /// Verifies the pulled layer blobs, in order, against the image
    /// configuration's `diff_ids`, as `prepare_layer` does for each. Fails with
    /// `InvalidPulledLayers` when the counts differ, and otherwise with the
    /// error of the first blob refused. The result keeps the order of
    /// `diff_ids`.
    pub fn verify_layers(&self, state: &State, blobs: &Vec<Vec<u8>>, diff_ids: &Vec<String>) -> (r:
        Result<Vec<PreparedLayer>, Error>)
        requires
            state.wf(),
        ensures
            blobs@.len() != diff_ids@.len() ==> r is Err && r->Err_0 is InvalidPulledLayers,
            r is Ok <==> blobs@.len() == diff_ids@.len() && forall|i: int|
                0 <= i < blobs@.len() ==> blob_ok(state.layer_map(), #[trigger] blobs@[i]@, diff_ids@[i]@),
            match r {
                Ok(layers) => layers@.len() == blobs@.len() && forall|i: int|
                    0 <= i < layers@.len() ==> prepared_as(
                        #[trigger] layers@[i],
                        state.layer_map(),
                        self.image_dir_spec(),
                        blobs@[i]@,
                        diff_ids@[i]@,
                    ) && layers@[i].meta_spec().id@ == blob_digest(blobs@[i]@)
                        && layers@[i].meta_spec().compressed_digest@ == blob_digest(blobs@[i]@),
                Err(e) => blobs@.len() != diff_ids@.len() || exists|i: int|
                    0 <= i < blobs@.len() && !blob_ok(state.layer_map(), #[trigger] blobs@[i]@, diff_ids@[i]@)
                        && refused_as(e, blobs@[i]@, diff_ids@[i]@) && forall|j: int|
                        0 <= j < i ==> blob_ok(state.layer_map(), #[trigger] blobs@[j]@, diff_ids@[j]@),
            },
    {
        if blobs.len() != diff_ids.len() {
            return Err(
                Error::InvalidPulledLayers(
                    String::from_str(
                        "the number of pulled layers differs from the image configuration",
                    ),
                ),
            );
        }
        let mut layers: Vec<PreparedLayer> = Vec::new();
        let mut i: usize = 0;
        while i < blobs.len()
            invariant
                state.wf(),
                blobs@.len() == diff_ids@.len(),
                i <= blobs@.len(),
                layers@.len() == i,
                forall|j: int| 0 <= j < i ==> blob_ok(state.layer_map(), #[trigger] blobs@[j]@, diff_ids@[j]@),
                forall|j: int|
                    0 <= j < i ==> prepared_as(
                        #[trigger] layers@[j],
                        state.layer_map(),
                        self.image_dir_spec(),
                        blobs@[j]@,
                        diff_ids@[j]@,
                    ) && layers@[j].meta_spec().id@ == blob_digest(blobs@[j]@)
                        && layers@[j].meta_spec().compressed_digest@ == blob_digest(blobs@[j]@),
            decreases blobs.len() - i,
        {
            match self.prepare_layer(state, &blobs[i], &diff_ids[i]) {
                Ok(p) => {
                    layers.push(p);
                },
                Err(e) => {
                    return Err(e);
                },
            }
            i = i + 1;
        }
        Ok(layers)
    }
}

} // verus!
