//! The image manager's state: known images by id, known layers by compressed
//! digest, and the counter that names overlay snapshots.

use vstd::prelude::*;
use crate::image::config::ImageConfig;
use crate::table::{keys_unique, lemma_map_of, map_of, Table};

verus! {

/// A layer that has been verified and unpacked.
#[derive(Debug)]
pub struct LayerMetadata {
    /// The layer id, equal to its compressed digest.
    pub id: String,
    /// The digest of the compressed blob, `sha256:<hex>`.
    pub compressed_digest: String,
    /// The digest of the uncompressed tar stream, `sha256:<hex>`.
    pub uncompressed_digest: String,
    /// The directory that holds the unpacked layer.
    pub store_path: String,
}

impl LayerMetadata {
    /// A field-by-field copy.
    pub fn duplicate(&self) -> (r: Self)
        ensures
            r == *self,
    {
        LayerMetadata {
            id: self.id.clone(),
            compressed_digest: self.compressed_digest.clone(),
            uncompressed_digest: self.uncompressed_digest.clone(),
            store_path: self.store_path.clone(),
        }
    }
}

/// An image known to the state.
#[derive(Debug)]
pub struct ImageMetadata {
    /// The image id.
    pub id: String,
    /// The reference it was pulled from, such as `docker.io/amd64/ubuntu`.
    pub reference: String,
    /// The manifest digest.
    pub digest: String,
    /// Its layers, base layer first.
    pub layers: Vec<LayerMetadata>,
    /// Its configuration.
    pub config: ImageConfig,
}

/// Every layer of every image is in the layer map.
pub open spec fn layers_agree(
    images: Map<Seq<char>, ImageMetadata>,
    layers: Map<Seq<char>, LayerMetadata>,
) -> bool {
    forall|id: Seq<char>, i: int| #[trigger]
        images.contains_key(id) && 0 <= i < images[id].layers@.len() ==> layers.contains_key(
            #[trigger] images[id].layers@[i].compressed_digest@,
        )
}

/// Each image is stored under its id, each layer under its compressed digest.
pub open spec fn keyed_by_id(
    images: Map<Seq<char>, ImageMetadata>,
    layers: Map<Seq<char>, LayerMetadata>,
) -> bool {
    &&& forall|id: Seq<char>| #[trigger] images.contains_key(id) ==> images[id].id@ == id
    &&& forall|d: Seq<char>| #[trigger] layers.contains_key(d) ==> layers[d].compressed_digest@ == d
        && layers[d].id@ == d
}

/// Every layer's id is its compressed digest.
pub open spec fn ids_are_digests(layers: Map<Seq<char>, LayerMetadata>) -> bool {
    forall|d: Seq<char>| #[trigger] layers.contains_key(d) ==> layers[d].id@ == layers[d].compressed_digest@
}

/// Parts read back from disk are consistent: images and layers agree, and
/// every layer's id is its compressed digest.
pub open spec fn parts_consistent(
    images: Map<Seq<char>, ImageMetadata>,
    layers: Map<Seq<char>, LayerMetadata>,
) -> bool {
    layers_agree(images, layers) && ids_are_digests(layers)
}

/// The images of a list, by id; where two share an id, the first one is kept.
pub open spec fn images_by_id(images: Seq<ImageMetadata>) -> Map<Seq<char>, ImageMetadata>
    decreases images.len(),
{
    if images.len() == 0 {
        Map::empty()
    } else {
        images_by_id(images.subrange(1, images.len() as int)).insert(images[0].id@, images[0])
    }
}

/// The layers of a list, by compressed digest; where two share a digest, the
/// first one is kept.
pub open spec fn layers_by_digest(layers: Seq<LayerMetadata>) -> Map<Seq<char>, LayerMetadata>
    decreases layers.len(),
{
    if layers.len() == 0 {
        Map::empty()
    } else {
        layers_by_digest(layers.subrange(1, layers.len() as int)).insert(
            layers[0].compressed_digest@,
            layers[0],
        )
    }
}

/// The known images and layers, and the last snapshot index handed out.
pub struct State {
    images: Table<ImageMetadata>,
    layers: Table<LayerMetadata>,
    index: u64,
}

impl State {
    /// The known images, by id.
    pub closed spec fn image_map(&self) -> Map<Seq<char>, ImageMetadata> {
        self.images@
    }

    /// The known layers, by compressed digest.
    pub closed spec fn layer_map(&self) -> Map<Seq<char>, LayerMetadata> {
        self.layers@
    }

    /// The last snapshot index handed out.
    pub closed spec fn last_index(&self) -> u64 {
        self.index
    }

    /// The state's invariant: unique keys, entries stored under their own key,
    /// and every layer of every image present in the layer map.
    pub closed spec fn wf(&self) -> bool {
        &&& self.images.wf()
        &&& self.layers.wf()
        &&& keyed_by_id(self.images@, self.layers@)
        &&& layers_agree(self.images@, self.layers@)
    }

    /// An empty state.
    pub fn new() -> (r: Self)
        ensures
            r.wf(),
            r.image_map() == Map::<Seq<char>, ImageMetadata>::empty(),
            r.layer_map() == Map::<Seq<char>, LayerMetadata>::empty(),
            r.last_index() == 0,
    {
        State { images: Table::new(), layers: Table::new(), index: 0 }
    }

    /// Rebuilds a state from what was read back from disk. Images are keyed by
    /// their id and layers by their compressed digest. When some image lists a
    /// layer that is not among `layers`, or a layer's id is not its compressed
    /// digest, the data is taken as corrupt and the result is an empty state.
    pub fn from_parts(images: Vec<ImageMetadata>, layers: Vec<LayerMetadata>, index: u64) -> (r:
        Self)
        ensures
            r.wf(),
            parts_consistent(images_by_id(images@), layers_by_digest(layers@)) ==> {
                &&& r.image_map() == images_by_id(images@)
                &&& r.layer_map() == layers_by_digest(layers@)
                &&& r.last_index() == index
            },
            !parts_consistent(images_by_id(images@), layers_by_digest(layers@)) ==> {
                &&& r.image_map() == Map::<Seq<char>, ImageMetadata>::empty()
                &&& r.layer_map() == Map::<Seq<char>, LayerMetadata>::empty()
                &&& r.last_index() == 0
            },
    {
        let ghost all_layers = layers@;
        let mut layers = layers;
        let mut layer_table: Table<LayerMetadata> = Table::new();
        while layers.len() > 0
            invariant
                layer_table.wf(),
                layers@.len() <= all_layers.len(),
                layers@ == all_layers.subrange(0, layers@.len() as int),
                layer_table@ == layers_by_digest(
                    all_layers.subrange(layers@.len() as int, all_layers.len() as int),
                ),
                forall|d: Seq<char>| #[trigger]
                    layer_table@.contains_key(d) ==> layer_table@[d].compressed_digest@ == d,
            decreases layers.len(),
        {
            let l = layers.pop().unwrap();
            proof {
                let k = layers@.len() as int;
                let next = all_layers.subrange(k, all_layers.len() as int);
                assert(next.subrange(1, next.len() as int) =~= all_layers.subrange(
                    k + 1,
                    all_layers.len() as int,
                ));
                assert(layers@ =~= all_layers.subrange(0, k));
            }
            let key = l.compressed_digest.clone();
            layer_table.insert(key, l);
        }
        assert(all_layers.subrange(0, all_layers.len() as int) =~= all_layers);

        let ghost all_images = images@;
        let mut images = images;
        let mut image_table: Table<ImageMetadata> = Table::new();
        while images.len() > 0
            invariant
                image_table.wf(),
                images@.len() <= all_images.len(),
                images@ == all_images.subrange(0, images@.len() as int),
                image_table@ == images_by_id(
                    all_images.subrange(images@.len() as int, all_images.len() as int),
                ),
                forall|id: Seq<char>| #[trigger]
                    image_table@.contains_key(id) ==> image_table@[id].id@ == id,
            decreases images.len(),
        {
            let m = images.pop().unwrap();
            proof {
                let k = images@.len() as int;
                let next = all_images.subrange(k, all_images.len() as int);
                assert(next.subrange(1, next.len() as int) =~= all_images.subrange(
                    k + 1,
                    all_images.len() as int,
                ));
                assert(images@ =~= all_images.subrange(0, k));
            }
            let key = m.id.clone();
            image_table.insert(key, m);
        }
        assert(all_images.subrange(0, all_images.len() as int) =~= all_images);

        if State::check_agreement(&image_table, &layer_table) && State::check_layer_ids(&layer_table) {
            State { images: image_table, layers: layer_table, index }
        } else {
            State::new()
        }
    }

    /// Adds an image, stored under its id. Its layers must already be known.
    pub fn add_image(&mut self, image: ImageMetadata)
        requires
            old(self).wf(),
            forall|i: int|
                0 <= i < image.layers@.len() ==> old(self).layer_map().contains_key(
                    #[trigger] image.layers@[i].compressed_digest@,
                ),
        ensures
            final(self).wf(),
            final(self).image_map() == old(self).image_map().insert(image.id@, image),
            final(self).layer_map() == old(self).layer_map(),
            final(self).last_index() == old(self).last_index(),
    {
        let key = image.id.clone();
        self.images.insert(key, image);
    }

    /// Adds a layer, stored under its compressed digest, which must be its id.
    pub fn add_layer(&mut self, layer: LayerMetadata)
        requires
            old(self).wf(),
            layer.id@ == layer.compressed_digest@,
        ensures
            final(self).wf(),
            final(self).layer_map() == old(self).layer_map().insert(
                layer.compressed_digest@,
                layer,
            ),
            final(self).image_map() == old(self).image_map(),
            final(self).last_index() == old(self).last_index(),
    {
        let key = layer.compressed_digest.clone();
        self.layers.insert(key, layer);
        assert(layers_agree(self.images@, self.layers@));
    }

    /// Whether an image with this id is known.
    pub fn has_image(&self, image_id: &str) -> (r: bool)
        requires
            self.wf(),
        ensures
            r == self.image_map().contains_key(image_id@),
    {
        self.images.contains_key(image_id)
    }

    /// Whether a layer with this compressed digest is known.
    pub fn has_layer(&self, layer_id: &str) -> (r: bool)
        requires
            self.wf(),
        ensures
            r == self.layer_map().contains_key(layer_id@),
    {
        self.layers.contains_key(layer_id)
    }

    /// The image with this id.
    pub fn image(&self, image_id: &str) -> (r: Option<&ImageMetadata>)
        requires
            self.wf(),
        ensures
            match r {
                Some(m) => self.image_map().contains_key(image_id@) && *m == self.image_map()[image_id@],
                None => !self.image_map().contains_key(image_id@),
            },
    {
        self.images.get(image_id)
    }

    /// The layer with this compressed digest.
    pub fn layer(&self, layer_id: &str) -> (r: Option<&LayerMetadata>)
        requires
            self.wf(),
        ensures
            match r {
                Some(m) => self.layer_map().contains_key(layer_id@) && *m == self.layer_map()[layer_id@],
                None => !self.layer_map().contains_key(layer_id@),
            },
    {
        self.layers.get(layer_id)
    }

    /// Hands out a new snapshot index: one more than the last one.
    pub fn snapshot_index(&mut self) -> (r: u64)
        requires
            old(self).wf(),
            old(self).last_index() < u64::MAX,
        ensures
            final(self).wf(),
            r == old(self).last_index() + 1,
            final(self).last_index() == r,
            final(self).image_map() == old(self).image_map(),
            final(self).layer_map() == old(self).layer_map(),
    {
        self.index = self.index + 1;
        self.index
    }

    /// The last snapshot index handed out.
    pub fn index(&self) -> (r: u64)
        ensures
            r == self.last_index(),
    {
        self.index
    }

    /// The known images, as id/image pairs.
    pub fn images(&self) -> (r: &Vec<(String, ImageMetadata)>)
        ensures
            map_of(r@) == self.image_map(),
    {
        self.images.entries()
    }

    /// The known layers, as digest/layer pairs.
    pub fn layers(&self) -> (r: &Vec<(String, LayerMetadata)>)
        ensures
            map_of(r@) == self.layer_map(),
    {
        self.layers.entries()
    }

    /// Whether every layer's id is its compressed digest.
    fn check_layer_ids(layers: &Table<LayerMetadata>) -> (r: bool)
        requires
            layers.wf(),
        ensures
            r == ids_are_digests(layers@),
    {
        let entries = layers.entries();
        proof {
            lemma_map_of(entries@);
        }
        let mut i: usize = 0;
        while i < entries.len()
            invariant
                layers.wf(),
                entries@ == layers.pairs(),
                i <= entries@.len(),
                forall|a: int|
                    0 <= a < i ==> (#[trigger] entries@[a]).1.id@ == entries@[a].1.compressed_digest@,
            decreases entries.len() - i,
        {
            let layer = &entries[i].1;
            if !layer.id.eq(&layer.compressed_digest) {
                proof {
                    lemma_map_of(entries@);
                    assert(layers@[entries@[i as int].0@] == entries@[i as int].1);
                    assert(layers@.contains_key(entries@[i as int].0@));
                }
                return false;
            }
            i = i + 1;
        }
        proof {
            lemma_map_of(entries@);
            assert forall|d: Seq<char>| #[trigger] layers@.contains_key(d) implies layers@[d].id@
                == layers@[d].compressed_digest@ by {
                let a = choose|a: int| 0 <= a < entries@.len() && entries@[a].0@ == d;
                assert(layers@[entries@[a].0@] == entries@[a].1);
            }
        }
        true
    }

    /// Whether every layer of every image of `images` is in `layers`.
    fn check_agreement(images: &Table<ImageMetadata>, layers: &Table<LayerMetadata>) -> (r: bool)
        requires
            images.wf(),
            layers.wf(),
        ensures
            r == layers_agree(images@, layers@),
    {
        let entries = images.entries();
        proof {
            lemma_map_of(entries@);
        }
        let mut i: usize = 0;
        while i < entries.len()
            invariant
                layers.wf(),
                images.wf(),
                entries@ == images.pairs(),
                keys_unique(entries@),
                i <= entries@.len(),
                forall|a: int, b: int|
                    0 <= a < i && 0 <= b < entries@[a].1.layers@.len() ==> layers@.contains_key(
                        #[trigger] entries@[a].1.layers@[b].compressed_digest@,
                    ),
            decreases entries.len() - i,
        {
            let image_layers = &entries[i].1.layers;
            let mut j: usize = 0;
            while j < image_layers.len()
                invariant
                    layers.wf(),
                    images.wf(),
                    entries@ == images.pairs(),
                    i < entries@.len(),
                    image_layers@ == entries@[i as int].1.layers@,
                    j <= image_layers@.len(),
                    forall|b: int|
                        0 <= b < j ==> layers@.contains_key(
                            #[trigger] image_layers@[b].compressed_digest@,
                        ),
                decreases image_layers.len() - j,
            {
                if !layers.contains_key(image_layers[j].compressed_digest.as_str()) {
                    proof {
                        lemma_map_of(entries@);
                        let id = entries@[i as int].0@;
                        assert(images@[id] == entries@[i as int].1);
                        assert(images@.contains_key(id));
                        assert(!layers@.contains_key(images@[id].layers@[j as int].compressed_digest@));
                    }
                    return false;
                }
                j = j + 1;
            }
            i = i + 1;
        }
        assert forall|id: Seq<char>, b: int| #[trigger]
            images@.contains_key(id) && 0 <= b < images@[id].layers@.len() implies layers@.contains_key(
            #[trigger] images@[id].layers@[b].compressed_digest@,
        ) by {
            let a = choose|a: int| 0 <= a < entries@.len() && entries@[a].0@ == id;
            assert(images@[entries@[a].0@] == entries@[a].1);
        }
        true
    }
}


/// Snapshot indices handed out one after another are pairwise distinct. Each
/// call of `snapshot_index` returns one more than the state's last index
/// (`observed[k] == before[k] + 1`), and between two calls that index never
/// goes back (`before[k] >= observed[k - 1]`).
pub proof fn lemma_snapshot_indices_unique(before: Seq<u64>, observed: Seq<u64>)
    requires
        before.len() == observed.len(),
        forall|k: int| 0 <= k < observed.len() ==> #[trigger] observed[k] == before[k] + 1,
        forall|k: int| 1 <= k < observed.len() ==> #[trigger] before[k] >= observed[k - 1],
    ensures
        forall|i: int, j: int| 0 <= i < j < observed.len() ==> observed[i] < observed[j],
    decreases observed.len(),
{
    if observed.len() > 1 {
        let n = observed.len() - 1;
        lemma_snapshot_indices_unique(before.drop_last(), observed.drop_last());
        assert forall|i: int, j: int| 0 <= i < j < observed.len() implies observed[i]
            < observed[j] by {
            if j == n {
                assert(before[n] >= observed[n - 1]);
                assert(observed[n] == before[n] + 1);
                if i < n - 1 {
                    assert(observed.drop_last()[i] < observed.drop_last()[n - 1]);
                }
            } else {
                assert(observed.drop_last()[i] < observed.drop_last()[j]);
            }
        }
    }
}

/// In every well-formed state, each layer listed by a known image is itself
/// known: the image and layer maps agree.
pub proof fn lemma_state_layers_agree(state: State)
    requires
        state.wf(),
    ensures
        layers_agree(state.image_map(), state.layer_map()),
        keyed_by_id(state.image_map(), state.layer_map()),
{
}

/// A list of images that holds exactly the images of a map, each once, has
/// that map as its images by id.
pub proof fn lemma_images_by_id_of_map(images: Seq<ImageMetadata>, m: Map<Seq<char>, ImageMetadata>)
    requires
        forall|i: int, j: int| 0 <= i < j < images.len() ==> images[i].id@ != images[j].id@,
        forall|i: int| 0 <= i < images.len() ==> #[trigger] m.contains_key(images[i].id@) && m[images[i].id@] == images[i],
        forall|id: Seq<char>| #[trigger] m.contains_key(id) ==> exists|i: int| 0 <= i < images.len() && images[i].id@ == id,
    ensures
        images_by_id(images) == m,
    decreases images.len(),
{
    if images.len() == 0 {
        assert(m =~= Map::<Seq<char>, ImageMetadata>::empty());
    } else {
        let rest = images.subrange(1, images.len() as int);
        let first = images[0];
        let smaller = m.remove(first.id@);
        assert forall|i: int| 0 <= i < rest.len() implies #[trigger] smaller.contains_key(rest[i].id@)
            && smaller[rest[i].id@] == rest[i] by {
            assert(rest[i] == images[i + 1]);
            assert(images[0].id@ != images[i + 1].id@);
            assert(m.contains_key(images[i + 1].id@));
        }
        assert forall|id: Seq<char>| #[trigger] smaller.contains_key(id) implies exists|i: int|
            0 <= i < rest.len() && rest[i].id@ == id by {
            let i = choose|i: int| 0 <= i < images.len() && images[i].id@ == id;
            assert(i != 0);
            assert(rest[i - 1].id@ == id);
        }
        lemma_images_by_id_of_map(rest, smaller);
        assert(images_by_id(images) =~= m);
    }
}

/// A list of layers that holds exactly the layers of a map, each once, has
/// that map as its layers by digest.
pub proof fn lemma_layers_by_digest_of_map(layers: Seq<LayerMetadata>, m: Map<Seq<char>, LayerMetadata>)
    requires
        forall|i: int, j: int|
            0 <= i < j < layers.len() ==> layers[i].compressed_digest@ != layers[j].compressed_digest@,
        forall|i: int|
            0 <= i < layers.len() ==> #[trigger] m.contains_key(layers[i].compressed_digest@)
                && m[layers[i].compressed_digest@] == layers[i],
        forall|d: Seq<char>| #[trigger]
            m.contains_key(d) ==> exists|i: int| 0 <= i < layers.len() && layers[i].compressed_digest@ == d,
    ensures
        layers_by_digest(layers) == m,
    decreases layers.len(),
{
    if layers.len() == 0 {
        assert(m =~= Map::<Seq<char>, LayerMetadata>::empty());
    } else {
        let rest = layers.subrange(1, layers.len() as int);
        let first = layers[0];
        let smaller = m.remove(first.compressed_digest@);
        assert forall|i: int| 0 <= i < rest.len() implies #[trigger] smaller.contains_key(
            rest[i].compressed_digest@,
        ) && smaller[rest[i].compressed_digest@] == rest[i] by {
            assert(rest[i] == layers[i + 1]);
            assert(layers[0].compressed_digest@ != layers[i + 1].compressed_digest@);
            assert(m.contains_key(layers[i + 1].compressed_digest@));
        }
        assert forall|d: Seq<char>| #[trigger] smaller.contains_key(d) implies exists|i: int|
            0 <= i < rest.len() && rest[i].compressed_digest@ == d by {
            let i = choose|i: int| 0 <= i < layers.len() && layers[i].compressed_digest@ == d;
            assert(i != 0);
            assert(rest[i - 1].compressed_digest@ == d);
        }
        lemma_layers_by_digest_of_map(rest, smaller);
        assert(layers_by_digest(layers) =~= m);
    }
}

/// Rebuilding a well-formed state from its own images and layers, listed once
/// each in any order, and its index gives back the same state: `from_parts`
/// then yields exactly these maps and this index.
pub proof fn lemma_state_round_trip(state: State, images: Seq<ImageMetadata>, layers: Seq<LayerMetadata>)
    requires
        state.wf(),
        forall|i: int, j: int| 0 <= i < j < images.len() ==> images[i].id@ != images[j].id@,
        forall|i: int|
            0 <= i < images.len() ==> #[trigger] state.image_map().contains_key(images[i].id@)
                && state.image_map()[images[i].id@] == images[i],
        forall|id: Seq<char>| #[trigger]
            state.image_map().contains_key(id) ==> exists|i: int| 0 <= i < images.len() && images[i].id@ == id,
        forall|i: int, j: int|
            0 <= i < j < layers.len() ==> layers[i].compressed_digest@ != layers[j].compressed_digest@,
        forall|i: int|
            0 <= i < layers.len() ==> #[trigger] state.layer_map().contains_key(layers[i].compressed_digest@)
                && state.layer_map()[layers[i].compressed_digest@] == layers[i],
        forall|d: Seq<char>| #[trigger]
            state.layer_map().contains_key(d) ==> exists|i: int|
                0 <= i < layers.len() && layers[i].compressed_digest@ == d,
    ensures
        images_by_id(images) == state.image_map(),
        layers_by_digest(layers) == state.layer_map(),
        parts_consistent(images_by_id(images), layers_by_digest(layers)),
{
    lemma_images_by_id_of_map(images, state.image_map());
    lemma_layers_by_digest_of_map(layers, state.layer_map());
}

} // verus!
