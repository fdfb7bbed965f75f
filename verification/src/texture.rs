//! The texture table and its one-frame-delayed free queue.
//!
//! Each frame's texture delta names textures to set and textures to free. A
//! set entry becomes an upload against the host backend and a new table entry;
//! a free entry is only recorded, and the recorded identifiers are removed at
//! the start of the next frame's draw, so the draws of the frame that freed
//! them still resolve a live handle.

use vstd::prelude::*;
use std::collections::HashMap;
use crate::BridgeError;
use crate::image::RgbaImage;

verus! {

broadcast use vstd::std_specs::hash::group_hash_axioms;

/// A texture identifier as the GUI library hands it out: managed identifiers
/// belong to the library's own texture manager; user identifiers are supplied
/// by the embedding application and never touched by the bridge.
#[derive(Clone, Copy, PartialEq, Eq, Structural, Debug)]
pub enum TextureId {
    Managed(u64),
    User(u64),
}

/// A texture sampling filter as the GUI library requests it.
#[derive(Clone, Copy, PartialEq, Eq, Structural, Debug)]
pub enum TexFilter {
    Nearest,
    Linear,
}

/// How the GUI library asks for texture coordinates outside the unit square
/// to be treated.
#[derive(Clone, Copy, PartialEq, Eq, Structural, Debug)]
pub enum TexWrap {
    ClampToEdge,
    Repeat,
    MirroredRepeat,
}

/// The GUI library's full sampler options for one texture.
#[derive(Clone, Copy, PartialEq, Eq, Structural, Debug)]
pub struct TexOptions {
    pub magnification: TexFilter,
    pub minification: TexFilter,
    pub wrap_mode: TexWrap,
}

/// A smoothing mode as the host graphics backend understands it.
#[derive(Clone, Copy, PartialEq, Eq, Structural, Debug)]
pub enum Smoothing {
    NearestNeighbor,
    Linear,
}

/// The all-nearest, clamp-to-edge option set.
pub open spec fn nearest_options() -> TexOptions {
    TexOptions {
        magnification: TexFilter::Nearest,
        minification: TexFilter::Nearest,
        wrap_mode: TexWrap::ClampToEdge,
    }
}

/// The sampler-mapping table: exactly the all-nearest, clamp-to-edge option
/// set becomes nearest-neighbor smoothing; every other combination, including
/// ones the bridge does not recognize, falls back to linear.
pub open spec fn smoothing_map(options: TexOptions) -> Smoothing {
    if options == nearest_options() {
        Smoothing::NearestNeighbor
    } else {
        Smoothing::Linear
    }
}

/// Chooses the host smoothing mode for one set of sampler options.
pub fn smoothing_from_options(options: &TexOptions) -> (r: Smoothing)
    ensures
        r == smoothing_map(*options),
{
    match (options.magnification, options.minification, options.wrap_mode) {
        (TexFilter::Nearest, TexFilter::Nearest, TexWrap::ClampToEdge) => Smoothing::NearestNeighbor,
        _ => Smoothing::Linear,
    }
}

/// One "set" entry of a texture delta: a full replacement image (already
/// decoded to flat RGBA), an optional sub-rectangle origin for a partial
/// patch, and the requested sampler options.
#[derive(Debug)]
pub struct ImageDelta {
    pub image: RgbaImage,
    pub region: Option<(usize, usize)>,
    pub options: TexOptions,
}

/// What one "set" entry of a texture delta asks of the embedding layer.
#[derive(Clone, Copy, PartialEq, Eq, Structural, Debug)]
pub enum UploadAction {
    /// The entry names a user-managed texture: the bridge never creates or
    /// frees those, so nothing is done.
    Skip,
    /// Upload the entry's image with the given smoothing and store the
    /// resulting handle under the given managed identifier.
    Create { id: u64, smoothing: Smoothing },
}

/// The decision for one "set" entry: user identifiers are skipped, a partial
/// patch is unimplemented and fatal, and a full replacement of a managed
/// texture becomes an upload with the mapped smoothing mode.
pub open spec fn set_action(id: TextureId, region: Option<(usize, usize)>, options: TexOptions) -> Result<
    UploadAction,
    BridgeError,
> {
    match id {
        TextureId::User(_) => Ok(UploadAction::Skip),
        TextureId::Managed(id) => match region {
            Some(_) => Err(BridgeError::PartialUpdateUnsupported),
            None => Ok(UploadAction::Create { id, smoothing: smoothing_map(options) }),
        },
    }
}

/// Decides what to do with one "set" entry of a texture delta.
pub fn plan_texture_set(id: TextureId, delta: &ImageDelta) -> (r: Result<
    UploadAction,
    BridgeError,
>)
    ensures
        r == set_action(id, delta.region, delta.options),
{
    match id {
        TextureId::User(_) => Ok(UploadAction::Skip),
        TextureId::Managed(id) => match delta.region {
            Some(_) => Err(BridgeError::PartialUpdateUnsupported),
            None => Ok(
                UploadAction::Create { id, smoothing: smoothing_from_options(&delta.options) },
            ),
        },
    }
}

/// A live texture: the host backend's handle (as the token the embedding
/// layer registered it under) and the CPU-side copy of its pixels, retained
/// for future partial updates.
#[derive(Debug)]
pub struct TextureEntry {
    pub handle: u64,
    pub image: RgbaImage,
}

/// The managed identifiers in a free list, in order; user identifiers are
/// dropped.
pub open spec fn managed_ids(free: Seq<TextureId>) -> Seq<u64>
    decreases free.len(),
{
    if free.len() == 0 {
        Seq::empty()
    } else {
        let rest = managed_ids(free.drop_last());
        match free.last() {
            TextureId::Managed(id) => rest.push(id),
            TextureId::User(_) => rest,
        }
    }
}

/// The texture table plus the queue of identifiers waiting to be freed at the
/// start of the next frame's draw.
#[derive(Debug)]
pub struct TextureStore {
    textures: HashMap<u64, TextureEntry>,
    to_free: Vec<u64>,
}

/// Looking an identifier up in a table: the stored handle, or nothing.
pub open spec fn resolve_in(table: Map<u64, TextureEntry>, id: u64) -> Option<u64> {
    if table.contains_key(id) {
        Some(table[id].handle)
    } else {
        None
    }
}

impl TextureStore {
    /// The live entries, keyed by managed texture identifier.
    pub closed spec fn table(self) -> Map<u64, TextureEntry> {
        self.textures@
    }

    /// The identifiers recorded for removal at the start of the next frame's
    /// draw.
    pub closed spec fn free_queue(self) -> Seq<u64> {
        self.to_free@
    }

    /// An empty store: no textures, nothing queued to free.
    pub fn new() -> (s: TextureStore)
        ensures
            s.table() == Map::<u64, TextureEntry>::empty(),
            s.free_queue() == Seq::<u64>::empty(),
    {
        TextureStore { textures: HashMap::new(), to_free: Vec::new() }
    }

    /// Stores a freshly uploaded texture under its managed identifier,
    /// replacing any previous entry.
    pub fn store(&mut self, id: u64, entry: TextureEntry)
        ensures
            final(self).table() == old(self).table().insert(id, entry),
            final(self).free_queue() == old(self).free_queue(),
    {
        self.textures.insert(id, entry);
    }

    /// Looks up the host handle for a managed identifier.
    pub fn resolve(&self, id: u64) -> (r: Option<u64>)
        ensures
            r == resolve_in(self.table(), id),
    {
        match self.textures.get(&id) {
            Some(entry) => Some(entry.handle),
            None => None,
        }
    }

    /// Records the managed identifiers of a frame's free list for removal at
    /// the start of the next frame's draw. The table itself is untouched, so
    /// every draw of the current frame still resolves these identifiers.
    pub fn record_frees(&mut self, free: &Vec<TextureId>)
        ensures
            final(self).free_queue() == managed_ids(free@),
            final(self).table() == old(self).table(),
    {
        let mut queue: Vec<u64> = Vec::new();
        let mut i: usize = 0;
        while i < free.len()
            invariant
                i <= free@.len(),
                queue@ == managed_ids(free@.take(i as int)),
            decreases free@.len() - i,
        {
            proof {
                assert(free@.take(i + 1).drop_last() =~= free@.take(i as int));
                assert(free@.take(i + 1).last() == free@[i as int]);
            }
            match free[i] {
                TextureId::Managed(id) => queue.push(id),
                TextureId::User(_) => (),
            }
            i = i + 1;
        }
        proof {
            assert(free@.take(free@.len() as int) =~= free@);
        }
        self.to_free = queue;
    }

    /// Removes every texture recorded in the free queue and empties the
    /// queue. Runs at the start of a frame's draw, one frame after the
    /// identifiers were recorded.
    pub fn advance_free_queue(&mut self)
        ensures
            final(self).table() == old(self).table().remove_keys(old(self).free_queue().to_set()),
            final(self).free_queue() == Seq::<u64>::empty(),
    {
        let ghost table0 = self.textures@;
        let ghost queue = self.to_free@;
        let mut i: usize = 0;
        while i < self.to_free.len()
            invariant
                i <= queue.len(),
                self.to_free@ == queue,
                self.textures@ == table0.remove_keys(queue.take(i as int).to_set()),
            decreases queue.len() - i,
        {
            let id = self.to_free[i];
            self.textures.remove(&id);
            proof {
                assert(table0.remove_keys(queue.take(i as int).to_set()).remove(id)
                    =~= table0.remove_keys(queue.take(i + 1).to_set())) by {
                    assert(queue.take(i + 1).drop_last() =~= queue.take(i as int));
                    assert forall|k: u64|
                        queue.take(i as int).contains(k) || k == id implies queue.take(
                        i + 1,
                    ).contains(k) by {
                        if k == id {
                            assert(queue.take(i + 1)[i as int] == id);
                        } else {
                            let j = choose|j: int|
                                0 <= j < queue.take(i as int).len() && #[trigger] queue.take(
                                    i as int,
                                )[j] == k;
                            assert(queue.take(i + 1)[j] == k);
                        }
                    }
                    assert forall|k: u64|
                        queue.take(i + 1).contains(k) implies queue.take(i as int).contains(k) || k
                        == id by {
                        let j = choose|j: int|
                            0 <= j < queue.take(i + 1).len() && #[trigger] queue.take(i + 1)[j]
                                == k;
                        if j < i as int {
                            assert(queue.take(i as int)[j] == k);
                        }
                    }
                }
            }
            i = i + 1;
        }
        proof {
            assert(queue.take(queue.len() as int) =~= queue);
        }
        self.to_free.clear();
    }
}

/// The one-frame-delayed free protocol. Recording a frame's free list leaves
/// the table itself untouched (`record_frees` ensures it), so every draw of
/// that frame still resolves a freed identifier exactly as before; this lemma
/// adds that the queue advance at the start of the next frame — whose new
/// table is `table.remove_keys(managed_ids(free).to_set())` by
/// `advance_free_queue`'s contract — unresolves exactly the recorded managed
/// identifiers and no others.
pub proof fn lemma_free_is_one_frame_late(
    table: Map<u64, TextureEntry>,
    free: Seq<TextureId>,
    id: u64,
)
    ensures
        managed_ids(free).contains(id) ==> resolve_in(
            table.remove_keys(managed_ids(free).to_set()),
            id,
        ) is None,
        !managed_ids(free).contains(id) ==> resolve_in(
            table.remove_keys(managed_ids(free).to_set()),
            id,
        ) == resolve_in(table, id),
{
}

} // verus!
