//! Draw batches and masking.
//!
//! Graphics are drawn in batches; each batch is either drawn normally, drawn
//! into the mask (clearing it first or adding to it), or drawn through the
//! mask.  This module decides which batch new geometry goes into, keeps the
//! masking state of a draw pass, and tidies the batch list before render.
//!
//! The pool records of each batch its masking kind, the key of its texture
//! and how many vertices it holds; the rest of its content (the vertex data,
//! indices and the area it covers) is the renderer's, held here as an opaque
//! payload.

use vstd::prelude::*;
use crate::texture::{TextureSize, UvRect, get_uv_rect, spec_uv_rect};
use crate::texture_cache::{TextureCache, bytes_eq, key_index, spec_ready};

verus! {

/// How a batch interacts with the mask.
#[derive(Clone, Copy, Debug, PartialEq, Eq, Structural)]
pub enum BatchMasking {
    /// Drawn normally.
    Unmasked,
    /// Drawn into the mask, which is cleared first.
    NewMask,
    /// Drawn into the mask, adding to what is there.
    AddToMask,
    /// Drawn through the mask.
    Masked,
}

/// What an existing batch means for new geometry of a given masking kind,
/// while searching the batches from the most recent one backwards.
#[derive(Clone, Copy, Debug, PartialEq, Eq, Structural)]
pub enum BatchCompat {
    /// Look further back without considering this batch at all.
    Skip,
    /// Stop searching: a new batch is needed.
    Stop,
    /// Cannot merge, but geometry may be drawn past it if it does not
    /// overlap.
    PassOver,
    /// Can merge if the texture matches and there is room.
    Mergeable,
}

/// The masking decision table.
pub open spec fn spec_compat(batch: BatchMasking, new: BatchMasking) -> BatchCompat {
    match (batch, new) {
        (BatchMasking::AddToMask, BatchMasking::Unmasked)
        | (BatchMasking::NewMask, BatchMasking::Unmasked) => BatchCompat::Skip,
        (BatchMasking::Unmasked, BatchMasking::NewMask)
        | (BatchMasking::Masked, BatchMasking::NewMask)
        | (BatchMasking::AddToMask, BatchMasking::Masked)
        | (BatchMasking::NewMask, BatchMasking::Masked) => BatchCompat::Stop,
        (BatchMasking::Unmasked, BatchMasking::Masked)
        | (BatchMasking::Masked, BatchMasking::Unmasked) => BatchCompat::PassOver,
        _ => BatchCompat::Mergeable,
    }
}

/// Whether new geometry of kind `new` may join a batch of kind `batch`,
/// may be drawn past it, must skip it, or must start a new batch.
pub fn compat(batch: BatchMasking, new: BatchMasking) -> (r: BatchCompat)
    requires
        new != BatchMasking::AddToMask,
    ensures
        r == spec_compat(batch, new),
{
    match (batch, new) {
        (BatchMasking::AddToMask, BatchMasking::Unmasked)
        | (BatchMasking::NewMask, BatchMasking::Unmasked) => BatchCompat::Skip,
        (BatchMasking::Unmasked, BatchMasking::NewMask)
        | (BatchMasking::Masked, BatchMasking::NewMask)
        | (BatchMasking::AddToMask, BatchMasking::Masked)
        | (BatchMasking::NewMask, BatchMasking::Masked) => BatchCompat::Stop,
        (BatchMasking::Unmasked, BatchMasking::Masked)
        | (BatchMasking::Masked, BatchMasking::Unmasked) => BatchCompat::PassOver,
        _ => BatchCompat::Mergeable,
    }
}

/// The batch that new geometry joins, searching backwards from batch
/// `i - 1`: `Some(j)` for an existing batch, `None` when a new batch is
/// needed.  `usable[j]` says whether batch `j` has the same texture and room
/// for the vertices; `overlaps[j]` whether it covers part of the new
/// geometry's area.
pub open spec fn spec_find(
    masking: Seq<BatchMasking>,
    new: BatchMasking,
    usable: Seq<bool>,
    overlaps: Seq<bool>,
    i: int,
) -> Option<int>
    decreases i,
{
    if i <= 0 {
        None
    } else {
        let j = i - 1;
        match spec_compat(masking[j], new) {
            BatchCompat::Skip => spec_find(masking, new, usable, overlaps, j),
            BatchCompat::Stop => None,
            BatchCompat::Mergeable => if usable[j] {
                Some(j)
            } else if overlaps[j] {
                None
            } else {
                spec_find(masking, new, usable, overlaps, j)
            },
            BatchCompat::PassOver => if overlaps[j] {
                None
            } else {
                spec_find(masking, new, usable, overlaps, j)
            },
        }
    }
}

/// The start of the run of mask-drawing batches (`NewMask`, `AddToMask`)
/// at the end of the list.
pub open spec fn spec_empty_mask_start(masking: Seq<BatchMasking>, i: int) -> int
    decreases i,
{
    if i <= 0 {
        0
    } else if masking[i - 1] == BatchMasking::Unmasked || masking[i - 1] == BatchMasking::Masked {
        i
    } else {
        spec_empty_mask_start(masking, i - 1)
    }
}

/// Whether a batch draws into the mask.
pub open spec fn spec_draws_mask(m: BatchMasking) -> bool {
    m == BatchMasking::NewMask || m == BatchMasking::AddToMask
}

proof fn lemma_empty_mask_start(masking: Seq<BatchMasking>, i: int)
    requires
        0 <= i <= masking.len(),
    ensures
        0 <= spec_empty_mask_start(masking, i) <= i,
        forall|j: int|
            spec_empty_mask_start(masking, i) <= j < i ==> spec_draws_mask(#[trigger] masking[j]),
        spec_empty_mask_start(masking, i) > 0 ==> !spec_draws_mask(
            masking[spec_empty_mask_start(masking, i) - 1],
        ),
    decreases i,
{
    if i > 0 {
        lemma_empty_mask_start(masking, i - 1);
    }
}

/// A new mask-clearing batch that directly follows another one only adds to
/// the mask: the clear already happened.
pub open spec fn spec_reduced(masking: Seq<BatchMasking>) -> Seq<BatchMasking> {
    Seq::new(
        masking.len(),
        |i: int|
            if masking[i] == BatchMasking::NewMask && i > 0 && masking[i - 1]
                == BatchMasking::NewMask {
                BatchMasking::AddToMask
            } else {
                masking[i]
            },
    )
}

/// What the search finds, for new geometry that is not itself an addition
/// to the mask, among the first `i` batches:
/// - a batch it finds is usable and of a masking kind the geometry can be
///   merged into: the same kind, or a mask addition taking a new mask;
/// - every later batch is one the geometry may be drawn past: it does not
///   cover the new area, or it draws into the mask while the geometry is
///   unmasked; and none of them forbids going further back (unmasked or
///   masked drawing before a new mask, mask drawing before masked
///   geometry).
pub proof fn lemma_find_law(
    masking: Seq<BatchMasking>,
    new: BatchMasking,
    usable: Seq<bool>,
    overlaps: Seq<bool>,
    i: int,
)
    requires
        new != BatchMasking::AddToMask,
        i <= masking.len(),
        i <= usable.len(),
        i <= overlaps.len(),
    ensures
        spec_find(masking, new, usable, overlaps, i) matches Some(j) ==> {
            &&& 0 <= j < i
            &&& usable[j]
            &&& (masking[j] == new || (masking[j] == BatchMasking::AddToMask && new
                == BatchMasking::NewMask))
            &&& forall|l: int|
                j < l < i ==> {
                    &&& (!overlaps[l] || (new == BatchMasking::Unmasked && (#[trigger] masking[l]
                        == BatchMasking::NewMask || masking[l] == BatchMasking::AddToMask)))
                    &&& !(new == BatchMasking::NewMask && (masking[l] == BatchMasking::Unmasked
                        || masking[l] == BatchMasking::Masked))
                    &&& !(new == BatchMasking::Masked && (masking[l] == BatchMasking::NewMask
                        || masking[l] == BatchMasking::AddToMask))
                }
        },
    decreases i,
{
    if i > 0 {
        lemma_find_law(masking, new, usable, overlaps, i - 1);
    }
}

/// A batch the search finds is one marked usable.
proof fn lemma_found_is_usable(
    masking: Seq<BatchMasking>,
    new: BatchMasking,
    usable: Seq<bool>,
    overlaps: Seq<bool>,
    i: int,
)
    requires
        i <= usable.len(),
    ensures
        spec_find(masking, new, usable, overlaps, i) matches Some(j) ==> 0 <= j < i && usable[j],
    decreases i,
{
    if i > 0 {
        lemma_found_is_usable(masking, new, usable, overlaps, i - 1);
    }
}

/// Reducing mask clears is idempotent, and afterwards no mask-clearing
/// batch directly follows another; every batch keeps its kind but for
/// clears that become additions to the mask.
pub proof fn lemma_reduced_laws(masking: Seq<BatchMasking>)
    ensures
        spec_reduced(spec_reduced(masking)) == spec_reduced(masking),
        forall|i: int|
            0 < i < masking.len() ==> !(#[trigger] spec_reduced(masking)[i] == BatchMasking::NewMask
                && spec_reduced(masking)[i - 1] == BatchMasking::NewMask),
        forall|i: int|
            0 <= i < masking.len() ==> #[trigger] spec_reduced(masking)[i] == masking[i] || (
            masking[i] == BatchMasking::NewMask && spec_reduced(masking)[i]
                == BatchMasking::AddToMask),
{
    let r = spec_reduced(masking);
    assert forall|i: int| 0 <= i < masking.len() implies spec_reduced(r)[i] == r[i] by {
        if i > 0 {
            assert(r[i - 1] == BatchMasking::NewMask ==> masking[i - 1] == BatchMasking::NewMask);
        }
    }
    assert(spec_reduced(r) =~= r);
}

/// After removing the empty mask at the end, no batch at the end draws
/// into the mask, so removing it again changes nothing; the batches kept
/// are a prefix of the list.
pub proof fn lemma_pop_empty_mask_laws(masking: Seq<BatchMasking>)
    ensures
        ({
            let k = spec_empty_mask_start(masking, masking.len() as int);
            let kept = masking.take(k);
            &&& 0 <= k <= masking.len()
            &&& k > 0 ==> !spec_draws_mask(kept[k - 1])
            &&& spec_empty_mask_start(kept, kept.len() as int) == k
            &&& forall|j: int| k <= j < masking.len() ==> spec_draws_mask(#[trigger] masking[j])
        }),
{
    let n = masking.len() as int;
    lemma_empty_mask_start(masking, n);
    let k = spec_empty_mask_start(masking, n);
    let kept = masking.take(k);
    if k > 0 {
        assert(kept[k - 1] == masking[k - 1]);
        assert(!spec_draws_mask(kept[k - 1]));
    }
}

/// Pushing a mask and popping it again with nothing drawn in between (or
/// only mask drawing) leaves the batches as they were, when they do not
/// already end in mask drawing: the removal of the empty mask at the end
/// stops at the last batch that draws normally or through a mask.
pub proof fn lemma_pop_keeps_clean_end(masking: Seq<BatchMasking>)
    requires
        masking.len() == 0 || !spec_draws_mask(masking.last()),
    ensures
        spec_empty_mask_start(masking, masking.len() as int) == masking.len(),
        masking.take(spec_empty_mask_start(masking, masking.len() as int)) == masking,
{
    assert(masking.take(masking.len() as int) =~= masking);
}

/// A texture key as a byte sequence (`None` for the solid-colour texture).
pub open spec fn key_view(key: Option<Vec<u8>>) -> Option<Seq<u8>> {
    match key {
        Some(k) => Some(k@),
        None => None,
    }
}

/// A borrowed texture key as a byte sequence.
pub open spec fn key_ref_view(key: Option<&[u8]>) -> Option<Seq<u8>> {
    match key {
        Some(k) => Some(k@),
        None => None,
    }
}

/// What the cache holds for the texture with key `key` (the solid-colour
/// texture for `None`): its texture id and size once it is ready.
pub open spec fn spec_texture_lookup(cache: TextureCache, key: Option<Seq<u8>>) -> Option<(u32, TextureSize)> {
    match key {
        Some(k) => match key_index(cache.keys(), k) {
            Some(i) => spec_ready(cache.states()[i]),
            None => None,
        },
        None => match cache.solid() {
            Some(s) => spec_ready(s),
            None => None,
        },
    }
}

/// Whether the texture with key `key` is ready in the cache.
pub open spec fn spec_texture_ready(cache: TextureCache, key: Option<Seq<u8>>) -> bool {
    spec_texture_lookup(cache, key) is Some
}

/// The rectangle geometry with texture `key` and crop `crop` is drawn
/// with, once the texture is ready.
pub open spec fn spec_batch_uv(cache: TextureCache, key: Option<Seq<u8>>, crop: Option<UvRect>) -> Option<UvRect> {
    match spec_texture_lookup(cache, key) {
        Some((_, size)) => Some(spec_uv_rect(crop, size)),
        None => None,
    }
}

/// Whether new geometry with texture `key` and `num_vertices` vertices can
/// join a batch with texture `texture` that holds `vertices` vertices: the
/// textures are the same, the texture is ready, and the vertices can still
/// be numbered with 16-bit indices.
pub open spec fn spec_usable(
    cache: TextureCache,
    texture: Option<Seq<u8>>,
    vertices: int,
    key: Option<Seq<u8>>,
    num_vertices: u16,
) -> bool {
    &&& texture == key
    &&& spec_texture_ready(cache, key)
    &&& vertices + num_vertices <= 65535
}

/// The usability of each batch, given the batches' textures and vertex
/// counts.
pub open spec fn spec_usable_flags(
    cache: TextureCache,
    textures: Seq<Option<Seq<u8>>>,
    counts: Seq<usize>,
    key: Option<Seq<u8>>,
    num_vertices: u16,
) -> Seq<bool> {
    Seq::new(textures.len(), |i: int| spec_usable(cache, textures[i], counts[i] as int, key, num_vertices))
}

/// Whether the texture with key `key` is ready in the cache.
pub fn texture_ready(cache: &TextureCache, key: Option<&[u8]>) -> (r: bool)
    ensures
        r == spec_texture_ready(*cache, key_ref_view(key)),
{
    cache.lookup(key).is_some()
}

fn same_key(a: &Option<Vec<u8>>, b: Option<&[u8]>) -> (r: bool)
    ensures
        r == (key_view(*a) == key_ref_view(b)),
{
    match (a, b) {
        (Some(x), Some(y)) => bytes_eq(x.as_slice(), y),
        (None, None) => true,
        _ => false,
    }
}

fn copy_key(key: Option<&[u8]>) -> (r: Option<Vec<u8>>)
    ensures
        key_view(r) == key_ref_view(key),
{
    match key {
        Some(k) => Some(vstd::slice::slice_to_vec(k)),
        None => None,
    }
}

/// The batches of one draw pass, in drawing order, each with its masking
/// kind, the key of its texture and the number of vertices it holds.
pub struct BatchPool<B> {
    masking: Vec<BatchMasking>,
    textures: Vec<Option<Vec<u8>>>,
    vertex_counts: Vec<usize>,
    batches: Vec<B>,
}

impl<B> BatchPool<B> {
    /// The masking kind of each batch.
    pub closed spec fn maskings(self) -> Seq<BatchMasking> {
        self.masking@
    }

    /// The texture key of each batch.
    pub closed spec fn textures(self) -> Seq<Option<Seq<u8>>> {
        self.textures@.map_values(|t: Option<Vec<u8>>| key_view(t))
    }

    /// The number of vertices in each batch.
    pub closed spec fn vertex_counts(self) -> Seq<usize> {
        self.vertex_counts@
    }

    /// The batches.
    pub closed spec fn items(self) -> Seq<B> {
        self.batches@
    }

    /// Every batch has a masking kind, a texture and a vertex count.
    pub closed spec fn wf(self) -> bool {
        &&& self.masking@.len() == self.batches@.len()
        &&& self.textures@.len() == self.batches@.len()
        &&& self.vertex_counts@.len() == self.batches@.len()
    }

    /// An empty pool.
    pub fn new() -> (p: Self)
        ensures
            p.wf(),
            p.maskings() == Seq::<BatchMasking>::empty(),
            p.textures() == Seq::<Option<Seq<u8>>>::empty(),
            p.vertex_counts() == Seq::<usize>::empty(),
            p.items() == Seq::<B>::empty(),
    {
        let p = BatchPool { masking: Vec::new(), textures: Vec::new(), vertex_counts: Vec::new(), batches: Vec::new() };
        assert(p.textures() =~= Seq::<Option<Seq<u8>>>::empty());
        p
    }

    /// Number of batches.
    pub fn len(&self) -> (n: usize)
        requires
            self.wf(),
        ensures
            n == self.items().len(),
    {
        self.batches.len()
    }

    /// The masking kind of batch `i`.
    pub fn masking_of(&self, i: usize) -> (m: BatchMasking)
        requires
            self.wf(),
            i < self.items().len(),
        ensures
            m == self.maskings()[i as int],
    {
        self.masking[i]
    }

    /// The texture key of batch `i`.
    pub fn texture_of(&self, i: usize) -> (t: Option<&[u8]>)
        requires
            self.wf(),
            i < self.items().len(),
        ensures
            key_ref_view(t) == self.textures()[i as int],
    {
        match &self.textures[i] {
            Some(k) => Some(k.as_slice()),
            None => None,
        }
    }

    /// The number of vertices in batch `i`.
    pub fn vertex_count(&self, i: usize) -> (n: usize)
        requires
            self.wf(),
            i < self.items().len(),
        ensures
            n == self.vertex_counts()[i as int],
    {
        self.vertex_counts[i]
    }

    /// Batch `i`.
    pub fn get(&self, i: usize) -> (b: &B)
        requires
            self.wf(),
            i < self.items().len(),
        ensures
            *b == self.items()[i as int],
    {
        &self.batches[i]
    }

    /// Add a new, empty batch with texture `texture` at the end, returning
    /// its index.
    pub fn push(&mut self, masking: BatchMasking, texture: Option<&[u8]>, batch: B) -> (i: usize)
        requires
            old(self).wf(),
        ensures
            final(self).wf(),
            i == old(self).items().len(),
            final(self).maskings() == old(self).maskings().push(masking),
            final(self).textures() == old(self).textures().push(key_ref_view(texture)),
            final(self).vertex_counts() == old(self).vertex_counts().push(0),
            final(self).items() == old(self).items().push(batch),
    {
        let i = self.batches.len();
        let ghost old_textures = self.textures();
        self.masking.push(masking);
        self.textures.push(copy_key(texture));
        self.vertex_counts.push(0);
        self.batches.push(batch);
        assert(self.textures() =~= old_textures.push(key_ref_view(texture)));
        i
    }

    /// Record that `n` vertices were added to batch `i`.  Vertices are
    /// numbered with 16-bit indices, so a batch holds at most 65535.
    pub fn add_vertices(&mut self, i: usize, n: u16)
        requires
            old(self).wf(),
            i < old(self).items().len(),
            old(self).vertex_counts()[i as int] + n <= 65535,
        ensures
            final(self).wf(),
            final(self).vertex_counts() == old(self).vertex_counts().update(
                i as int,
                (old(self).vertex_counts()[i as int] + n) as usize,
            ),
            final(self).maskings() == old(self).maskings(),
            final(self).textures() == old(self).textures(),
            final(self).items() == old(self).items(),
    {
        let count = self.vertex_counts[i];
        self.vertex_counts.set(i, count + n as usize);
    }

    /// Whether new geometry with texture `key` and `num_vertices` vertices
    /// can join batch `i`.
    pub fn batch_usable(&self, cache: &TextureCache, i: usize, key: Option<&[u8]>, num_vertices: u16) -> (r: bool)
        requires
            self.wf(),
            i < self.items().len(),
        ensures
            r == spec_usable(*cache, self.textures()[i as int], self.vertex_counts()[i as int] as int, key_ref_view(key), num_vertices),
    {
        let count = self.vertex_counts[i];
        same_key(&self.textures[i], key) && texture_ready(cache, key) && count <= 65535
            && count + (num_vertices as usize) <= 65535
    }

    /// The usability of each batch for new geometry with texture `key` and
    /// `num_vertices` vertices.
    pub fn usable_batches(&self, cache: &TextureCache, key: Option<&[u8]>, num_vertices: u16) -> (r: Vec<bool>)
        requires
            self.wf(),
        ensures
            r@ == spec_usable_flags(*cache, self.textures(), self.vertex_counts(), key_ref_view(key), num_vertices),
    {
        let mut out: Vec<bool> = Vec::new();
        let mut i: usize = 0;
        while i < self.batches.len()
            invariant
                self.wf(),
                i <= self.items().len(),
                out@.len() == i,
                forall|j: int| 0 <= j < i ==> #[trigger] out@[j] == spec_usable(*cache, self.textures()[j], self.vertex_counts()[j] as int, key_ref_view(key), num_vertices),
            decreases self.items().len() - i,
        {
            let u = self.batch_usable(cache, i, key, num_vertices);
            out.push(u);
            i = i + 1;
        }
        assert(out@ =~= spec_usable_flags(*cache, self.textures(), self.vertex_counts(), key_ref_view(key), num_vertices));
        out
    }

    /// The existing batch that new geometry of kind `masking` joins, if any.
    ///
    /// The batches are searched from the most recent backwards.  `usable[i]`
    /// tells whether batch `i` uses the same texture and has room for the
    /// new vertices, `overlaps[i]` whether it covers part of the area being
    /// drawn.  New geometry may not be placed before a batch it overlaps.
    pub fn find_batch(&self, masking: BatchMasking, usable: &[bool], overlaps: &[bool]) -> (r:
        Option<usize>)
        requires
            self.wf(),
            usable@.len() == self.items().len(),
            overlaps@.len() == self.items().len(),
            masking == BatchMasking::AddToMask ==> self.items().len() == 0,
        ensures
            r matches Some(i) ==> spec_find(
                self.maskings(),
                masking,
                usable@,
                overlaps@,
                self.items().len() as int,
            ) == Some(i as int),
            r is None ==> spec_find(
                self.maskings(),
                masking,
                usable@,
                overlaps@,
                self.items().len() as int,
            ) is None,
    {
        let n = self.masking.len();
        let ghost full = spec_find(self.masking@, masking, usable@, overlaps@, n as int);
        let mut i = n;
        while i > 0
            invariant
                i <= n,
                n == self.masking@.len(),
                n == self.batches@.len(),
                usable@.len() == n,
                overlaps@.len() == n,
                masking == BatchMasking::AddToMask ==> n == 0,
                full == spec_find(self.masking@, masking, usable@, overlaps@, n as int),
                full == spec_find(self.masking@, masking, usable@, overlaps@, i as int),
            decreases i,
        {
            let j = i - 1;
            match compat(self.masking[j], masking) {
                BatchCompat::Skip => {
                    i = j;
                    continue ;
                },
                BatchCompat::Stop => {
                    return None;
                },
                BatchCompat::Mergeable => {
                    if usable[j] {
                        return Some(j);
                    }
                },
                BatchCompat::PassOver => {},
            }
            if overlaps[j] {
                return None;
            }
            i = j;
        }
        None
    }

    /// The batch that new geometry of kind `masking` goes into: an existing
    /// one as `find_batch` finds it, or else `new_batch`, added at the end
    /// with texture `texture`.  A new batch is added even when its texture
    /// is not ready (`texture_ready`), but then no batch is given for the
    /// geometry.
    pub fn find_or_add_batch(
        &mut self,
        masking: BatchMasking,
        usable: &[bool],
        overlaps: &[bool],
        texture_ready: bool,
        texture: Option<&[u8]>,
        new_batch: B,
    ) -> (r: Option<usize>)
        requires
            old(self).wf(),
            usable@.len() == old(self).items().len(),
            overlaps@.len() == old(self).items().len(),
            masking == BatchMasking::AddToMask ==> old(self).items().len() == 0,
        ensures
            final(self).wf(),
            ({
                let n = old(self).items().len() as int;
                match spec_find(old(self).maskings(), masking, usable@, overlaps@, n) {
                    Some(i) => {
                        &&& r == Some(i as usize)
                        &&& *final(self) == *old(self)
                    },
                    None => {
                        &&& r == (if texture_ready { Some(n as usize) } else { None })
                        &&& final(self).maskings() == old(self).maskings().push(masking)
                        &&& final(self).textures() == old(self).textures().push(key_ref_view(texture))
                        &&& final(self).vertex_counts() == old(self).vertex_counts().push(0)
                        &&& final(self).items() == old(self).items().push(new_batch)
                    },
                }
            }),
    {
        match self.find_batch(masking, usable, overlaps) {
            Some(i) => Some(i),
            None => {
                let i = self.push(masking, texture, new_batch);
                if texture_ready {
                    Some(i)
                } else {
                    None
                }
            },
        }
    }

    /// The batch that new geometry of kind `masking`, with texture `key`,
    /// crop `crop` and `num_vertices` vertices, goes into, with the
    /// rectangle to draw the texture with.  `overlaps[i]` says whether batch
    /// `i` covers part of the new geometry's area.  The batches are searched
    /// from the most recent backwards for one that uses the same, ready
    /// texture and has room for the vertices; failing that, `new_batch` is
    /// added for the texture and given only when the texture is ready.
    pub fn find_batch_for(
        &mut self,
        cache: &TextureCache,
        key: Option<&[u8]>,
        crop: Option<UvRect>,
        num_vertices: u16,
        masking: BatchMasking,
        overlaps: &[bool],
        new_batch: B,
    ) -> (r: Option<(usize, UvRect)>)
        requires
            old(self).wf(),
            overlaps@.len() == old(self).items().len(),
            masking == BatchMasking::AddToMask ==> old(self).items().len() == 0,
        ensures
            final(self).wf(),
            ({
                let n = old(self).items().len() as int;
                let kv = key_ref_view(key);
                let usable = spec_usable_flags(*cache, old(self).textures(), old(self).vertex_counts(), kv, num_vertices);
                let uv = spec_batch_uv(*cache, kv, crop);
                match spec_find(old(self).maskings(), masking, usable, overlaps@, n) {
                    Some(i) => {
                        &&& old(self).textures()[i] == kv
                        &&& old(self).vertex_counts()[i] + num_vertices <= 65535
                        &&& uv is Some
                        &&& r == Some((i as usize, uv.unwrap()))
                        &&& *final(self) == *old(self)
                    },
                    None => {
                        &&& r == (match uv {
                            Some(rect) => Some((n as usize, rect)),
                            None => None,
                        })
                        &&& final(self).maskings() == old(self).maskings().push(masking)
                        &&& final(self).textures() == old(self).textures().push(kv)
                        &&& final(self).vertex_counts() == old(self).vertex_counts().push(0)
                        &&& final(self).items() == old(self).items().push(new_batch)
                    },
                }
            }),
            r is Some <==> spec_texture_ready(*cache, key_ref_view(key)),
    {
        let usable = self.usable_batches(cache, key, num_vertices);
        let ready = texture_ready(cache, key);
        proof {
            lemma_found_is_usable(
                self.maskings(),
                masking,
                usable@,
                overlaps@,
                self.items().len() as int,
            );
        }
        match self.find_or_add_batch(masking, usable.as_slice(), overlaps, ready, key, new_batch) {
            Some(i) => match cache.lookup(key) {
                Some((_, size)) => Some((i, get_uv_rect(crop, size))),
                None => None,
            },
            None => None,
        }
    }

    /// Remove the batches that draw into a mask at the end of the list: a
    /// mask that nothing was drawn through.
    pub fn pop_empty_mask(&mut self)
        requires
            old(self).wf(),
        ensures
            final(self).wf(),
            ({
                let k = spec_empty_mask_start(old(self).maskings(), old(self).maskings().len() as int);
                &&& final(self).maskings() == old(self).maskings().take(k)
                &&& final(self).textures() == old(self).textures().take(k)
                &&& final(self).vertex_counts() == old(self).vertex_counts().take(k)
                &&& final(self).items() == old(self).items().take(k)
            }),
    {
        let ghost old_textures = self.textures();
        let mut remove_after = self.masking.len();
        let ghost n = self.masking@.len() as int;
        while remove_after > 0
            invariant
                remove_after <= n,
                n == self.masking@.len(),
                spec_empty_mask_start(self.masking@, n) == spec_empty_mask_start(
                    self.masking@,
                    remove_after as int,
                ),
                remove_after < n ==> spec_draws_mask(self.masking@[remove_after as int]),
            ensures
                remove_after == spec_empty_mask_start(self.masking@, n),
            decreases remove_after,
        {
            let m = self.masking[remove_after - 1];
            match m {
                BatchMasking::Unmasked | BatchMasking::Masked => break ,
                BatchMasking::NewMask | BatchMasking::AddToMask => {
                    remove_after = remove_after - 1;
                },
            }
        }
        self.masking.truncate(remove_after);
        self.textures.truncate(remove_after);
        self.vertex_counts.truncate(remove_after);
        self.batches.truncate(remove_after);
        assert(self.textures() =~= old_textures.take(remove_after as int));
    }

    /// Turn each mask-clearing batch that directly follows another
    /// mask-clearing batch into one that adds to the mask.
    pub fn reduce_mask_clears(&mut self)
        requires
            old(self).wf(),
        ensures
            final(self).wf(),
            final(self).maskings() == spec_reduced(old(self).maskings()),
            final(self).textures() == old(self).textures(),
            final(self).vertex_counts() == old(self).vertex_counts(),
            final(self).items() == old(self).items(),
    {
        let ghost s = self.masking@;
        let n = self.masking.len();
        let mut i = n;
        while i > 1
            invariant
                1 <= i <= n || (i == 0 && n == 0) || (i <= 1),
                i <= n,
                n == s.len(),
                self.masking@.len() == n,
                self.batches@ == old(self).batches@,
                self.textures@ == old(self).textures@,
                self.vertex_counts@ == old(self).vertex_counts@,
                s == old(self).masking@,
                forall|j: int| 0 <= j < i ==> #[trigger] self.masking@[j] == s[j],
                forall|j: int| i <= j < n ==> #[trigger] self.masking@[j] == spec_reduced(s)[j],
            decreases i,
        {
            let j = i - 1;
            if self.masking[j] == BatchMasking::NewMask && self.masking[j - 1]
                == BatchMasking::NewMask {
                self.masking.set(j, BatchMasking::AddToMask);
            }
            i = j;
        }
        assert(self.masking@ =~= spec_reduced(s));
    }
}

/// The stage of drawing: a first pass that only gathers the textures in
/// use, or the main pass that fills batches.
pub enum DrawPass<B> {
    /// Gathering textures; masking and batches are not tracked.
    GatherTextures,
    /// Drawing: the current masking kind and the batches so far.
    Main {
        /// Masking kind of geometry drawn now.
        masking: BatchMasking,
        /// The batches.
        batch_pool: BatchPool<B>,
    },
}

impl<B> DrawPass<B> {
    /// The state of a pass is consistent.
    pub open spec fn wf(self) -> bool {
        self matches DrawPass::Main { batch_pool, .. } ==> batch_pool.wf()
    }

    /// The start of the main pass: unmasked, with no batches.
    pub fn main_draw_pass() -> (p: Self)
        ensures
            p.wf(),
            p matches DrawPass::Main { masking, batch_pool } && masking == BatchMasking::Unmasked
                && batch_pool.items().len() == 0,
    {
        DrawPass::Main { masking: BatchMasking::Unmasked, batch_pool: BatchPool::new() }
    }

    /// Begin drawing a mask.  Only one mask may be pushed at a time.
    pub fn push_mask(&mut self)
        requires
            old(self).wf(),
            *old(self) matches DrawPass::Main { masking, .. } ==> masking
                == BatchMasking::Unmasked,
        ensures
            final(self).wf(),
            match *old(self) {
                DrawPass::GatherTextures => *final(self) is GatherTextures,
                DrawPass::Main { batch_pool, .. } => *final(self) == DrawPass::Main {
                    masking: BatchMasking::NewMask,
                    batch_pool,
                },
            },
    {
        match self {
            DrawPass::GatherTextures => {},
            DrawPass::Main { masking, .. } => {
                *masking = BatchMasking::NewMask;
            },
        }
    }

    /// Finish drawing the mask and draw through it from now on.
    pub fn start_masking(&mut self)
        requires
            old(self).wf(),
            *old(self) matches DrawPass::Main { masking, .. } ==> masking
                != BatchMasking::Unmasked,
        ensures
            final(self).wf(),
            match *old(self) {
                DrawPass::GatherTextures => *final(self) is GatherTextures,
                DrawPass::Main { batch_pool, .. } => *final(self) == DrawPass::Main {
                    masking: BatchMasking::Masked,
                    batch_pool,
                },
            },
    {
        match self {
            DrawPass::GatherTextures => {},
            DrawPass::Main { masking, .. } => {
                *masking = BatchMasking::Masked;
            },
        }
    }

    /// Stop masking: draw unmasked again, and drop a mask that nothing was
    /// drawn through.
    pub fn pop_mask(&mut self)
        requires
            old(self).wf(),
            *old(self) matches DrawPass::Main { masking, .. } ==> masking
                != BatchMasking::Unmasked,
        ensures
            final(self).wf(),
            match *old(self) {
                DrawPass::GatherTextures => *final(self) is GatherTextures,
                DrawPass::Main { batch_pool: old_pool, .. } => match *final(self) {
                    DrawPass::Main { masking, batch_pool } => {
                        let k = spec_empty_mask_start(
                            old_pool.maskings(),
                            old_pool.maskings().len() as int,
                        );
                        &&& masking == BatchMasking::Unmasked
                        &&& batch_pool.maskings() == old_pool.maskings().take(k)
                        &&& batch_pool.textures() == old_pool.textures().take(k)
                        &&& batch_pool.vertex_counts() == old_pool.vertex_counts().take(k)
                        &&& batch_pool.items() == old_pool.items().take(k)
                    },
                    DrawPass::GatherTextures => false,
                },
            },
    {
        match self {
            DrawPass::GatherTextures => {},
            DrawPass::Main { masking, batch_pool } => {
                *masking = BatchMasking::Unmasked;
                batch_pool.pop_empty_mask();
            },
        }
    }
}

} // verus!
