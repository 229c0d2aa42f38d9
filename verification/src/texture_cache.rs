//! The cache of GPU textures: one entry per texture key, loading when
//! registered, ready (with its texture id and size) or failed once its
//! populator has run, and the solid-colour texture beside them.
//!
//! A population pass is driven from outside: the caller creates texture
//! ids and runs the populators (OpenGL work), and this module decides which
//! entry is loaded next, records the outcome, and recycles the id of a
//! failed load for the next one.

use vstd::prelude::*;
use crate::texture::{TextureSize, is_solid_color_size};

verus! {

/// The state of a cached texture.
#[derive(Clone, Copy, Debug)]
pub enum TextureState<S> {
    /// Registered; its populator has not run.
    Loading,
    /// Loaded into texture `id`.
    Ready { id: u32, size: S },
    /// Its populator failed.
    Failed,
}

/// Whether two byte strings are equal.
pub(crate) fn bytes_eq(a: &[u8], b: &[u8]) -> (r: bool)
    ensures
        r == (a@ == b@),
{
    if a.len() != b.len() {
        return false;
    }
    let mut i: usize = 0;
    while i < a.len()
        invariant
            a@.len() == b@.len(),
            i <= a@.len(),
            forall|j: int| 0 <= j < i ==> a@[j] == b@[j],
        decreases a@.len() - i,
    {
        if a[i] != b[i] {
            return false;
        }
        i = i + 1;
    }
    assert(a@ =~= b@);
    true
}

/// The texture cache.
pub struct TextureCache {
    keys: Vec<Vec<u8>>,
    states: Vec<TextureState<TextureSize>>,
    solid_color: Option<TextureState<TextureSize>>,
}

/// The keys, as byte sequences.
pub open spec fn key_views(keys: Seq<Vec<u8>>) -> Seq<Seq<u8>> {
    keys.map_values(|k: Vec<u8>| k@)
}

/// No key occurs twice.
pub open spec fn keys_unique(keys: Seq<Seq<u8>>) -> bool {
    forall|i: int, j: int| 0 <= i < keys.len() && 0 <= j < keys.len() && i != j ==> keys[i] != keys[j]
}

/// Where `key` is among the keys, if it is.
pub open spec fn key_index(keys: Seq<Seq<u8>>, key: Seq<u8>) -> Option<int> {
    if exists|i: int| 0 <= i < keys.len() && keys[i] == key {
        Some(choose|i: int| 0 <= i < keys.len() && keys[i] == key)
    } else {
        None
    }
}

/// What a lookup finds in a state: the id and size of a ready texture.
pub open spec fn spec_ready<S>(state: TextureState<S>) -> Option<(u32, S)> {
    match state {
        TextureState::Ready { id, size } => Some((id, size)),
        _ => None,
    }
}

/// A population pass in progress: the entries before `next` have been
/// dealt with, and the id of a failed load may be waiting for reuse.
pub struct PopulatePass {
    next: usize,
    spare_id: Option<u32>,
}

impl PopulatePass {
    /// The first entry not yet dealt with.
    pub closed spec fn next(&self) -> int {
        self.next as int
    }

    /// The texture id waiting for reuse.
    pub closed spec fn spare(&self) -> Option<u32> {
        self.spare_id
    }

    /// The texture id for the next load, if one is waiting for reuse; when
    /// there is none, a new texture id is created.
    pub fn take_texture_id(&mut self) -> (r: Option<u32>)
        ensures
            r == old(self).spare(),
            final(self).spare() is None,
            final(self).next() == old(self).next(),
    {
        let r = self.spare_id;
        self.spare_id = None;
        r
    }
}

impl TextureCache {
    #[verifier::type_invariant]
    spec fn inv(self) -> bool {
        &&& self.keys@.len() == self.states@.len()
        &&& keys_unique(key_views(self.keys@))
    }

    /// The keys, in the order they were registered.
    pub closed spec fn keys(&self) -> Seq<Seq<u8>> {
        key_views(self.keys@)
    }

    /// The state of each key.
    pub closed spec fn states(&self) -> Seq<TextureState<TextureSize>> {
        self.states@
    }

    /// The state of the solid-colour texture, once it exists.
    pub closed spec fn solid(&self) -> Option<TextureState<TextureSize>> {
        self.solid_color
    }

    /// An empty cache.
    pub fn new() -> (r: Self)
        ensures
            r.keys() == Seq::<Seq<u8>>::empty(),
            r.states() == Seq::<TextureState<TextureSize>>::empty(),
            r.solid() is None,
    {
        let r = TextureCache { keys: Vec::new(), states: Vec::new(), solid_color: None };
        assert(r.keys() =~= Seq::<Seq<u8>>::empty());
        r
    }

    fn find(&self, key: &[u8]) -> (r: Option<usize>)
        ensures
            r matches Some(i) ==> key_index(self.keys(), key@) == Some(i as int) && i < self.keys().len(),
            r is None ==> key_index(self.keys(), key@) is None,
    {
        proof {
            use_type_invariant(self);
        }
        let mut i: usize = 0;
        while i < self.keys.len()
            invariant
                i <= self.keys@.len(),
                keys_unique(key_views(self.keys@)),
                forall|j: int| 0 <= j < i ==> key_views(self.keys@)[j] != key@,
            decreases self.keys@.len() - i,
        {
            if bytes_eq(self.keys[i].as_slice(), key) {
                assert(key_views(self.keys@)[i as int] == key@);
                assert(key_index(self.keys(), key@) == Some(i as int));
                return Some(i);
            }
            i = i + 1;
        }
        assert(key_index(self.keys(), key@) is None);
        None
    }

    /// Register the texture with key `key`: a new key starts loading, a
    /// known one keeps its state.
    pub fn register(&mut self, key: &[u8])
        ensures
            key_index(old(self).keys(), key@) is Some ==> final(self).keys() == old(self).keys()
                && final(self).states() == old(self).states(),
            key_index(old(self).keys(), key@) is None ==> final(self).keys() == old(self).keys().push(key@)
                && final(self).states() == old(self).states().push(TextureState::Loading),
            final(self).solid() == old(self).solid(),
    {
        proof {
            use_type_invariant(&*self);
        }
        if self.find(key).is_none() {
            let ghost old_keys = self.keys();
            let owned = vstd::slice::slice_to_vec(key);
            let mut taken = TextureCache::new();
            std::mem::swap(&mut taken, self);
            proof {
                use_type_invariant(&taken);
            }
            let TextureCache { mut keys, mut states, solid_color } = taken;
            keys.push(owned);
            states.push(TextureState::Loading);
            proof {
                assert(key_views(keys@) =~= old_keys.push(key@));
                assert forall|i: int, j: int|
                    0 <= i < keys@.len() && 0 <= j < keys@.len() && i != j implies key_views(keys@)[i]
                    != key_views(keys@)[j] by {
                    if i < old_keys.len() && j < old_keys.len() {
                        assert(key_views(keys@)[i] == old_keys[i]);
                        assert(key_views(keys@)[j] == old_keys[j]);
                    } else if i < old_keys.len() {
                        assert(key_views(keys@)[i] == old_keys[i]);
                        assert(old_keys[i] != key@);
                    } else {
                        assert(key_views(keys@)[j] == old_keys[j]);
                        assert(old_keys[j] != key@);
                    }
                }
            }
            *self = TextureCache { keys, states, solid_color };
        }
    }

    fn ready_of(state: &TextureState<TextureSize>) -> (r: Option<(u32, &TextureSize)>)
        ensures
            r matches Some((id, size)) ==> spec_ready(*state) == Some((id, *size)),
            r is None ==> spec_ready(*state) is None,
    {
        match state {
            TextureState::Ready { id, size } => Some((*id, size)),
            _ => None,
        }
    }

    /// The texture id and size of the texture with key `key`, or of the
    /// solid-colour texture when `key` is `None`, if it is ready.
    pub fn lookup(&self, key: Option<&[u8]>) -> (r: Option<(u32, &TextureSize)>)
        ensures
            r matches Some((id, size)) ==> (match key {
                Some(k) => key_index(self.keys(), k@) matches Some(i) && spec_ready(self.states()[i])
                    == Some((id, *size)),
                None => self.solid() matches Some(s) && spec_ready(s) == Some((id, *size)),
            }),
            r is None ==> (match key {
                Some(k) => key_index(self.keys(), k@) matches Some(i) ==> spec_ready(
                    self.states()[i],
                ) is None,
                None => self.solid() matches Some(s) ==> spec_ready(s) is None,
            }),
    {
        proof {
            use_type_invariant(self);
        }
        match key {
            Some(k) => match self.find(k) {
                Some(i) => {
                    Self::ready_of(&self.states[i])
                },
                None => None,
            },
            None => match &self.solid_color {
                Some(s) => Self::ready_of(s),
                None => None,
            },
        }
    }

    /// The key of entry `i`, to find its populator.
    pub fn key_at(&self, i: usize) -> (r: &[u8])
        requires
            i < self.keys().len(),
        ensures
            r@ == self.keys()[i as int],
    {
        proof {
            use_type_invariant(self);
        }
        self.keys[i].as_slice()
    }

    /// Whether the pass has dealt with every entry before its position:
    /// none of them is still loading.
    pub open spec fn pass_consistent(&self, pass: &PopulatePass) -> bool {
        &&& 0 <= pass.next() <= self.states().len()
        &&& forall|i: int| 0 <= i < pass.next() ==> !(#[trigger] self.states()[i] is Loading)
    }

    /// Start a population pass.
    pub fn start_populating(&self) -> (pass: PopulatePass)
        ensures
            self.pass_consistent(&pass),
            pass.next() == 0,
            pass.spare() is None,
    {
        PopulatePass { next: 0, spare_id: None }
    }

    /// The next entry to load: the first still loading from the pass's
    /// position on, or `None` when the pass is done.
    pub fn next_loading(&self, pass: &mut PopulatePass) -> (r: Option<usize>)
        requires
            self.pass_consistent(&*old(pass)),
        ensures
            final(pass).spare() == old(pass).spare(),
            r matches Some(i) ==> {
                &&& old(pass).next() <= i < self.states().len()
                &&& self.states()[i as int] is Loading
                &&& final(pass).next() == i
                &&& forall|j: int| old(pass).next() <= j < i ==> !(#[trigger] self.states()[j] is Loading)
            },
            r is None ==> final(pass).next() == self.states().len(),
            self.pass_consistent(&*final(pass)),
    {
        proof {
            use_type_invariant(self);
        }
        let mut i = pass.next;
        while i < self.states.len()
            invariant
                *pass == *old(pass),
                old(pass).next() <= i <= self.states@.len(),
                forall|j: int| 0 <= j < i ==> !(#[trigger] self.states@[j] is Loading),
            decreases self.states@.len() - i,
        {
            if let TextureState::Loading = self.states[i] {
                pass.next = i;
                return Some(i);
            }
            i = i + 1;
        }
        pass.next = i;
        None
    }

    /// Record the outcome of loading entry `i` into texture `id`: ready
    /// with its size, or failed, when `id` is kept for the next load.
    pub fn finish_loading(&mut self, pass: &mut PopulatePass, i: usize, id: u32, result: Option<TextureSize>)
        requires
            old(self).pass_consistent(&*old(pass)),
            i == old(pass).next(),
            i < old(self).states().len(),
            old(self).states()[i as int] is Loading,
            old(pass).spare() is None,
        ensures
            final(self).keys() == old(self).keys(),
            final(self).solid() == old(self).solid(),
            final(self).states() == old(self).states().update(
                i as int,
                match result {
                    Some(size) => TextureState::Ready { id, size },
                    None => TextureState::Failed,
                },
            ),
            final(pass).next() == i + 1,
            final(pass).spare() == (if result is Some {
                None
            } else {
                Some(id)
            }),
            final(self).pass_consistent(&*final(pass)),
    {
        proof {
            use_type_invariant(&*self);
        }
        let len = self.states.len();
        assert(i < len);
        let next = i + 1;
        let new_state = match result {
            Some(size) => TextureState::Ready { id, size },
            None => {
                pass.spare_id = Some(id);
                TextureState::Failed
            },
        };
        let mut taken = TextureCache::new();
        std::mem::swap(&mut taken, self);
        proof {
            use_type_invariant(&taken);
        }
        let TextureCache { keys, mut states, solid_color } = taken;
        states.set(i, new_state);
        *self = TextureCache { keys, states, solid_color };
        pass.next = next;
    }

    /// Whether the solid-colour texture still has to be made.
    pub fn needs_solid_color(&self) -> (r: bool)
        ensures
            r == self.solid() is None,
    {
        self.solid_color.is_none()
    }

    /// Record the solid-colour texture, made in texture `id`: a 2x2
    /// texture whose default rectangle is the texel at (0, 0).
    pub fn set_solid_color(&mut self, id: u32)
        requires
            old(self).solid() is None,
        ensures
            final(self).keys() == old(self).keys(),
            final(self).states() == old(self).states(),
            final(self).solid() matches Some(TextureState::Ready { id: i, size }) && i == id
                && is_solid_color_size(size),
    {
        proof {
            use_type_invariant(&*self);
        }
        let size = TextureSize::solid_color();
        self.solid_color = Some(TextureState::Ready { id, size });
    }
}

/// A finished pass leaves no texture loading; a load that fails hands its
/// texture id to the next load, and one that succeeds leaves no id over.
pub proof fn lemma_finished_pass(cache: TextureCache, pass: PopulatePass)
    requires
        cache.pass_consistent(&pass),
        pass.next() == cache.states().len(),
    ensures
        forall|i: int| 0 <= i < cache.states().len() ==> !(#[trigger] cache.states()[i] is Loading),
{
}

} // verus!
