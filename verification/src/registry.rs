//! Registries of the ids given to background tasks (page subscriptions and
//! background crawls). The ids are kept in an `IndexMap`, so they have an order:
//! a new id is one more than the highest id registered, and removing an id
//! moves the last id into its place.
use indexmap::IndexMap;
use vstd::prelude::*;

verus! {

#[verifier::external_type_specification]
#[verifier::external_body]
#[verifier::reject_recursive_types(K)]
#[verifier::reject_recursive_types(V)]
#[verifier::reject_recursive_types(S)]
pub struct ExIndexMap<K, V, S>(IndexMap<K, V, S>);

/// The keys of an id map, in the map's order.
pub uninterp spec fn registry_keys(m: IndexMap<u32, ()>) -> Seq<u32>;

/// `IndexMap::new`: an empty map.
#[verifier::external_body]
fn index_map_new() -> (m: IndexMap<u32, ()>)
    ensures
        registry_keys(m) == Seq::<u32>::empty(),
{
    IndexMap::new()
}

/// `IndexMap::len`: the number of keys.
#[verifier::external_body]
fn index_map_len(m: &IndexMap<u32, ()>) -> (n: usize)
    ensures
        n == registry_keys(*m).len(),
{
    m.len()
}

/// `IndexMap::get_index`: the key of the entry at a position.
#[verifier::external_body]
fn index_map_key_at(m: &IndexMap<u32, ()>, i: usize) -> (res: Option<u32>)
    ensures
        i < registry_keys(*m).len() ==> res == Some(registry_keys(*m)[i as int]),
        i >= registry_keys(*m).len() ==> res is None,
{
    m.get_index(i).map(|entry| *entry.0)
}

/// `IndexMap::get`: present exactly when the key is in the map.
#[verifier::external_body]
fn index_map_get(m: &IndexMap<u32, ()>, key: u32) -> (res: Option<&()>)
    ensures
        res is Some <==> registry_keys(*m).contains(key),
{
    m.get(&key)
}

/// `IndexMap::insert`: a new key goes last; a key already present keeps its
/// place (its value is replaced and the old one returned).
#[verifier::external_body]
fn index_map_insert(m: &mut IndexMap<u32, ()>, key: u32) -> (res: Option<()>)
    ensures
        registry_keys(*old(m)).contains(key) ==> registry_keys(*final(m)) == registry_keys(*old(m))
            && res is Some,
        !registry_keys(*old(m)).contains(key) ==> registry_keys(*final(m)) == registry_keys(
            *old(m),
        ).push(key) && res is None,
{
    m.insert(key, ())
}

/// `IndexMap::swap_remove_entry`: removes the key, moving the last key into
/// its position.
#[verifier::external_body]
fn index_map_swap_remove_entry(m: &mut IndexMap<u32, ()>, key: u32) -> (res: Option<(u32, ())>)
    ensures
        !registry_keys(*old(m)).contains(key) ==> res is None && registry_keys(*final(m))
            == registry_keys(*old(m)),
        forall|i: int|
            0 <= i < registry_keys(*old(m)).len() && #[trigger] registry_keys(*old(m))[i] == key
                ==> res == Some((key, ())) && registry_keys(*final(m)) == registry_keys(
                *old(m),
            ).update(i, registry_keys(*old(m)).last()).drop_last(),
{
    m.swap_remove_entry(&key)
}

/// `IndexMap::drain(..)`: hands out every key in order and empties the map.
#[verifier::external_body]
fn index_map_drain_all(m: &mut IndexMap<u32, ()>) -> (keys: Vec<u32>)
    ensures
        keys@ == registry_keys(*old(m)),
        registry_keys(*final(m)) == Seq::<u32>::empty(),
{
    m.drain(..).map(|entry| entry.0).collect()
}

/// The highest of the ids, or 0 when there is none.
pub open spec fn highest_id(ids: Seq<u32>) -> u32
    decreases ids.len(),
{
    if ids.len() == 0 {
        0
    } else {
        let rest = highest_id(ids.drop_last());
        if ids.last() > rest {
            ids.last()
        } else {
            rest
        }
    }
}

/// No id is above `highest_id`, and a registry that is not empty holds it.
pub proof fn lemma_highest_id(ids: Seq<u32>)
    ensures
        forall|k: int| 0 <= k < ids.len() ==> ids[k] <= highest_id(ids),
        ids.len() > 0 ==> ids.contains(highest_id(ids)),
    decreases ids.len(),
{
    if ids.len() > 0 {
        let rest = ids.drop_last();
        lemma_highest_id(rest);
        assert forall|k: int| 0 <= k < ids.len() implies ids[k] <= highest_id(ids) by {
            if k < ids.len() - 1 {
                assert(ids[k] == rest[k]);
            }
        }
        if ids.last() > highest_id(rest) || rest.len() == 0 {
            assert(ids[ids.len() - 1] == ids.last());
        } else {
            let k = choose|k: int| 0 <= k < rest.len() && rest[k] == highest_id(rest);
            assert(ids[k] == rest[k]);
        }
    }
}

/// The id a new task gets: one more than the highest id registered, or 0
/// when there is none.
pub open spec fn next_handle_id(ids: Seq<u32>) -> u32 {
    if ids.len() == 0 {
        0
    } else {
        (highest_id(ids) + 1) as u32
    }
}

/// Whether a new id can be computed without overflowing.
pub open spec fn can_allocate(ids: Seq<u32>) -> bool {
    ids.len() > 0 ==> highest_id(ids) < u32::MAX
}

/// The ids with `id` registered: unchanged when it is there already,
/// otherwise `id` goes last.
pub open spec fn with_id(ids: Seq<u32>, id: u32) -> Seq<u32> {
    if ids.contains(id) {
        ids
    } else {
        ids.push(id)
    }
}

/// The ids after removing `id`: the last id takes its position.
pub open spec fn without_id(ids: Seq<u32>, id: u32) -> Seq<u32> {
    if ids.contains(id) {
        let i = choose|i: int| 0 <= i < ids.len() && ids[i] == id;
        ids.update(i, ids.last()).drop_last()
    } else {
        ids
    }
}

/// The ids of running tasks, in registration order.
pub struct Handles {
    map: IndexMap<u32, ()>,
}

impl View for Handles {
    type V = Seq<u32>;

    closed spec fn view(&self) -> Seq<u32> {
        registry_keys(self.map)
    }
}

impl Handles {
    /// No id occurs twice.
    #[verifier::type_invariant]
    spec fn wf(&self) -> bool {
        self@.no_duplicates()
    }

    /// An empty registry.
    pub fn new() -> (h: Handles)
        ensures
            h@ == Seq::<u32>::empty(),
    {
        Handles { map: index_map_new() }
    }

    /// The number of registered ids.
    pub fn len(&self) -> (n: usize)
        ensures
            n == self@.len(),
            self@.no_duplicates(),
    {
        proof { use_type_invariant(self); }
        index_map_len(&self.map)
    }

    /// Whether `id` is registered.
    pub fn contains(&self, id: u32) -> (res: bool)
        ensures
            res == self@.contains(id),
    {
        index_map_get(&self.map, id).is_some()
    }

    /// The highest registered id, or 0 when there is none.
    fn highest(&self) -> (id: u32)
        ensures
            id == highest_id(self@),
    {
        let n = index_map_len(&self.map);
        let mut best: u32 = 0;
        let mut i: usize = 0;
        while i < n
            invariant
                n == self@.len(),
                i <= n,
                best == highest_id(self@.subrange(0, i as int)),
            decreases n - i,
        {
            let key = index_map_key_at(&self.map, i).unwrap();
            let ghost before = self@.subrange(0, i as int);
            assert(self@.subrange(0, i + 1).drop_last() =~= before);
            assert(self@.subrange(0, i + 1).last() == key);
            if key > best {
                best = key;
            }
            i = i + 1;
        }
        assert(self@.subrange(0, n as int) =~= self@);
        best
    }

    /// Whether the next id can be computed (the highest id is not
    /// `u32::MAX`).
    pub fn can_allocate_next(&self) -> (res: bool)
        ensures
            res == can_allocate(self@),
    {
        let n = index_map_len(&self.map);
        n == 0 || self.highest() < u32::MAX
    }

    /// The id the next task gets: above every registered id.
    pub fn next_id(&self) -> (id: u32)
        requires
            can_allocate(self@),
        ensures
            id == next_handle_id(self@),
            forall|k: int| 0 <= k < self@.len() ==> self@[k] < id,
    {
        proof {
            lemma_highest_id(self@);
        }
        let n = index_map_len(&self.map);
        if n == 0 {
            0
        } else {
            self.highest() + 1
        }
    }

    /// Registers `id`.
    pub fn insert(&mut self, id: u32)
        ensures
            final(self)@ == with_id(old(self)@, id),
            final(self)@.no_duplicates(),
    {
        proof { use_type_invariant(&*self); }
        let mut map = index_map_new();
        std::mem::swap(&mut map, &mut self.map);
        index_map_insert(&mut map, id);
        proof {
            if !old(self)@.contains(id) {
                let s = old(self)@;
                assert forall|a: int, b: int|
                    0 <= a < b < s.push(id).len() implies s.push(id)[a] != s.push(id)[b] by {
                    if b == s.len() {
                        assert(s[a] == s.push(id)[a]);
                    }
                }
            }
        }
        self.map = map;
    }

    /// Unregisters `id`; tells whether it was registered.
    pub fn remove(&mut self, id: u32) -> (found: bool)
        ensures
            found == old(self)@.contains(id),
            !final(self)@.contains(id),
            final(self)@.no_duplicates(),
            final(self)@ == without_id(old(self)@, id),
    {
        proof { use_type_invariant(&*self); }
        let ghost s = old(self)@;
        let found = self.contains(id);
        if found {
            let ghost i = choose|i: int| 0 <= i < s.len() && s[i] == id;
            let mut map = index_map_new();
            std::mem::swap(&mut map, &mut self.map);
            index_map_swap_remove_entry(&mut map, id);
            proof {
                let t = s.update(i, s.last()).drop_last();
                assert(registry_keys(map) == t);
                assert forall|a: int, b: int| 0 <= a < b < t.len() implies t[a] != t[b] by {
                    if a == i {
                        assert(t[a] == s[s.len() - 1]);
                        assert(t[b] == s[b]);
                    } else if b == i {
                        assert(t[b] == s[s.len() - 1]);
                        assert(t[a] == s[a]);
                    } else {
                        assert(t[a] == s[a]);
                        assert(t[b] == s[b]);
                    }
                }
            }
            self.map = map;
        }
        found
    }

    /// Unregisters every id and hands them out in order.
    pub fn drain(&mut self) -> (ids: Vec<u32>)
        ensures
            ids@ == old(self)@,
            final(self)@ == Seq::<u32>::empty(),
    {
        let mut map = index_map_new();
        std::mem::swap(&mut map, &mut self.map);
        let ids = index_map_drain_all(&mut map);
        self.map = map;
        ids
    }
}

} // verus!
