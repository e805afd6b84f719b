//! The name-to-identity cache of groups that one import batch threads
//! through its loop, so that each group name is inserted once.
//!
//! It holds its entries in a `Vec` with distinct names rather than in a
//! `HashMap<String, i64>`: vstd specifies a hash map's contents only for
//! keys whose hashing it models, which `String` is not, so lookups in such a
//! map could not be tied to the cache's contents. An import batch holds a
//! few hundred group names at most, so the linear lookup costs little.
use vstd::prelude::*;
use vstd::string::StringExecFns;

verus! {

pub struct GroupCache {
    entries: Vec<(String, i64)>,
}

impl View for GroupCache {
    type V = Map<Seq<char>, i64>;

    closed spec fn view(&self) -> Map<Seq<char>, i64> {
        Map::new(
            |k: Seq<char>| exists|i: int| 0 <= i < self.entries@.len() && self.entries@[i].0@ == k,
            |k: Seq<char>|
                self.entries@[choose|i: int|
                    0 <= i < self.entries@.len() && self.entries@[i].0@ == k].1,
        )
    }
}

impl GroupCache {
    /// Each name is held once.
    pub closed spec fn wf(&self) -> bool {
        forall|i: int, j: int|
            0 <= i < self.entries@.len() && 0 <= j < self.entries@.len() && i != j
                ==> #[trigger] self.entries@[i].0@ != #[trigger] self.entries@[j].0@
    }

    pub fn new() -> (r: GroupCache)
        ensures
            r.wf(),
            r@ == Map::<Seq<char>, i64>::empty(),
    {
        let r = GroupCache { entries: Vec::new() };
        assert(r@ =~= Map::<Seq<char>, i64>::empty());
        r
    }

    /// The identity cached for a group name, if any.
    pub fn get(&self, name: &str) -> (r: Option<i64>)
        requires
            self.wf(),
        ensures
            r == (if self@.contains_key(name@) {
                Some(self@[name@])
            } else {
                None
            }),
    {
        let key = String::from_str(name);
        let mut i: usize = 0;
        while i < self.entries.len()
            invariant
                i <= self.entries@.len(),
                key@ == name@,
                self.wf(),
                forall|j: int| 0 <= j < i ==> self.entries@[j].0@ != name@,
            decreases self.entries.len() - i,
        {
            if self.entries[i].0 == key {
                assert(self.entries@[i as int].0@ == name@);
                assert(self@.contains_key(name@));
                let ghost c = choose|j: int|
                    0 <= j < self.entries@.len() && self.entries@[j].0@ == name@;
                proof {
                    assert(0 <= c < self.entries@.len() && self.entries@[c].0@ == name@);
                    if c != i {
                        assert(self.entries@[c].0@ != self.entries@[i as int].0@);
                    }
                }
                return Some(self.entries[i].1);
            }
            i = i + 1;
        }
        assert(!self@.contains_key(name@));
        None
    }

    /// Records the identity of a group name not yet cached.
    pub fn insert(&mut self, name: String, id: i64)
        requires
            old(self).wf(),
            !old(self)@.contains_key(name@),
        ensures
            final(self).wf(),
            final(self)@ == old(self)@.insert(name@, id),
    {
        let ghost n = name@;
        let ghost before = self.entries@;
        self.entries.push((name, id));
        assert forall|k: Seq<char>| #[trigger] self@.contains_key(k) == old(self)@.insert(n, id).contains_key(k) by {
            if k != n && self@.contains_key(k) {
                let j = choose|j: int| 0 <= j < self.entries@.len() && self.entries@[j].0@ == k;
                assert(j < before.len());
            }
            if old(self)@.contains_key(k) {
                let j = choose|j: int| 0 <= j < before.len() && before[j].0@ == k;
                assert(self.entries@[j].0@ == k);
            }
            if k == n {
                assert(self.entries@[before.len() as int].0@ == k);
            }
        }
        assert forall|k: Seq<char>| #[trigger] self@.contains_key(k) implies self@[k] == old(self)@.insert(n, id)[k] by {
            let j = choose|j: int| 0 <= j < self.entries@.len() && self.entries@[j].0@ == k;
            if k == n {
                assert(j == before.len());
            } else {
                assert(j < before.len());
                let j0 = choose|j0: int| 0 <= j0 < before.len() && before[j0].0@ == k;
                assert(self.entries@[j0].0@ == k);
                assert(j0 == j);
            }
        }
        assert(self@ =~= old(self)@.insert(n, id));
    }
}

} // verus!
