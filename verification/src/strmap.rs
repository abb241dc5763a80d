//! An insertion-ordered map from strings to strings with unique keys.
//!
//! This is the shape shared by a Twirp error's metadata and by the ambient
//! request/response bags: later inserts overwrite by key, lookup is by key,
//! and a whole bag can be merged into another.

use vstd::prelude::*;

verus! {

/// The mathematical content of an entry sequence: a map where later
/// entries win. On sequences with distinct keys every entry is visible.
pub open spec fn map_of(s: Seq<(Seq<char>, Seq<char>)>) -> Map<Seq<char>, Seq<char>>
    decreases s.len(),
{
    if s.len() == 0 {
        Map::empty()
    } else {
        map_of(s.drop_last()).insert(s.last().0, s.last().1)
    }
}

/// All keys of the entry sequence are pairwise distinct.
pub open spec fn keys_distinct(s: Seq<(Seq<char>, Seq<char>)>) -> bool {
    forall|i: int, j: int| 0 <= i < j < s.len() ==> s[i].0 != s[j].0
}

/// A key is in the map exactly when some entry carries it.
pub proof fn lemma_map_of_contains(s: Seq<(Seq<char>, Seq<char>)>, k: Seq<char>)
    ensures
        map_of(s).contains_key(k) <==> (exists|i: int| 0 <= i < s.len() && s[i].0 == k),
    decreases s.len(),
{
    if s.len() > 0 {
        lemma_map_of_contains(s.drop_last(), k);
        if s.last().0 == k {
            assert(s[s.len() - 1].0 == k);
        } else if map_of(s).contains_key(k) {
            let i = choose|i: int| 0 <= i < s.drop_last().len() && s.drop_last()[i].0 == k;
            assert(s[i].0 == k);
        } else if exists|i: int| 0 <= i < s.len() && s[i].0 == k {
            let i = choose|i: int| 0 <= i < s.len() && s[i].0 == k;
            assert(s.drop_last()[i].0 == k);
        }
    }
}

/// With distinct keys, the map carries each entry's value at its key.
pub proof fn lemma_map_of_index(s: Seq<(Seq<char>, Seq<char>)>, i: int)
    requires
        keys_distinct(s),
        0 <= i < s.len(),
    ensures
        map_of(s).contains_key(s[i].0),
        map_of(s)[s[i].0] == s[i].1,
    decreases s.len(),
{
    if i < s.len() - 1 {
        assert(keys_distinct(s.drop_last()));
        assert(s.drop_last()[i] == s[i]);
        lemma_map_of_index(s.drop_last(), i);
        assert(s.last().0 != s[i].0);
    }
}

/// An insertion-ordered string-to-string map with unique keys.
#[derive(Debug)]
pub struct StrMap {
    entries: Vec<(String, String)>,
}

/// The entry vector's content as sequences of characters.
pub open spec fn entries_view(es: Seq<(String, String)>) -> Seq<(Seq<char>, Seq<char>)> {
    es.map_values(|e: (String, String)| (e.0@, e.1@))
}

impl StrMap {
    /// The entries, in insertion order, as sequences of characters.
    pub closed spec fn view(&self) -> Seq<(Seq<char>, Seq<char>)> {
        entries_view(self.entries@)
    }

    /// No key occurs twice; every constructor establishes this and every
    /// method keeps it.
    #[verifier::type_invariant]
    spec fn inv(&self) -> bool {
        keys_distinct(self@)
    }

    /// The map the entries denote.
    pub open spec fn as_map(&self) -> Map<Seq<char>, Seq<char>> {
        map_of(self@)
    }

    /// An empty map.
    pub fn new() -> (r: StrMap)
        ensures
            r@ == Seq::<(Seq<char>, Seq<char>)>::empty(),
            r.as_map() == Map::<Seq<char>, Seq<char>>::empty(),
    {
        let r = StrMap { entries: Vec::new() };
        proof {
            assert(r@ =~= Seq::<(Seq<char>, Seq<char>)>::empty());
        }
        r
    }

    /// How many entries the map holds.
    pub fn len(&self) -> (r: usize)
        ensures
            r == self@.len(),
    {
        self.entries.len()
    }

    /// The key and value of the entry at a position, in insertion order.
    pub fn entry_at(&self, i: usize) -> (r: (&String, &String))
        requires
            i < self@.len(),
        ensures
            r.0@ == self@[i as int].0,
            r.1@ == self@[i as int].1,
    {
        let e = &self.entries[i];
        (&e.0, &e.1)
    }

    /// The value stored at a key, if any.
    #[verifier::loop_isolation(false)]
    pub fn get(&self, k: &String) -> (r: Option<&String>)
        ensures
            match r {
                Some(v) => self.as_map().contains_key(k@) && v@ == self.as_map()[k@],
                None => !self.as_map().contains_key(k@),
            },
    {
        proof {
            use_type_invariant(self);
        }
        let n = self.entries.len();
        let mut i: usize = 0;
        while i < n
            invariant
                n == self@.len(),
                i <= n,
                keys_distinct(self@),
                forall|j: int| 0 <= j < i ==> self@[j].0 != k@,
            decreases n - i,
        {
            let e = &self.entries[i];
            if e.0 == *k {
                proof {
                    lemma_map_of_index(self@, i as int);
                }
                return Some(&e.1);
            }
            i = i + 1;
        }
        proof {
            lemma_map_of_contains(self@, k@);
        }
        None
    }

    /// Whether the map holds the key.
    pub fn contains_key(&self, k: &String) -> (r: bool)
        ensures
            r == self.as_map().contains_key(k@),
    {
        match self.get(k) {
            Some(_) => true,
            None => false,
        }
    }

    /// Inserts a value at a key; a later insert overwrites an earlier one
    /// in place, and a fresh key goes to the end.
    #[verifier::loop_isolation(false)]
    pub fn insert(&mut self, k: String, v: String)
        ensures
            final(self).as_map() == old(self).as_map().insert(k@, v@),
            forall|j: int|
                0 <= j < old(self)@.len() && old(self)@[j].0 != k@ ==> final(self)@[j] == old(
                    self,
                )@[j],
            old(self).as_map().contains_key(k@) ==> final(self)@.len() == old(self)@.len() && (
            exists|i: int|
                0 <= i < old(self)@.len() && old(self)@[i].0 == k@ && final(self)@[i] == (k@, v@)),
            !old(self).as_map().contains_key(k@) ==> final(self)@ == old(self)@.push((k@, v@)),
    {
        proof {
            use_type_invariant(&*self);
        }
        let ghost s0 = self@;
        let mut es: Vec<(String, String)> = Vec::new();
        core::mem::swap(&mut es, &mut self.entries);
        proof {
            assert(entries_view(es@) == s0);
        }
        let n = es.len();
        let mut i: usize = 0;
        while i < n
            invariant
                entries_view(es@) == s0,
                n == s0.len(),
                i <= n,
                keys_distinct(s0),
                forall|j: int| 0 <= j < i ==> s0[j].0 != k@,
            decreases n - i,
        {
            let found = es[i].0 == k;
            if found {
                let ghost e0 = es@;
                es[i] = (k, v);
                proof {
                    let t = entries_view(es@);
                    assert(s0[i as int].0 == k@);
                    assert(es@ == e0.update(i as int, (k, v)));
                    assert(t =~= s0.update(i as int, (k@, v@)));
                    lemma_map_of_contains(s0, k@);
                    lemma_map_of_index(s0, i as int);
                    assert(keys_distinct(t)) by {
                        assert(forall|a: int, b: int|
                            0 <= a < b < t.len() ==> t[a].0 == (if a == i {
                                k@
                            } else {
                                s0[a].0
                            }) && t[b].0 == (if b == i {
                                k@
                            } else {
                                s0[b].0
                            }));
                    }
                    lemma_insert_at(s0, i as int, k@, v@);
                    assert(0 <= i < s0.len() && s0[i as int].0 == k@ && t[i as int] == (k@, v@));
                }
                self.entries = es;
                return ;
            }
            i = i + 1;
        }
        es.push((k, v));
        proof {
            let t = entries_view(es@);
            assert(t =~= s0.push((k@, v@)));
            lemma_map_of_contains(s0, k@);
            assert(t.drop_last() =~= s0);
            assert(keys_distinct(t));
        }
        self.entries = es;
    }

    /// Whether every entry of `self` stands in `other` with the same value.
    #[verifier::loop_isolation(false)]
    pub fn submap_of(&self, other: &StrMap) -> (r: bool)
        ensures
            r == self.as_map().submap_of(other.as_map()),
    {
        proof {
            use_type_invariant(self);
            use_type_invariant(other);
        }
        let n = self.entries.len();
        let mut i: usize = 0;
        while i < n
            invariant
                n == self@.len(),
                i <= n,
                forall|j: int|
                    0 <= j < i ==> other.as_map().contains_key(#[trigger] self@[j].0)
                        && other.as_map()[self@[j].0] == self@[j].1,
            decreases n - i,
        {
            let (k, v) = self.entry_at(i);
            let ok = match other.get(k) {
                Some(w) => *v == *w,
                None => false,
            };
            if !ok {
                proof {
                    lemma_map_of_index(self@, i as int);
                    assert(!self.as_map().submap_of(other.as_map()));
                }
                return false;
            }
            i = i + 1;
        }
        proof {
            assert forall|key: Seq<char>| #[trigger] self.as_map().dom().contains(key) implies
                other.as_map().dom().contains(key) && self.as_map()[key] == other.as_map()[key] by {
                lemma_map_of_contains(self@, key);
                let j = choose|j: int| 0 <= j < self@.len() && self@[j].0 == key;
                lemma_map_of_index(self@, j);
                assert(other.as_map().contains_key(self@[j].0));
                assert(other.as_map()[self@[j].0] == self@[j].1);
            }
        }
        true
    }

    /// Whether the two maps hold the same keys with the same values,
    /// whatever the insertion orders were.
    pub fn map_equal(&self, other: &StrMap) -> (r: bool)
        ensures
            r == (self.as_map() == other.as_map()),
    {
        let a = self.submap_of(other);
        let b = other.submap_of(self);
        proof {
            self.as_map().lemma_submap_eq_iff(other.as_map());
        }
        a && b
    }

    /// Inserts every entry of `other`, in order; on a shared key the value
    /// from `other` wins.
    #[verifier::loop_isolation(false)]
    pub fn merge_from(&mut self, other: &StrMap)
        ensures
            final(self).as_map() == old(self).as_map().union_prefer_right(other.as_map()),
    {
        let ghost m0 = old(self).as_map();
        proof {
            use_type_invariant(&*other);
        }
        let n = other.entries.len();
        proof {
            assert(m0.union_prefer_right(map_of(other@.take(0))) =~= m0);
        }
        let mut i: usize = 0;
        while i < n
            invariant
                n == other@.len(),
                i <= n,
                keys_distinct(other@),
                self.as_map() == m0.union_prefer_right(map_of(other@.take(i as int))),
            decreases n - i,
        {
            let e = &other.entries[i];
            let ghost before = self.as_map();
            self.insert(e.0.clone(), e.1.clone());
            proof {
                assert(other@.take(i + 1).drop_last() =~= other@.take(i as int));
                assert(other@.take(i + 1).last() == other@[i as int]);
                assert(self.as_map() =~= m0.union_prefer_right(map_of(other@.take(i + 1))));
            }
            i = i + 1;
        }
        proof {
            assert(other@.take(n as int) =~= other@);
        }
    }
}

/// Replacing the entry at the key's own position is insertion into the map.
proof fn lemma_insert_at(s: Seq<(Seq<char>, Seq<char>)>, i: int, k: Seq<char>, v: Seq<char>)
    requires
        keys_distinct(s),
        0 <= i < s.len(),
        s[i].0 == k,
    ensures
        map_of(s.update(i, (k, v))) == map_of(s).insert(k, v),
{
    let t = s.update(i, (k, v));
    assert(keys_distinct(t)) by {
        assert(forall|a: int| 0 <= a < t.len() && a != i ==> t[a].0 == s[a].0);
    }
    assert forall|key: Seq<char>| #[trigger] map_of(t).contains_key(key) implies map_of(s).insert(
        k,
        v,
    ).contains_key(key) && map_of(t)[key] == map_of(s).insert(k, v)[key] by {
        lemma_map_of_contains(t, key);
        let j = choose|j: int| 0 <= j < t.len() && t[j].0 == key;
        lemma_map_of_index(t, j);
        assert(map_of(t)[key] == t[j].1);
        if j == i {
            assert(key == k);
            assert(map_of(s).insert(k, v)[key] == v);
        } else {
            assert(s[j].0 == key);
            assert(s[i].0 == k);
            assert(key != k);
            lemma_map_of_index(s, j);
            lemma_map_of_contains(s, key);
            assert(map_of(s).insert(k, v)[key] == map_of(s)[key]);
        }
    }
    assert forall|key: Seq<char>| #[trigger] map_of(s).insert(k, v).contains_key(key) implies map_of(
        t,
    ).contains_key(key) by {
        lemma_map_of_contains(t, key);
        if key == k {
            assert(t[i].0 == key);
        } else {
            lemma_map_of_contains(s, key);
            let j = choose|j: int| 0 <= j < s.len() && s[j].0 == key;
            assert(j != i);
            assert(t[j].0 == key);
        }
    }
    assert(map_of(t) =~= map_of(s).insert(k, v));
}

} // verus!
