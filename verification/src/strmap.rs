//! A map keyed by strings that keeps its entries in key order, as a
//! `BTreeMap<String, V>` walks them.
use vstd::prelude::*;
use vstd::string::*;
use crate::text::{str_eq, seq_lt, str_lt, lemma_seq_lt_irreflexive, lemma_seq_lt_transitive, lemma_seq_lt_total};

verus! {

/// The keys of `s` are strictly increasing.
pub open spec fn keys_sorted<T>(s: Seq<(Seq<char>, T)>) -> bool {
    forall|i: int, j: int| 0 <= i < j < s.len() ==> seq_lt(#[trigger] s[i].0, #[trigger] s[j].0)
}

pub open spec fn has_key<T>(s: Seq<(Seq<char>, T)>, k: Seq<char>) -> bool {
    exists|i: int| 0 <= i < s.len() && #[trigger] s[i].0 == k
}

pub open spec fn key_index<T>(s: Seq<(Seq<char>, T)>, k: Seq<char>) -> int {
    choose|i: int| 0 <= i < s.len() && #[trigger] s[i].0 == k
}

/// The value stored under `k`, if any.
pub open spec fn lookup<T>(s: Seq<(Seq<char>, T)>, k: Seq<char>) -> Option<T> {
    if has_key(s, k) {
        Some(s[key_index(s, k)].1)
    } else {
        None
    }
}

/// The number of entries whose key sorts before `k`: where `k` goes.
pub open spec fn lower_bound<T>(s: Seq<(Seq<char>, T)>, k: Seq<char>) -> int {
    choose|p: int| #[trigger] is_lower_bound(s, k, p)
}

pub open spec fn is_lower_bound<T>(s: Seq<(Seq<char>, T)>, k: Seq<char>, p: int) -> bool {
    0 <= p <= s.len() && (forall|j: int| 0 <= j < p ==> seq_lt(#[trigger] s[j].0, k)) && (forall|
        j: int,
    |
        p <= j < s.len() ==> !seq_lt(#[trigger] s[j].0, k))
}

/// `s` with `k` mapped to `v`: the value replaced in place when `k` is
/// present, a new entry at its place in key order otherwise.
pub open spec fn map_insert<T>(s: Seq<(Seq<char>, T)>, k: Seq<char>, v: T) -> Seq<(Seq<char>, T)> {
    if has_key(s, k) {
        s.update(key_index(s, k), (k, v))
    } else {
        s.insert(lower_bound(s, k), (k, v))
    }
}

/// `s` with the value at position `i` replaced, its key kept.
pub open spec fn map_set_value<T>(s: Seq<(Seq<char>, T)>, i: int, v: T) -> Seq<(Seq<char>, T)> {
    s.update(i, (s[i].0, v))
}

pub proof fn lemma_key_index<T>(s: Seq<(Seq<char>, T)>, i: int)
    requires
        keys_sorted(s),
        0 <= i < s.len(),
    ensures
        has_key(s, s[i].0),
        key_index(s, s[i].0) == i,
        lookup(s, s[i].0) == Some(s[i].1),
{
    let k = s[i].0;
    assert(has_key(s, k));
    let j = key_index(s, k);
    if j < i {
        lemma_seq_lt_irreflexive(k);
    } else if j > i {
        lemma_seq_lt_irreflexive(k);
    }
}

pub proof fn lemma_lower_bound<T>(s: Seq<(Seq<char>, T)>, k: Seq<char>, p: int)
    requires
        keys_sorted(s),
        0 <= p <= s.len(),
        forall|j: int| 0 <= j < p ==> seq_lt(#[trigger] s[j].0, k),
        forall|j: int| p <= j < s.len() ==> !seq_lt(#[trigger] s[j].0, k),
    ensures
        lower_bound(s, k) == p,
{
    assert(is_lower_bound(s, k, p));
    let q = lower_bound(s, k);
    assert(is_lower_bound(s, k, q));
    if q < p {
        assert(seq_lt(s[q].0, k));
    } else if q > p {
        assert(seq_lt(s[p].0, k));
    }
}

pub proof fn lemma_insert_existing<T>(s: Seq<(Seq<char>, T)>, i: int, v: T)
    requires
        keys_sorted(s),
        0 <= i < s.len(),
    ensures
        map_insert(s, s[i].0, v) == map_set_value(s, i, v),
        keys_sorted(map_set_value(s, i, v)),
{
    lemma_key_index(s, i);
    assert(map_set_value(s, i, v) =~= s.update(i, (s[i].0, v)));
}

pub proof fn lemma_set_value_lookup<T>(s: Seq<(Seq<char>, T)>, i: int, v: T, k: Seq<char>)
    requires
        keys_sorted(s),
        0 <= i < s.len(),
    ensures
        keys_sorted(map_set_value(s, i, v)),
        lookup(map_set_value(s, i, v), k) == if k == s[i].0 {
            Some(v)
        } else {
            lookup(s, k)
        },
{
    let t = map_set_value(s, i, v);
    assert(forall|j: int| 0 <= j < s.len() ==> #[trigger] t[j].0 == s[j].0);
    assert(keys_sorted(t));
    if k == s[i].0 {
        lemma_key_index(t, i);
    } else {
        if has_key(s, k) {
            let j = key_index(s, k);
            lemma_key_index(s, j);
            lemma_key_index(t, j);
        } else {
            if has_key(t, k) {
                let j = key_index(t, k);
                assert(s[j].0 == k);
            }
        }
    }
}

pub proof fn lemma_lower_bound_exists<T>(s: Seq<(Seq<char>, T)>, k: Seq<char>)
    requires
        keys_sorted(s),
    ensures
        is_lower_bound(s, k, lower_bound(s, k)),
    decreases s.len(),
{
    if s.len() == 0 {
        assert(is_lower_bound(s, k, 0));
    } else {
        let d = s.drop_last();
        assert(keys_sorted(d));
        lemma_lower_bound_exists(d, k);
        let q = lower_bound(d, k);
        let n = s.len() - 1;
        if q < n {
            assert forall|j: int| q <= j < s.len() implies !seq_lt(#[trigger] s[j].0, k) by {
                if j < n {
                    assert(s[j] == d[j]);
                } else if seq_lt(s[j].0, k) {
                    assert(d[q] == s[q]);
                    lemma_seq_lt_transitive(s[q].0, s[j].0, k);
                }
            }
            assert forall|j: int| 0 <= j < q implies seq_lt(#[trigger] s[j].0, k) by {
                assert(s[j] == d[j]);
            }
            assert(is_lower_bound(s, k, q));
        } else {
            assert forall|j: int| 0 <= j < n implies seq_lt(#[trigger] s[j].0, k) by {
                assert(s[j] == d[j]);
            }
            if seq_lt(s[n].0, k) {
                assert(is_lower_bound(s, k, s.len() as int));
            } else {
                assert(is_lower_bound(s, k, n));
            }
        }
    }
}

/// Inserting keeps the keys in order, keeps every key, and adds `k`.
pub proof fn lemma_map_insert<T>(s: Seq<(Seq<char>, T)>, k: Seq<char>, v: T)
    requires
        keys_sorted(s),
    ensures
        keys_sorted(map_insert(s, k, v)),
        has_key(map_insert(s, k, v), k),
        lookup(map_insert(s, k, v), k) == Some(v),
        forall|k2: Seq<char>| k2 != k ==> #[trigger] lookup(map_insert(s, k, v), k2) == lookup(s, k2),
        forall|j: int|
            0 <= j < map_insert(s, k, v).len() ==> (#[trigger] map_insert(s, k, v)[j]) == (k, v)
                || exists|i: int| 0 <= i < s.len() && s[i] == map_insert(s, k, v)[j],
        forall|k2: Seq<char>| has_key(s, k2) ==> #[trigger] has_key(map_insert(s, k, v), k2),
{
    let t = map_insert(s, k, v);
    if has_key(s, k) {
        let p = key_index(s, k);
        lemma_key_index(s, p);
        lemma_insert_existing(s, p, v);
        assert forall|k2: Seq<char>| k2 != k implies #[trigger] lookup(t, k2) == lookup(s, k2) by {
            lemma_set_value_lookup(s, p, v, k2);
        }
        lemma_set_value_lookup(s, p, v, k);
        assert forall|j: int| 0 <= j < t.len() implies (#[trigger] t[j]) == (k, v) || exists|i: int|
            0 <= i < s.len() && s[i] == t[j] by {
            if j != p {
                assert(s[j] == t[j]);
            }
        }
        assert forall|k2: Seq<char>| has_key(s, k2) implies #[trigger] has_key(t, k2) by {
            let i = choose|i: int| 0 <= i < s.len() && #[trigger] s[i].0 == k2;
            assert(t[i].0 == k2);
        }
    } else {
        lemma_lower_bound_exists(s, k);
        let p = lower_bound(s, k);
        assert(t == s.insert(p, (k, v)));
        assert forall|i: int, j: int| 0 <= i < j < t.len() implies seq_lt(#[trigger] t[i].0, #[trigger] t[j].0) by {
            if j < p {
                assert(t[i] == s[i] && t[j] == s[j]);
            } else if j == p {
                assert(t[i] == s[i]);
            } else if i < p {
                assert(t[i] == s[i] && t[j] == s[j - 1]);
            } else if i == p {
                assert(t[j] == s[j - 1]);
                lemma_seq_lt_total(k, s[j - 1].0);
            } else {
                assert(t[i] == s[i - 1] && t[j] == s[j - 1]);
            }
        }
        lemma_key_index(t, p);
        assert forall|k2: Seq<char>| k2 != k implies #[trigger] lookup(t, k2) == lookup(s, k2) by {
            if has_key(s, k2) {
                let i = key_index(s, k2);
                lemma_key_index(s, i);
                if i < p {
                    assert(t[i] == s[i]);
                    lemma_key_index(t, i);
                } else {
                    assert(t[i + 1] == s[i]);
                    lemma_key_index(t, i + 1);
                }
            } else if has_key(t, k2) {
                let j = key_index(t, k2);
                if j < p {
                    assert(t[j] == s[j]);
                } else if j > p {
                    assert(t[j] == s[j - 1]);
                }
            }
        }
        assert forall|j: int| 0 <= j < t.len() implies (#[trigger] t[j]) == (k, v) || exists|i: int|
            0 <= i < s.len() && s[i] == t[j] by {
            if j < p {
                assert(s[j] == t[j]);
            } else if j > p {
                assert(s[j - 1] == t[j]);
            }
        }
        assert forall|k2: Seq<char>| has_key(s, k2) implies #[trigger] has_key(t, k2) by {
            let i = choose|i: int| 0 <= i < s.len() && #[trigger] s[i].0 == k2;
            if i < p {
                assert(t[i].0 == k2);
            } else {
                assert(t[i + 1].0 == k2);
            }
        }
    }
}

/// Copying that keeps the view.
pub trait Duplicate: View + Sized {
    fn duplicate(&self) -> (r: Self)
        ensures
            r@ == self@,
    ;
}

impl Duplicate for String {
    fn duplicate(&self) -> (r: Self) {
        self.clone()
    }
}

impl Duplicate for bool {
    fn duplicate(&self) -> (r: Self) {
        *self
    }
}

/// Entries kept in strictly increasing key order.
#[derive(Debug, PartialEq, Eq)]
pub struct StrMap<V: View> {
    entries: Vec<(String, V)>,
}

impl<V: View> View for StrMap<V> {
    type V = Seq<(Seq<char>, V::V)>;

    closed spec fn view(&self) -> Seq<(Seq<char>, V::V)> {
        self.entries@.map_values(|e: (String, V)| (e.0@, e.1@))
    }
}

impl<V: View> StrMap<V> {
    #[verifier::type_invariant]
    closed spec fn sorted(self) -> bool {
        keys_sorted(self@)
    }

    pub fn new() -> (m: Self)
        ensures
            m@ == Seq::<(Seq<char>, V::V)>::empty(),
            keys_sorted(m@),
    {
        let m = StrMap { entries: Vec::new() };
        assert(m@ =~= Seq::<(Seq<char>, V::V)>::empty());
        m
    }

    pub fn len(&self) -> (n: usize)
        ensures
            n == self@.len(),
            keys_sorted(self@),
    {
        proof {
            use_type_invariant(self);
        }
        self.entries.len()
    }

    pub fn key_at(&self, i: usize) -> (k: &String)
        requires
            i < self@.len(),
        ensures
            k@ == self@[i as int].0,
    {
        &self.entries[i].0
    }

    pub fn value_at(&self, i: usize) -> (v: &V)
        requires
            i < self@.len(),
        ensures
            v@ == self@[i as int].1,
    {
        &self.entries[i].1
    }

    /// The position of `k`, if it is present.
    pub fn find(&self, k: &str) -> (r: Option<usize>)
        ensures
            keys_sorted(self@),
            r is Some <==> has_key(self@, k@),
            r matches Some(i) ==> i < self@.len() && self@[i as int].0 == k@ && key_index(self@, k@)
                == i && lookup(self@, k@) == Some(self@[i as int].1),
    {
        proof {
            use_type_invariant(self);
        }
        let n = self.entries.len();
        let mut i: usize = 0;
        while i < n
            invariant
                n == self@.len(),
                i <= n,
                keys_sorted(self@),
                forall|j: int| 0 <= j < i ==> #[trigger] self@[j].0 != k@,
            decreases n - i,
        {
            if str_eq(self.entries[i].0.as_str(), k) {
                proof {
                    lemma_key_index(self@, i as int);
                }
                return Some(i);
            }
            i = i + 1;
        }
        None
    }

    pub fn get(&self, k: &str) -> (r: Option<&V>)
        ensures
            match r {
                Some(v) => lookup(self@, k@) == Some(v@),
                None => lookup(self@, k@) is None,
            },
    {
        match self.find(k) {
            Some(i) => Some(&self.entries[i].1),
            None => None,
        }
    }

    pub fn contains_key(&self, k: &str) -> (r: bool)
        ensures
            r == has_key(self@, k@),
    {
        self.find(k).is_some()
    }

    /// Replaces the value at position `i`, keeping its key, and returns the old one.
    pub fn replace_at(&mut self, i: usize, v: V) -> (old_v: V)
        requires
            i < old(self)@.len(),
        ensures
            final(self)@ == map_set_value(old(self)@, i as int, v@),
            keys_sorted(old(self)@),
            keys_sorted(final(self)@),
            old_v@ == old(self)@[i as int].1,
    {
        proof {
            use_type_invariant(&*self);
        }
        let mut entries: Vec<(String, V)> = Vec::new();
        std::mem::swap(&mut entries, &mut self.entries);
        let (k, old_v) = entries.remove(i);
        entries.insert(i, (k, v));
        assert(entries@.map_values(|e: (String, V)| (e.0@, e.1@)) =~= map_set_value(old(self)@, i as int, v@));
        self.entries = entries;
        old_v
    }

    /// Maps `k` to `v`.
    pub fn insert(&mut self, k: String, v: V)
        ensures
            final(self)@ == map_insert(old(self)@, k@, v@),
            keys_sorted(old(self)@),
            keys_sorted(final(self)@),
    {
        proof {
            use_type_invariant(&*self);
        }
        match self.find(k.as_str()) {
            Some(i) => {
                let mut entries: Vec<(String, V)> = Vec::new();
                std::mem::swap(&mut entries, &mut self.entries);
                entries.remove(i);
                entries.insert(i, (k, v));
                assert(entries@.map_values(|e: (String, V)| (e.0@, e.1@)) =~= map_insert(old(self)@, k@, v@));
                self.entries = entries;
            },
            None => {
                let n = self.entries.len();
                let mut p: usize = 0;
                while p < n && str_lt(self.entries[p].0.as_str(), k.as_str())
                    invariant
                        n == self@.len(),
                        p <= n,
                        self@ == old(self)@,
                        keys_sorted(self@),
                        forall|j: int| 0 <= j < p ==> seq_lt(#[trigger] self@[j].0, k@),
                    decreases n - p,
                {
                    p = p + 1;
                }
                proof {
                    assert forall|j: int| p <= j < n implies !seq_lt(#[trigger] self@[j].0, k@) by {
                        if p < n {
                            assert(!seq_lt(self@[p as int].0, k@));
                            if j > p && seq_lt(self@[j].0, k@) {
                                assert(seq_lt(self@[p as int].0, self@[j].0));
                                lemma_seq_lt_transitive(self@[p as int].0, self@[j].0, k@);
                            }
                        }
                    }
                    lemma_lower_bound(self@, k@, p as int);
                    // k is absent, so the key at p sorts strictly after k
                    assert forall|j: int| p <= j < n implies seq_lt(k@, #[trigger] self@[j].0) by {
                        lemma_seq_lt_total(k@, self@[j].0);
                        assert(self@[j].0 != k@);
                    }
                }
                let mut entries: Vec<(String, V)> = Vec::new();
                std::mem::swap(&mut entries, &mut self.entries);
                entries.insert(p, (k, v));
                assert(entries@.map_values(|e: (String, V)| (e.0@, e.1@)) =~= old(self)@.insert(p as int, (k@, v@)));
                self.entries = entries;
            },
        }
    }
}

impl<V: Duplicate> Clone for StrMap<V> {
    fn clone(&self) -> (r: Self)
        ensures
            r@ == self@,
    {
        proof {
            use_type_invariant(self);
        }
        let mut entries: Vec<(String, V)> = Vec::new();
        let mut i: usize = 0;
        while i < self.entries.len()
            invariant
                i <= self.entries@.len(),
                entries@.len() == i,
                forall|k: int|
                    0 <= k < i ==> (#[trigger] entries@[k]).0@ == self.entries@[k].0@ && entries@[k].1@
                        == self.entries@[k].1@,
            decreases self.entries@.len() - i,
        {
            entries.push((self.entries[i].0.clone(), self.entries[i].1.duplicate()));
            i = i + 1;
        }
        assert(entries@.map_values(|e: (String, V)| (e.0@, e.1@)) =~= self@);
        StrMap { entries }
    }
}

} // verus!
