//! Row stores backing the ledger state: association maps keyed by one or two
//! 64-bit identifiers, with `Map` views.  Rows are only ever inserted or
//! overwritten, never removed, matching the ledger's tombstone discipline.

use vstd::prelude::*;

verus! {

/// The map denoted by an entry sequence; a later entry overrides an earlier
/// one with the same key.
pub open spec fn map_of<V>(s: Seq<(i64, V)>) -> Map<i64, V>
    decreases s.len(),
{
    if s.len() == 0 {
        Map::empty()
    } else {
        map_of(s.drop_last()).insert(s.last().0, s.last().1)
    }
}

/// No two entries share a key.
pub open spec fn distinct_keys<V>(s: Seq<(i64, V)>) -> bool {
    forall|i: int, j: int| 0 <= i < j < s.len() ==> s[i].0 != s[j].0
}

proof fn lemma_map_of_index<V>(s: Seq<(i64, V)>, i: int)
    requires
        distinct_keys(s),
        0 <= i < s.len(),
    ensures
        map_of(s).contains_key(s[i].0),
        map_of(s)[s[i].0] == s[i].1,
    decreases s.len(),
{
    if i == s.len() - 1 {
    } else {
        assert(distinct_keys(s.drop_last()));
        assert(s.drop_last()[i] == s[i]);
        lemma_map_of_index(s.drop_last(), i);
        assert(s[i].0 != s.last().0);
    }
}

proof fn lemma_map_of_absent<V>(s: Seq<(i64, V)>, k: i64)
    requires
        forall|i: int| 0 <= i < s.len() ==> s[i].0 != k,
    ensures
        !map_of(s).contains_key(k),
    decreases s.len(),
{
    if s.len() > 0 {
        assert(forall|i: int| 0 <= i < s.drop_last().len() ==> s.drop_last()[i].0 != k);
        lemma_map_of_absent(s.drop_last(), k);
    }
}

proof fn lemma_map_of_push<V>(s: Seq<(i64, V)>, k: i64, v: V)
    ensures
        map_of(s.push((k, v))) == map_of(s).insert(k, v),
{
    assert(s.push((k, v)).drop_last() =~= s);
    assert(s.push((k, v)).last() == (k, v));
}

proof fn lemma_map_of_update<V>(s: Seq<(i64, V)>, i: int, v: V)
    requires
        distinct_keys(s),
        0 <= i < s.len(),
    ensures
        map_of(s.update(i, (s[i].0, v))) == map_of(s).insert(s[i].0, v),
    decreases s.len(),
{
    let k = s[i].0;
    let t = s.update(i, (k, v));
    if i == s.len() - 1 {
        assert(t.drop_last() =~= s.drop_last());
        assert(t.last() == (k, v));
        assert(map_of(s.drop_last()).insert(k, v)
            =~= map_of(s.drop_last()).insert(k, s[i].1).insert(k, v));
    } else {
        assert(t.drop_last() =~= s.drop_last().update(i, (k, v)));
        assert(s.drop_last()[i] == s[i]);
        assert(distinct_keys(s.drop_last()));
        lemma_map_of_update(s.drop_last(), i, v);
        assert(t.last() == s.last());
        assert(k != s.last().0);
        assert(map_of(s.drop_last()).insert(k, v).insert(s.last().0, s.last().1)
            =~= map_of(s.drop_last()).insert(s.last().0, s.last().1).insert(k, v));
    }
}

/// A row store keyed by one 64-bit identifier.
pub struct IntMap<V> {
    entries: Vec<(i64, V)>,
}

impl<V> View for IntMap<V> {
    type V = Map<i64, V>;

    closed spec fn view(&self) -> Map<i64, V> {
        map_of(self.entries@)
    }
}

impl<V> IntMap<V> {
    /// Entries carry pairwise distinct keys.
    pub closed spec fn wf(self) -> bool {
        distinct_keys(self.entries@)
    }

    /// An empty store.
    pub fn new() -> (r: Self)
        ensures
            r.wf(),
            r@ == Map::<i64, V>::empty(),
    {
        IntMap { entries: Vec::new() }
    }

    /// The row under `k`, if any.
    pub fn get(&self, k: i64) -> (r: Option<&V>)
        requires
            self.wf(),
        ensures
            match r {
                Some(v) => self@.contains_key(k) && *v == self@[k],
                None => !self@.contains_key(k),
            },
    {
        let n = self.entries.len();
        let mut i: usize = 0;
        while i < n
            invariant
                0 <= i <= n,
                n == self.entries@.len(),
                self.wf(),
                forall|j: int| 0 <= j < i ==> self.entries@[j].0 != k,
            decreases n - i,
        {
            let e = &self.entries[i];
            if e.0 == k {
                proof {
                    lemma_map_of_index(self.entries@, i as int);
                }
                return Some(&e.1);
            }
            i = i + 1;
        }
        proof {
            lemma_map_of_absent(self.entries@, k);
        }
        None
    }

    /// Whether a row exists under `k`.
    pub fn contains(&self, k: i64) -> (r: bool)
        requires
            self.wf(),
        ensures
            r == self@.contains_key(k),
    {
        self.get(k).is_some()
    }

    /// Writes the row under `k`, overwriting any previous row.
    pub fn insert(&mut self, k: i64, v: V)
        requires
            old(self).wf(),
        ensures
            final(self).wf(),
            final(self)@ == old(self)@.insert(k, v),
    {
        let n = self.entries.len();
        let mut i: usize = 0;
        while i < n
            invariant
                0 <= i <= n,
                n == self.entries@.len(),
                self.wf(),
                self.entries@ == old(self).entries@,
                forall|j: int| 0 <= j < i ==> self.entries@[j].0 != k,
            decreases n - i,
        {
            if self.entries[i].0 == k {
                proof {
                    lemma_map_of_update(self.entries@, i as int, v);
                }
                self.entries.set(i, (k, v));
                proof {
                    assert(distinct_keys(self.entries@)) by {
                        assert(forall|j: int|
                            0 <= j < self.entries@.len() ==> self.entries@[j].0 == old(
                                self,
                            ).entries@[j].0);
                    }
                }
                return ;
            }
            i = i + 1;
        }
        proof {
            lemma_map_of_push(self.entries@, k, v);
        }
        self.entries.push((k, v));
    }
}

/// The map denoted by a two-key entry sequence; a later entry overrides an
/// earlier one with the same key pair.
pub open spec fn map_of2<V>(s: Seq<(i64, i64, V)>) -> Map<(i64, i64), V>
    decreases s.len(),
{
    if s.len() == 0 {
        Map::empty()
    } else {
        map_of2(s.drop_last()).insert((s.last().0, s.last().1), s.last().2)
    }
}

/// No two entries share a key pair.
pub open spec fn distinct_keys2<V>(s: Seq<(i64, i64, V)>) -> bool {
    forall|i: int, j: int|
        0 <= i < j < s.len() ==> !(s[i].0 == s[j].0 && s[i].1 == s[j].1)
}

proof fn lemma_map_of2_index<V>(s: Seq<(i64, i64, V)>, i: int)
    requires
        distinct_keys2(s),
        0 <= i < s.len(),
    ensures
        map_of2(s).contains_key((s[i].0, s[i].1)),
        map_of2(s)[(s[i].0, s[i].1)] == s[i].2,
    decreases s.len(),
{
    if i == s.len() - 1 {
    } else {
        assert(distinct_keys2(s.drop_last()));
        assert(s.drop_last()[i] == s[i]);
        lemma_map_of2_index(s.drop_last(), i);
        assert(!(s[i].0 == s.last().0 && s[i].1 == s.last().1));
    }
}

proof fn lemma_map_of2_absent<V>(s: Seq<(i64, i64, V)>, a: i64, b: i64)
    requires
        forall|i: int| 0 <= i < s.len() ==> !(s[i].0 == a && s[i].1 == b),
    ensures
        !map_of2(s).contains_key((a, b)),
    decreases s.len(),
{
    if s.len() > 0 {
        assert(forall|i: int|
            0 <= i < s.drop_last().len() ==> !(s.drop_last()[i].0 == a && s.drop_last()[i].1
                == b));
        lemma_map_of2_absent(s.drop_last(), a, b);
    }
}

proof fn lemma_map_of2_push<V>(s: Seq<(i64, i64, V)>, a: i64, b: i64, v: V)
    ensures
        map_of2(s.push((a, b, v))) == map_of2(s).insert((a, b), v),
{
    assert(s.push((a, b, v)).drop_last() =~= s);
    assert(s.push((a, b, v)).last() == (a, b, v));
}

proof fn lemma_map_of2_update<V>(s: Seq<(i64, i64, V)>, i: int, v: V)
    requires
        distinct_keys2(s),
        0 <= i < s.len(),
    ensures
        map_of2(s.update(i, (s[i].0, s[i].1, v))) == map_of2(s).insert((s[i].0, s[i].1), v),
    decreases s.len(),
{
    let a = s[i].0;
    let b = s[i].1;
    let t = s.update(i, (a, b, v));
    if i == s.len() - 1 {
        assert(t.drop_last() =~= s.drop_last());
        assert(t.last() == (a, b, v));
        assert(map_of2(s.drop_last()).insert((a, b), v)
            =~= map_of2(s.drop_last()).insert((a, b), s[i].2).insert((a, b), v));
    } else {
        assert(t.drop_last() =~= s.drop_last().update(i, (a, b, v)));
        assert(s.drop_last()[i] == s[i]);
        assert(distinct_keys2(s.drop_last()));
        lemma_map_of2_update(s.drop_last(), i, v);
        assert(t.last() == s.last());
        assert(!(a == s.last().0 && b == s.last().1));
        assert(map_of2(s.drop_last()).insert((a, b), v).insert(
            (s.last().0, s.last().1),
            s.last().2,
        ) =~= map_of2(s.drop_last()).insert((s.last().0, s.last().1), s.last().2).insert(
            (a, b),
            v,
        ));
    }
}

/// A row store keyed by a pair of 64-bit identifiers.
pub struct PairMap<V> {
    entries: Vec<(i64, i64, V)>,
}

impl<V> View for PairMap<V> {
    type V = Map<(i64, i64), V>;

    closed spec fn view(&self) -> Map<(i64, i64), V> {
        map_of2(self.entries@)
    }
}

impl<V> PairMap<V> {
    /// Entries carry pairwise distinct key pairs.
    pub closed spec fn wf(self) -> bool {
        distinct_keys2(self.entries@)
    }

    /// An empty store.
    pub fn new() -> (r: Self)
        ensures
            r.wf(),
            r@ == Map::<(i64, i64), V>::empty(),
    {
        PairMap { entries: Vec::new() }
    }

    /// The row under `(a, b)`, if any.
    pub fn get(&self, a: i64, b: i64) -> (r: Option<&V>)
        requires
            self.wf(),
        ensures
            match r {
                Some(v) => self@.contains_key((a, b)) && *v == self@[(a, b)],
                None => !self@.contains_key((a, b)),
            },
    {
        let n = self.entries.len();
        let mut i: usize = 0;
        while i < n
            invariant
                0 <= i <= n,
                n == self.entries@.len(),
                self.wf(),
                forall|j: int|
                    0 <= j < i ==> !(self.entries@[j].0 == a && self.entries@[j].1 == b),
            decreases n - i,
        {
            let e = &self.entries[i];
            if e.0 == a && e.1 == b {
                proof {
                    lemma_map_of2_index(self.entries@, i as int);
                }
                return Some(&e.2);
            }
            i = i + 1;
        }
        proof {
            lemma_map_of2_absent(self.entries@, a, b);
        }
        None
    }

    /// Whether a row exists under `(a, b)`.
    pub fn contains(&self, a: i64, b: i64) -> (r: bool)
        requires
            self.wf(),
        ensures
            r == self@.contains_key((a, b)),
    {
        self.get(a, b).is_some()
    }

    /// Writes the row under `(a, b)`, overwriting any previous row.
    pub fn insert(&mut self, a: i64, b: i64, v: V)
        requires
            old(self).wf(),
        ensures
            final(self).wf(),
            final(self)@ == old(self)@.insert((a, b), v),
    {
        let n = self.entries.len();
        let mut i: usize = 0;
        while i < n
            invariant
                0 <= i <= n,
                n == self.entries@.len(),
                self.wf(),
                self.entries@ == old(self).entries@,
                forall|j: int|
                    0 <= j < i ==> !(self.entries@[j].0 == a && self.entries@[j].1 == b),
            decreases n - i,
        {
            if self.entries[i].0 == a && self.entries[i].1 == b {
                proof {
                    lemma_map_of2_update(self.entries@, i as int, v);
                }
                self.entries.set(i, (a, b, v));
                proof {
                    assert(distinct_keys2(self.entries@)) by {
                        assert(forall|j: int|
                            0 <= j < self.entries@.len() ==> (self.entries@[j].0 == old(
                                self,
                            ).entries@[j].0 && self.entries@[j].1 == old(self).entries@[j].1));
                    }
                }
                return ;
            }
            i = i + 1;
        }
        proof {
            lemma_map_of2_push(self.entries@, a, b, v);
        }
        self.entries.push((a, b, v));
    }
}

} // verus!
