//! An ordered map from integer keys (packed addresses or offsets) to bytes,
//! kept as a vector of entries sorted by strictly increasing key.
use vstd::prelude::*;

verus! {

/// Ordered key → byte map. Iteration (by index) visits keys in increasing
/// order.
#[derive(Debug, PartialEq, Eq)]
pub struct ByteMap {
    entries: Vec<(u32, u8)>,
}

/// Keys of `s` strictly increase.
pub open spec fn sorted_keys(s: Seq<(u32, u8)>) -> bool {
    forall|i: int, j: int| 0 <= i < j < s.len() ==> s[i].0 < s[j].0
}

/// `k` occurs as a key in `s`.
pub open spec fn has_key(s: Seq<(u32, u8)>, k: u32) -> bool {
    exists|i: int| 0 <= i < s.len() && s[i].0 == k
}

/// The map a sorted entry sequence stands for.
pub open spec fn entries_map(s: Seq<(u32, u8)>) -> Map<u32, u8> {
    Map::new(
        |k: u32| has_key(s, k),
        |k: u32| s[choose|i: int| 0 <= i < s.len() && s[i].0 == k].1,
    )
}

/// In a sorted entry sequence every entry is what the map holds at its key.
pub proof fn lemma_entries_map_at(s: Seq<(u32, u8)>, i: int)
    requires
        sorted_keys(s),
        0 <= i < s.len(),
    ensures
        entries_map(s).contains_key(s[i].0),
        entries_map(s)[s[i].0] == s[i].1,
{
    let k = s[i].0;
    assert(has_key(s, k));
    let j = choose|j: int| 0 <= j < s.len() && s[j].0 == k;
    if j < i {
        assert(s[j].0 < s[i].0);
    } else if i < j {
        assert(s[i].0 < s[j].0);
    }
}

impl View for ByteMap {
    type V = Map<u32, u8>;

    closed spec fn view(&self) -> Map<u32, u8> {
        entries_map(self.entries@)
    }
}

impl ByteMap {
    #[verifier::type_invariant]
    spec fn inv(self) -> bool {
        sorted_keys(self.entries@)
    }

    /// Entries in increasing key order.
    pub closed spec fn entries_spec(self) -> Seq<(u32, u8)> {
        self.entries@
    }

    pub fn new() -> (r: ByteMap)
        ensures
            r@ == Map::<u32, u8>::empty(),
    {
        let r = ByteMap { entries: Vec::new() };
        assert(r@ =~= Map::<u32, u8>::empty());
        r
    }

    pub fn len(&self) -> (r: usize)
        ensures
            r == self@.len(),
            r == self.entries_spec().len(),
            sorted_keys(self.entries_spec()),
            self@ == entries_map(self.entries_spec()),
    {
        proof {
            use_type_invariant(self);
            lemma_entries_facts(self.entries@);
        }
        self.entries.len()
    }

    pub fn is_empty(&self) -> (r: bool)
        ensures
            r == (self@.len() == 0),
            r == (self@ == Map::<u32, u8>::empty()),
    {
        proof {
            use_type_invariant(self);
            lemma_entries_facts(self.entries@);
            if self@.len() == 0 {
                assert(self@.dom() =~= Set::<u32>::empty());
                assert(self@ =~= Map::<u32, u8>::empty());
            }
        }
        self.entries.len() == 0
    }

    /// The `i`-th entry in increasing key order.
    pub fn entry(&self, i: usize) -> (r: (u32, u8))
        requires
            i < self.entries_spec().len(),
        ensures
            r == self.entries_spec()[i as int],
            self@.contains_key(r.0),
            self@[r.0] == r.1,
            sorted_keys(self.entries_spec()),
            self@ == entries_map(self.entries_spec()),
    {
        proof {
            use_type_invariant(self);
            lemma_entries_facts(self.entries@);
        }
        self.entries[i]
    }

    /// Position at which `k` is, or would be inserted.
    fn locate(&self, k: u32) -> (r: usize)
        ensures
            r <= self.entries@.len(),
            forall|i: int| 0 <= i < r ==> self.entries@[i].0 < k,
            forall|i: int| r < i < self.entries@.len() ==> self.entries@[i].0 > k,
            r < self.entries@.len() ==> self.entries@[r as int].0 >= k,
    {
        proof {
            use_type_invariant(self);
        }
        let mut i: usize = 0;
        while i < self.entries.len()
            invariant
                i <= self.entries@.len(),
                sorted_keys(self.entries@),
                forall|j: int| 0 <= j < i ==> self.entries@[j].0 < k,
            decreases self.entries@.len() - i,
        {
            if self.entries[i].0 >= k {
                return i;
            }
            i += 1;
        }
        i
    }

    pub fn get(&self, k: u32) -> (r: Option<u8>)
        ensures
            r == (if self@.contains_key(k) {
                Some(self@[k])
            } else {
                None
            }),
    {
        proof {
            use_type_invariant(self);
            lemma_entries_facts(self.entries@);
        }
        let p = self.locate(k);
        if p < self.entries.len() && self.entries[p].0 == k {
            Some(self.entries[p].1)
        } else {
            proof {
                if self@.contains_key(k) {
                    let i = choose|i: int|
                        0 <= i < self.entries_spec().len() && self.entries_spec()[i].0 == k;
                    assert(i != p);
                }
            }
            None
        }
    }

    pub fn contains_key(&self, k: u32) -> (r: bool)
        ensures
            r == self@.contains_key(k),
    {
        self.get(k).is_some()
    }

    pub fn insert(&mut self, k: u32, v: u8)
        ensures
            final(self)@ == old(self)@.insert(k, v),
    {
        proof {
            use_type_invariant(&*self);
        }
        let ghost old_e = self.entries@;
        let p = self.locate(k);
        let mut e: Vec<(u32, u8)> = Vec::new();
        std::mem::swap(&mut e, &mut self.entries);
        if p < e.len() && e[p].0 == k {
            e.set(p, (k, v));
            proof {
                let ne = e@;
                assert(ne =~= old_e.update(p as int, (k, v)));
                assert(sorted_keys(ne));
                assert(entries_map(ne) =~= entries_map(old_e).insert(k, v)) by {
                    assert forall|kk: u32| #[trigger] has_key(ne, kk) == (has_key(old_e, kk)
                        || kk == k) by {
                        if has_key(old_e, kk) {
                            let i = choose|i: int| 0 <= i < old_e.len() && old_e[i].0 == kk;
                            assert(ne[i].0 == kk);
                        }
                        if has_key(ne, kk) {
                            let i = choose|i: int| 0 <= i < ne.len() && ne[i].0 == kk;
                            if i != p {
                                assert(old_e[i].0 == kk);
                            }
                        }
                        assert(ne[p as int].0 == k);
                    }
                    assert forall|kk: u32| has_key(ne, kk) implies #[trigger] entries_map(ne)[kk]
                        == entries_map(old_e).insert(k, v)[kk] by {
                        let i = choose|i: int| 0 <= i < ne.len() && ne[i].0 == kk;
                        lemma_entries_map_at(ne, i);
                        if i != p {
                            lemma_entries_map_at(old_e, i);
                        }
                    }
                }
            }
        } else {
            e.insert(p, (k, v));
            proof {
                let ne = e@;
                assert(ne =~= old_e.insert(p as int, (k, v)));
                assert(sorted_keys(ne)) by {
                    assert forall|i: int, j: int| 0 <= i < j < ne.len() implies ne[i].0
                        < ne[j].0 by {
                        if j < p {
                        } else if j == p {
                        } else if i < p {
                            assert(ne[j] == old_e[j - 1]);
                        } else if i == p {
                            assert(ne[j] == old_e[j - 1]);
                        } else {
                            assert(ne[j] == old_e[j - 1]);
                            assert(ne[i] == old_e[i - 1]);
                        }
                    }
                }
                assert(entries_map(ne) =~= entries_map(old_e).insert(k, v)) by {
                    assert forall|kk: u32| #[trigger] has_key(ne, kk) == (has_key(old_e, kk)
                        || kk == k) by {
                        if has_key(old_e, kk) {
                            let i = choose|i: int| 0 <= i < old_e.len() && old_e[i].0 == kk;
                            if i < p {
                                assert(ne[i].0 == kk);
                            } else {
                                assert(ne[i + 1].0 == kk);
                            }
                        }
                        if has_key(ne, kk) {
                            let i = choose|i: int| 0 <= i < ne.len() && ne[i].0 == kk;
                            if i < p {
                                assert(old_e[i].0 == kk);
                            } else if i > p {
                                assert(old_e[i - 1].0 == kk);
                            }
                        }
                        assert(ne[p as int].0 == k);
                    }
                    assert forall|kk: u32| has_key(ne, kk) implies #[trigger] entries_map(ne)[kk]
                        == entries_map(old_e).insert(k, v)[kk] by {
                        let i = choose|i: int| 0 <= i < ne.len() && ne[i].0 == kk;
                        lemma_entries_map_at(ne, i);
                        if i < p {
                            lemma_entries_map_at(old_e, i);
                        } else if i > p {
                            lemma_entries_map_at(old_e, i - 1);
                        }
                    }
                }
            }
        }
        self.entries = e;
    }

    pub fn remove(&mut self, k: u32) -> (r: Option<u8>)
        ensures
            final(self)@ == old(self)@.remove(k),
            r == (if old(self)@.contains_key(k) {
                Some(old(self)@[k])
            } else {
                None
            }),
    {
        proof {
            use_type_invariant(&*self);
            lemma_entries_facts(self.entries@);
        }
        let ghost old_e = self.entries@;
        let p = self.locate(k);
        if p < self.entries.len() && self.entries[p].0 == k {
            let mut e: Vec<(u32, u8)> = Vec::new();
            std::mem::swap(&mut e, &mut self.entries);
            let (_, v) = e.remove(p);
            proof {
                let ne = e@;
                assert(ne =~= old_e.remove(p as int));
                lemma_entries_map_at(old_e, p as int);
                assert(sorted_keys(ne)) by {
                    assert forall|i: int, j: int| 0 <= i < j < ne.len() implies ne[i].0
                        < ne[j].0 by {
                        if i >= p {
                            assert(ne[i] == old_e[i + 1]);
                        }
                        if j >= p {
                            assert(ne[j] == old_e[j + 1]);
                        }
                    }
                }
                assert(entries_map(ne) =~= entries_map(old_e).remove(k)) by {
                    assert forall|kk: u32| #[trigger] has_key(ne, kk) == (has_key(old_e, kk)
                        && kk != k) by {
                        if has_key(old_e, kk) && kk != k {
                            let i = choose|i: int| 0 <= i < old_e.len() && old_e[i].0 == kk;
                            if i < p {
                                assert(ne[i].0 == kk);
                            } else {
                                assert(i != p);
                                assert(ne[i - 1].0 == kk);
                            }
                        }
                        if has_key(ne, kk) {
                            let i = choose|i: int| 0 <= i < ne.len() && ne[i].0 == kk;
                            if i < p {
                                assert(old_e[i].0 == kk);
                                assert(old_e[i].0 < old_e[p as int].0);
                            } else {
                                assert(old_e[i + 1].0 == kk);
                                assert(old_e[p as int].0 < old_e[i + 1].0);
                            }
                        }
                    }
                    assert forall|kk: u32| has_key(ne, kk) implies #[trigger] entries_map(ne)[kk]
                        == entries_map(old_e).remove(k)[kk] by {
                        let i = choose|i: int| 0 <= i < ne.len() && ne[i].0 == kk;
                        lemma_entries_map_at(ne, i);
                        if i < p {
                            lemma_entries_map_at(old_e, i);
                        } else {
                            lemma_entries_map_at(old_e, i + 1);
                        }
                    }
                }
            }
            self.entries = e;
            Some(v)
        } else {
            proof {
                if self@.contains_key(k) {
                    let i = choose|i: int|
                        0 <= i < self.entries_spec().len() && self.entries_spec()[i].0 == k;
                    assert(i != p);
                }
                assert(entries_map(old_e) =~= entries_map(old_e).remove(k));
            }
            None
        }
    }
}

/// Growing a sorted prefix by one entry inserts that entry into its map.
pub proof fn lemma_entries_map_prefix(s: Seq<(u32, u8)>, i: int)
    requires
        sorted_keys(s),
        0 <= i < s.len(),
    ensures
        entries_map(s.take(i + 1)) == entries_map(s.take(i)).insert(s[i].0, s[i].1),
        sorted_keys(s.take(i)),
{
    let a = s.take(i);
    let b = s.take(i + 1);
    assert(sorted_keys(b));
    assert forall|k: u32| #[trigger] has_key(b, k) == (has_key(a, k) || k == s[i].0) by {
        if has_key(b, k) {
            let j = choose|j: int| 0 <= j < b.len() && b[j].0 == k;
            if j < i {
                assert(a[j].0 == k);
            }
        }
        if has_key(a, k) {
            let j = choose|j: int| 0 <= j < a.len() && a[j].0 == k;
            assert(b[j].0 == k);
        }
        assert(b[i].0 == s[i].0);
    }
    assert forall|k: u32| has_key(b, k) implies #[trigger] entries_map(b)[k] == entries_map(
        a,
    ).insert(s[i].0, s[i].1)[k] by {
        let j = choose|j: int| 0 <= j < b.len() && b[j].0 == k;
        lemma_entries_map_at(b, j);
        if j < i {
            lemma_entries_map_at(a, j);
        }
    }
    assert(entries_map(b) =~= entries_map(a).insert(s[i].0, s[i].1));
}

impl ByteMap {
    /// Insert every entry of `other`, overriding entries with the same key.
    pub fn extend_from(&mut self, other: &ByteMap)
        ensures
            final(self)@ == old(self)@.union_prefer_right(other@),
    {
        let n = other.len();
        let ghost s = other.entries_spec();
        let ghost start = self@;
        let mut i: usize = 0;
        proof {
            assert(s.take(0) =~= Seq::<(u32, u8)>::empty());
            assert(entries_map(s.take(0)) =~= Map::<u32, u8>::empty());
            assert(start.union_prefer_right(Map::<u32, u8>::empty()) =~= start);
        }
        while i < n
            invariant
                n == s.len(),
                i <= n,
                s == other.entries_spec(),
                sorted_keys(s),
                other@ == entries_map(s),
                self@ == start.union_prefer_right(entries_map(s.take(i as int))),
            decreases n - i,
        {
            let (k, v) = other.entry(i);
            self.insert(k, v);
            proof {
                lemma_entries_map_prefix(s, i as int);
                assert(start.union_prefer_right(entries_map(s.take(i + 1))) =~= start.union_prefer_right(
                    entries_map(s.take(i as int)),
                ).insert(k, v));
            }
            i += 1;
        }
        proof {
            assert(s.take(n as int) =~= s);
        }
    }
}

impl Clone for ByteMap {
    fn clone(&self) -> (r: Self)
        ensures
            r@ == self@,
            r.entries_spec() == self.entries_spec(),
    {
        proof {
            use_type_invariant(self);
        }
        let mut e: Vec<(u32, u8)> = Vec::new();
        let mut i: usize = 0;
        while i < self.entries.len()
            invariant
                i <= self.entries@.len(),
                e@ == self.entries@.subrange(0, i as int),
            decreases self.entries@.len() - i,
        {
            e.push(self.entries[i]);
            i += 1;
            assert(e@ =~= self.entries@.subrange(0, i as int));
        }
        assert(e@ =~= self.entries@);
        ByteMap { entries: e }
    }
}

impl Default for ByteMap {
    fn default() -> (r: Self)
        ensures
            r@ == Map::<u32, u8>::empty(),
    {
        ByteMap::new()
    }
}

/// A sorted entry sequence: every entry is in its map, every key of the
/// map is an entry, and the map has one key per entry.
pub proof fn lemma_entries_facts(s: Seq<(u32, u8)>)
    requires
        sorted_keys(s),
    ensures
        forall|i: int|
            0 <= i < s.len() ==> #[trigger] entries_map(s).contains_key(s[i].0) && entries_map(
                s,
            )[s[i].0] == s[i].1,
        forall|k: u32| #[trigger]
            entries_map(s).contains_key(k) ==> exists|i: int| 0 <= i < s.len() && s[i].0 == k,
        entries_map(s).dom().finite(),
        entries_map(s).len() == s.len(),
{
    assert forall|i: int| 0 <= i < s.len() implies #[trigger] entries_map(s).contains_key(s[i].0)
        && entries_map(s)[s[i].0] == s[i].1 by {
        lemma_entries_map_at(s, i);
    }
    lemma_dom_finite_len(s);
}

proof fn lemma_dom_finite_len(s: Seq<(u32, u8)>)
    requires
        sorted_keys(s),
    ensures
        entries_map(s).dom().finite(),
        entries_map(s).len() == s.len(),
    decreases s.len(),
{
    if s.len() == 0 {
        assert(entries_map(s).dom() =~= Set::<u32>::empty());
    } else {
        let t = s.drop_last();
        lemma_dom_finite_len(t);
        let k = s.last().0;
        assert(entries_map(s).dom() =~= entries_map(t).dom().insert(k)) by {
            assert forall|kk: u32| #[trigger] has_key(s, kk) == (has_key(t, kk) || kk == k) by {
                if has_key(s, kk) {
                    let i = choose|i: int| 0 <= i < s.len() && s[i].0 == kk;
                    if i < s.len() - 1 {
                        assert(t[i].0 == kk);
                    }
                }
                if has_key(t, kk) {
                    let i = choose|i: int| 0 <= i < t.len() && t[i].0 == kk;
                    assert(s[i].0 == kk);
                }
                assert(s[s.len() - 1].0 == k);
            }
        }
        assert(!entries_map(t).dom().contains(k)) by {
            if has_key(t, k) {
                let i = choose|i: int| 0 <= i < t.len() && t[i].0 == k;
                assert(s[i].0 < s[s.len() - 1].0);
            }
        }
    }
}

} // verus!
