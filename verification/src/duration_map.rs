//! Finite map from string keys to accumulated millisecond counts.
//!
//! Stored as an association list with unique keys; viewed in contracts as a
//! mathematical `Map<Seq<char>, u64>`.  Used for the debouncer's
//! last-accepted-instant table and for the daily per-key duration totals.

use vstd::prelude::*;

verus! {

#[derive(Debug)]
pub struct DurationMap {
    entries: Vec<(String, u64)>,
}

spec fn entry_map(s: Seq<(String, u64)>) -> Map<Seq<char>, u64>
    decreases s.len(),
{
    if s.len() == 0 {
        Map::empty()
    } else {
        entry_map(s.drop_last()).insert(s.last().0@, s.last().1)
    }
}

spec fn entry_sum(s: Seq<(String, u64)>) -> int
    decreases s.len(),
{
    if s.len() == 0 {
        0
    } else {
        entry_sum(s.drop_last()) + s.last().1
    }
}

spec fn unique_keys(s: Seq<(String, u64)>) -> bool {
    forall|i: int, j: int|
        0 <= i < j < s.len() ==> (#[trigger] s[i]).0@ != (#[trigger] s[j]).0@
}

/// `m` with `d` more milliseconds on key `k` (starting from zero when the
/// key is absent).
pub open spec fn bumped(m: Map<Seq<char>, u64>, k: Seq<char>, d: u64) -> Map<Seq<char>, u64> {
    m.insert(k, ((if m.contains_key(k) { m[k] } else { 0u64 }) + d) as u64)
}

proof fn lemma_entry_map_contains(s: Seq<(String, u64)>, k: Seq<char>)
    ensures
        entry_map(s).contains_key(k) <==> exists|i: int| 0 <= i < s.len() && (#[trigger] s[i]).0@ == k,
    decreases s.len(),
{
    if s.len() > 0 {
        lemma_entry_map_contains(s.drop_last(), k);
        if entry_map(s).contains_key(k) {
            if s.last().0@ == k {
                assert(s[s.len() - 1].0@ == k);
            } else {
                let i = choose|i: int| 0 <= i < s.drop_last().len() && (#[trigger] s.drop_last()[i]).0@ == k;
                assert(s[i].0@ == k);
            }
        }
        if exists|i: int| 0 <= i < s.len() && (#[trigger] s[i]).0@ == k {
            let i = choose|i: int| 0 <= i < s.len() && (#[trigger] s[i]).0@ == k;
            if i < s.len() - 1 {
                assert(s.drop_last()[i].0@ == k);
            }
        }
    }
}

proof fn lemma_entry_map_index(s: Seq<(String, u64)>, i: int)
    requires
        unique_keys(s),
        0 <= i < s.len(),
    ensures
        entry_map(s).contains_key(s[i].0@),
        entry_map(s)[s[i].0@] == s[i].1,
    decreases s.len(),
{
    if i == s.len() - 1 {
    } else {
        assert(unique_keys(s.drop_last()));
        lemma_entry_map_index(s.drop_last(), i);
        assert(s.drop_last()[i] == s[i]);
        assert(s[i].0@ != s.last().0@);
    }
}

proof fn lemma_entry_map_update(s: Seq<(String, u64)>, i: int, e: (String, u64))
    requires
        unique_keys(s),
        0 <= i < s.len(),
        e.0@ == s[i].0@,
    ensures
        entry_map(s.update(i, e)) =~= entry_map(s).insert(e.0@, e.1),
        unique_keys(s.update(i, e)),
    decreases s.len(),
{
    let t = s.update(i, e);
    assert(unique_keys(t));
    if i == s.len() - 1 {
        assert(t.drop_last() =~= s.drop_last());
        assert(t.last() == e);
    } else {
        assert(unique_keys(s.drop_last()));
        lemma_entry_map_update(s.drop_last(), i, e);
        assert(t.drop_last() =~= s.drop_last().update(i, e));
        assert(t.last() == s.last());
        assert(s[i].0@ != s.last().0@);
        assert(entry_map(t) =~= entry_map(s).insert(e.0@, e.1));
    }
}

proof fn lemma_entry_sum_update(s: Seq<(String, u64)>, i: int, e: (String, u64))
    requires
        0 <= i < s.len(),
    ensures
        entry_sum(s.update(i, e)) == entry_sum(s) - s[i].1 + e.1,
    decreases s.len(),
{
    let t = s.update(i, e);
    if i == s.len() - 1 {
        assert(t.drop_last() =~= s.drop_last());
    } else {
        lemma_entry_sum_update(s.drop_last(), i, e);
        assert(t.drop_last() =~= s.drop_last().update(i, e));
        assert(t.last() == s.last());
    }
}

proof fn lemma_entry_sum_nonneg(s: Seq<(String, u64)>)
    ensures
        entry_sum(s) >= 0,
    decreases s.len(),
{
    if s.len() > 0 {
        lemma_entry_sum_nonneg(s.drop_last());
    }
}

proof fn lemma_entry_value_le_sum(s: Seq<(String, u64)>, k: Seq<char>)
    requires
        entry_map(s).contains_key(k),
    ensures
        entry_map(s)[k] <= entry_sum(s),
    decreases s.len(),
{
    if s.len() > 0 {
        if s.last().0@ == k {
            lemma_entry_sum_nonneg(s.drop_last());
        } else {
            lemma_entry_value_le_sum(s.drop_last(), k);
        }
    }
}

impl View for DurationMap {
    type V = Map<Seq<char>, u64>;

    closed spec fn view(&self) -> Map<Seq<char>, u64> {
        entry_map(self.entries@)
    }
}

impl DurationMap {
    /// Well-formed: no key occurs twice in the backing list.
    pub closed spec fn wf(&self) -> bool {
        unique_keys(self.entries@)
    }

    /// Sum of all stored values, as a mathematical integer.
    pub closed spec fn total(&self) -> int {
        entry_sum(self.entries@)
    }

    pub fn new() -> (r: Self)
        ensures
            r.wf(),
            r@ == Map::<Seq<char>, u64>::empty(),
            r.total() == 0,
    {
        DurationMap { entries: Vec::new() }
    }

    fn find_index(&self, key: &String) -> (r: Option<usize>)
        ensures
            match r {
                Some(i) => i < self.entries@.len() && self.entries@[i as int].0@ == key@,
                None => forall|i: int|
                    0 <= i < self.entries@.len() ==> (#[trigger] self.entries@[i]).0@ != key@,
            },
    {
        let mut i: usize = 0;
        while i < self.entries.len()
            invariant
                i <= self.entries@.len(),
                forall|j: int| 0 <= j < i ==> (#[trigger] self.entries@[j]).0@ != key@,
            decreases self.entries@.len() - i,
        {
            if self.entries[i].0 == *key {
                return Some(i);
            }
            i += 1;
        }
        None
    }

    pub fn get(&self, key: &String) -> (r: Option<u64>)
        requires
            self.wf(),
        ensures
            r == (if self@.contains_key(key@) {
                Some(self@[key@])
            } else {
                None::<u64>
            }),
    {
        proof {
            lemma_entry_map_contains(self.entries@, key@);
        }
        match self.find_index(key) {
            Some(i) => {
                proof {
                    lemma_entry_map_index(self.entries@, i as int);
                }
                Some(self.entries[i].1)
            },
            None => None,
        }
    }

    /// Record `v` as the value for `key`, replacing any previous value.
    pub fn put(&mut self, key: &String, v: u64)
        requires
            old(self).wf(),
        ensures
            final(self).wf(),
            final(self)@ == old(self)@.insert(key@, v),
    {
        proof {
            lemma_entry_map_contains(self.entries@, key@);
        }
        match self.find_index(key) {
            Some(i) => {
                let ghost s = self.entries@;
                let e = &mut self.entries[i];
                let k2 = e.0.clone();
                *e = (k2, v);
                proof {
                    lemma_entry_map_update(s, i as int, (s[i as int].0, v));
                    assert(self.entries@ =~= s.update(i as int, (s[i as int].0, v)));
                    assert(self@ =~= old(self)@.insert(key@, v));
                }
            },
            None => {
                let ghost s = self.entries@;
                self.entries.push((key.clone(), v));
                proof {
                    assert(self.entries@.drop_last() =~= s);
                    assert(forall|i: int|
                        0 <= i < s.len() ==> (#[trigger] s[i]).0@ != key@);
                    assert(unique_keys(self.entries@));
                }
            },
        }
    }

    /// Accumulate `d` milliseconds onto `key`, starting from zero when the
    /// key is absent.
    pub fn add_to(&mut self, key: &String, d: u64)
        requires
            old(self).wf(),
            old(self)@.contains_key(key@) ==> old(self)@[key@] + d <= u64::MAX,
        ensures
            final(self).wf(),
            final(self)@ == bumped(old(self)@, key@, d),
            final(self).total() == old(self).total() + d,
    {
        proof {
            lemma_entry_map_contains(self.entries@, key@);
        }
        match self.find_index(key) {
            Some(i) => {
                let ghost s = self.entries@;
                proof {
                    lemma_entry_map_index(s, i as int);
                }
                let e = &mut self.entries[i];
                let k2 = e.0.clone();
                let v2 = e.1 + d;
                *e = (k2, v2);
                proof {
                    lemma_entry_map_update(s, i as int, (s[i as int].0, v2));
                    lemma_entry_sum_update(s, i as int, (s[i as int].0, v2));
                    assert(self.entries@ =~= s.update(i as int, (s[i as int].0, v2)));
                    assert(self@ =~= bumped(old(self)@, key@, d));
                }
            },
            None => {
                let ghost s = self.entries@;
                self.entries.push((key.clone(), d));
                proof {
                    assert(self.entries@.drop_last() =~= s);
                    assert(forall|i: int|
                        0 <= i < s.len() ==> (#[trigger] s[i]).0@ != key@);
                    assert(unique_keys(self.entries@));
                    assert(self@ =~= bumped(old(self)@, key@, d));
                }
            },
        }
    }

    /// Every stored value is bounded by the total of all values.
    pub proof fn lemma_value_le_total(&self, k: Seq<char>)
        requires
            self@.contains_key(k),
        ensures
            self@[k] <= self.total(),
    {
        lemma_entry_value_le_sum(self.entries@, k);
    }
}

} // verus!
