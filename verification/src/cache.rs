//! The render loop's cache of fetched test steps, keyed by report id.
//!
//! A plain vector of entries with pairwise distinct keys; its mathematical
//! value is the map from report id to the cached list of steps.

use vstd::prelude::*;

use crate::data::{TestStep, TestStepView};

verus! {

/// One cached list of steps, under the id of the report it belongs to.
#[derive(Clone, Debug, PartialEq, Eq)]
pub struct CacheEntry {
    pub report_id: i32,
    pub steps: Vec<TestStep>,
}

/// The key of the entry at position `i`.
pub open spec fn key_at(s: Seq<CacheEntry>, i: int) -> int {
    s[i].report_id as int
}

/// Whether some entry carries the key `k`.
pub open spec fn has_key(s: Seq<CacheEntry>, k: int) -> bool {
    exists|i: int| 0 <= i < s.len() && key_at(s, i) == k
}

/// The position of the entry carrying `k` (meaningful when the keys are
/// distinct and `k` occurs).
pub open spec fn index_of(s: Seq<CacheEntry>, k: int) -> int {
    choose|i: int| 0 <= i < s.len() && key_at(s, i) == k
}

/// Pairwise distinct keys.
pub open spec fn distinct_keys(s: Seq<CacheEntry>) -> bool {
    forall|i: int, j: int| 0 <= i < j < s.len() ==> key_at(s, i) != key_at(s, j)
}

/// The map an entry sequence stands for.
pub open spec fn cache_view(s: Seq<CacheEntry>) -> Map<int, Seq<TestStepView>> {
    Map::new(|k: int| has_key(s, k), |k: int| s[index_of(s, k)].steps.deep_view())
}

proof fn lemma_index_of_is(s: Seq<CacheEntry>, k: int, i: int)
    requires
        distinct_keys(s),
        0 <= i < s.len(),
        key_at(s, i) == k,
    ensures
        has_key(s, k),
        index_of(s, k) == i,
{
    assert(has_key(s, k));
    let j = index_of(s, k);
    assert(0 <= j < s.len() && key_at(s, j) == k);
    if i < j {
        assert(key_at(s, i) != key_at(s, j));
    } else if j < i {
        assert(key_at(s, j) != key_at(s, i));
    }
}

proof fn lemma_update_view(s0: Seq<CacheEntry>, s1: Seq<CacheEntry>, i: int, e: CacheEntry)
    requires
        distinct_keys(s0),
        0 <= i < s0.len(),
        key_at(s0, i) == e.report_id as int,
        s1 == s0.update(i, e),
    ensures
        distinct_keys(s1),
        cache_view(s1) == cache_view(s0).insert(e.report_id as int, e.steps.deep_view()),
{
    let key = e.report_id as int;
    assert forall|a: int| 0 <= a < s1.len() implies #[trigger] key_at(s1, a) == key_at(s0, a) by {
        if a != i {
            assert(s1[a] == s0[a]);
        }
    }
    assert(distinct_keys(s1));
    let m1 = cache_view(s1);
    let mt = cache_view(s0).insert(key, e.steps.deep_view());
    assert forall|k: int| #[trigger] m1.contains_key(k) implies mt.contains_key(k) && m1[k]
        == mt[k] by {
        let a = choose|a: int| 0 <= a < s1.len() && key_at(s1, a) == k;
        assert(key_at(s0, a) == k);
        assert(has_key(s0, k));
        lemma_index_of_is(s1, k, a);
        lemma_index_of_is(s0, k, a);
        if k == key {
            lemma_index_of_is(s0, k, i);
            assert(a == i);
            assert(s1[a] == e);
        } else {
            assert(a != i);
            assert(s1[a] == s0[a]);
        }
    }
    assert forall|k: int| #[trigger] mt.contains_key(k) implies m1.contains_key(k) by {
        if k == key {
            assert(key_at(s1, i) == k);
            assert(has_key(s1, k));
        } else {
            let a = choose|a: int| 0 <= a < s0.len() && key_at(s0, a) == k;
            assert(key_at(s1, a) == k);
            assert(has_key(s1, k));
        }
    }
    assert(m1 =~= mt);
}

proof fn lemma_push_view(s0: Seq<CacheEntry>, s1: Seq<CacheEntry>, e: CacheEntry)
    requires
        distinct_keys(s0),
        !has_key(s0, e.report_id as int),
        s1 == s0.push(e),
    ensures
        distinct_keys(s1),
        cache_view(s1) == cache_view(s0).insert(e.report_id as int, e.steps.deep_view()),
{
    let key = e.report_id as int;
    let last = s0.len() as int;
    assert(s1.len() == last + 1);
    assert forall|a: int, b: int| 0 <= a < b < s1.len() implies key_at(s1, a) != key_at(
        s1,
        b,
    ) by {
        assert(s1[a] == s0[a]);
        assert(key_at(s1, a) == key_at(s0, a));
        if b < last {
            assert(s1[b] == s0[b]);
            assert(key_at(s1, b) == key_at(s0, b));
            assert(key_at(s0, a) != key_at(s0, b));
        } else {
            assert(s1[b] == e);
            assert(key_at(s1, b) == key);
            if key_at(s0, a) == key {
                assert(has_key(s0, key));
            }
        }
    }
    let m1 = cache_view(s1);
    let mt = cache_view(s0).insert(key, e.steps.deep_view());
    assert forall|k: int| #[trigger] m1.contains_key(k) implies mt.contains_key(k) && m1[k]
        == mt[k] by {
        let a = choose|a: int| 0 <= a < s1.len() && key_at(s1, a) == k;
        lemma_index_of_is(s1, k, a);
        if a == last {
            assert(s1[a] == e);
            assert(k == key);
        } else {
            assert(s1[a] == s0[a]);
            assert(key_at(s0, a) == k);
            assert(k != key);
            lemma_index_of_is(s0, k, a);
        }
    }
    assert forall|k: int| #[trigger] mt.contains_key(k) implies m1.contains_key(k) by {
        if k == key {
            assert(s1[last] == e);
            assert(key_at(s1, last) == k);
            assert(has_key(s1, k));
        } else {
            let a = choose|a: int| 0 <= a < s0.len() && key_at(s0, a) == k;
            assert(s1[a] == s0[a]);
            assert(key_at(s1, a) == k);
            assert(has_key(s1, k));
        }
    }
    assert(m1 =~= mt);
}

/// The cache of fetched test steps, one entry per report id.
#[derive(Clone, Debug, PartialEq, Eq)]
pub struct StepCache {
    pub entries: Vec<CacheEntry>,
}

impl View for StepCache {
    type V = Map<int, Seq<TestStepView>>;

    open spec fn view(&self) -> Map<int, Seq<TestStepView>> {
        cache_view(self.entries@)
    }
}

impl StepCache {
    /// The keys are pairwise distinct, so each report id names at most one
    /// cached list.
    pub open spec fn wf(&self) -> bool {
        distinct_keys(self.entries@)
    }

    /// An empty cache.
    pub fn new() -> (c: StepCache)
        ensures
            c.wf(),
            c@ == Map::<int, Seq<TestStepView>>::empty(),
    {
        let c = StepCache { entries: Vec::new() };
        proof {
            assert(c@ =~= Map::<int, Seq<TestStepView>>::empty());
        }
        c
    }

    /// The position of the entry for `report_id`, if one exists.
    fn find_index(&self, report_id: i32) -> (r: Option<usize>)
        ensures
            match r {
                Option::Some(i) => i < self.entries@.len() && key_at(self.entries@, i as int)
                    == report_id as int,
                Option::None => !has_key(self.entries@, report_id as int),
            },
    {
        let n = self.entries.len();
        let mut i: usize = 0;
        while i < n
            invariant
                n == self.entries@.len(),
                0 <= i <= n,
                forall|j: int| 0 <= j < i ==> key_at(self.entries@, j) != report_id as int,
            decreases n - i,
        {
            if self.entries[i].report_id == report_id {
                return Option::Some(i);
            }
            i += 1;
        }
        Option::None
    }

    /// The cached steps for `report_id`, if any were fetched.
    pub fn get(&self, report_id: i32) -> (r: Option<&Vec<TestStep>>)
        requires
            self.wf(),
        ensures
            match r {
                Option::Some(steps) => self@.contains_key(report_id as int) && steps.deep_view()
                    == self@[report_id as int],
                Option::None => !self@.contains_key(report_id as int),
            },
    {
        match self.find_index(report_id) {
            Option::Some(i) => {
                proof {
                    lemma_index_of_is(self.entries@, report_id as int, i as int);
                }
                Option::Some(&self.entries[i].steps)
            },
            Option::None => Option::None,
        }
    }

    /// Replaces (or creates) the cached list for `report_id`.
    pub fn set_steps(&mut self, report_id: i32, steps: Vec<TestStep>)
        requires
            old(self).wf(),
        ensures
            final(self).wf(),
            final(self)@ == old(self)@.insert(report_id as int, steps.deep_view()),
    {
        let ghost s0 = self.entries@;
        let entry = CacheEntry { report_id, steps };
        let ghost entry_snapshot = entry;
        match self.find_index(report_id) {
            Option::Some(i) => {
                self.entries.set(i, entry);
                proof {
                    lemma_update_view(s0, self.entries@, i as int, entry_snapshot);
                }
            },
            Option::None => {
                self.entries.push(entry);
                proof {
                    lemma_push_view(s0, self.entries@, entry_snapshot);
                }
            },
        }
    }
}

} // verus!
