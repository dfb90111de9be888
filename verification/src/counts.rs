//! The ordered counting structure behind `Min`/`Max` sliding-window memory:
//! a value-to-multiplicity table kept sorted by value, so that the current
//! minimum and maximum survive the removal of any bin. Insertion order and
//! eviction order need not agree with value order, which is why a plain
//! running extremum would not do.

use vstd::prelude::*;
use vstd::pervasive::VecAdditionalExecFns;

verus! {

/// A multiset of 64-bit values, held as (value, multiplicity) entries
/// sorted strictly by value.
#[derive(Clone, PartialEq, Eq, Debug)]
pub struct SortedCounts {
    pub entries: Vec<(i64, u64)>,
}

/// The mathematical reading of one entry.
pub open spec fn entry_model(e: (i64, u64)) -> (int, int) {
    (e.0 as int, e.1 as int)
}

impl View for SortedCounts {
    type V = Seq<(int, int)>;

    open spec fn view(&self) -> Seq<(int, int)> {
        self.entries@.map_values(|e: (i64, u64)| entry_model(e))
    }
}

/// Entries are sorted strictly by value and every multiplicity is positive.
pub open spec fn sorted_unique(s: Seq<(int, int)>) -> bool {
    &&& forall|i: int, j: int| 0 <= i < j < s.len() ==> (#[trigger] s[i]).0 < (#[trigger] s[j]).0
    &&& forall|i: int| 0 <= i < s.len() ==> (#[trigger] s[i]).1 >= 1
}

/// The index of the first entry whose value is at least `v`; the length if
/// there is none.
pub open spec fn first_at_least(s: Seq<(int, int)>, v: int) -> int
    decreases s.len(),
{
    if s.len() == 0 {
        0
    } else if s[0].0 >= v {
        0
    } else {
        1 + first_at_least(s.drop_first(), v)
    }
}

/// Adds one occurrence of `v`: bumps its multiplicity, or inserts a fresh
/// entry at the sorted position.
pub open spec fn spec_increment(s: Seq<(int, int)>, v: int) -> Seq<(int, int)> {
    let i = first_at_least(s, v);
    if i < s.len() && s[i].0 == v {
        s.update(i, (v, s[i].1 + 1))
    } else {
        s.insert(i, (v, 1))
    }
}

/// Removes one occurrence of `v`: lowers its multiplicity, deleting the
/// entry when it reaches zero. A value that is absent is left untouched.
pub open spec fn spec_decrement(s: Seq<(int, int)>, v: int) -> Seq<(int, int)> {
    let i = first_at_least(s, v);
    if i < s.len() && s[i].0 == v {
        if s[i].1 <= 1 {
            s.remove(i)
        } else {
            s.update(i, (v, s[i].1 - 1))
        }
    } else {
        s
    }
}

/// Everything strictly before [`first_at_least`] is below `v`, and the
/// entry there, if any, is at least `v`.
pub proof fn lemma_first_at_least_props(s: Seq<(int, int)>, v: int)
    ensures
        0 <= first_at_least(s, v) <= s.len(),
        forall|j: int| 0 <= j < first_at_least(s, v) ==> (#[trigger] s[j]).0 < v,
        first_at_least(s, v) < s.len() ==> s[first_at_least(s, v)].0 >= v,
    decreases s.len(),
{
    if s.len() > 0 && s[0].0 < v {
        lemma_first_at_least_props(s.drop_first(), v);
        assert(forall|j: int|
            0 <= j < first_at_least(s.drop_first(), v) ==> (#[trigger] s.drop_first()[j]).0 < v);
        assert forall|j: int| 0 <= j < first_at_least(s, v) implies (#[trigger] s[j]).0 < v by {
            if j > 0 {
                assert(s[j] == s.drop_first()[j - 1]);
            }
        }
    }
}

/// Any index with those two properties is [`first_at_least`].
pub proof fn lemma_first_at_least_unique(s: Seq<(int, int)>, v: int, i: int)
    requires
        0 <= i <= s.len(),
        forall|j: int| 0 <= j < i ==> (#[trigger] s[j]).0 < v,
        i < s.len() ==> s[i].0 >= v,
    ensures
        first_at_least(s, v) == i,
    decreases s.len(),
{
    if i == 0 {
    } else {
        assert(s[0].0 < v);
        assert forall|j: int| 0 <= j < i - 1 implies (#[trigger] s.drop_first()[j]).0 < v by {
            assert(s.drop_first()[j] == s[j + 1]);
        }
        if i - 1 < s.drop_first().len() {
            assert(s.drop_first()[i - 1] == s[i]);
        }
        lemma_first_at_least_unique(s.drop_first(), v, i - 1);
    }
}

/// Adding an occurrence keeps the table sorted with positive
/// multiplicities.
pub proof fn lemma_increment_sorted(s: Seq<(int, int)>, v: int)
    requires
        sorted_unique(s),
    ensures
        sorted_unique(spec_increment(s, v)),
{
    let i = first_at_least(s, v);
    lemma_first_at_least_props(s, v);
    if i < s.len() && s[i].0 == v {
    } else {
        s.insert_ensures(i, (v, 1));
        let t = s.insert(i, (v, 1));
        assert forall|a: int, b: int| 0 <= a < b < t.len() implies (#[trigger] t[a]).0 < (
        #[trigger] t[b]).0 by {
            if a < i && b == i {
                assert(t[a] == s[a]);
            } else if a == i && b > i {
                assert(t[b] == s[b - 1]);
            } else if a < i && b > i {
                assert(t[a] == s[a]);
                assert(t[b] == s[b - 1]);
            } else if a < i && b < i {
                assert(t[a] == s[a]);
                assert(t[b] == s[b]);
            } else {
                assert(t[a] == s[a - 1]);
                assert(t[b] == s[b - 1]);
            }
        }
        assert forall|a: int| 0 <= a < t.len() implies (#[trigger] t[a]).1 >= 1 by {
            if a < i {
                assert(t[a] == s[a]);
            } else if a > i {
                assert(t[a] == s[a - 1]);
            }
        }
    }
}

/// Removing an occurrence keeps the table sorted with positive
/// multiplicities.
pub proof fn lemma_decrement_sorted(s: Seq<(int, int)>, v: int)
    requires
        sorted_unique(s),
    ensures
        sorted_unique(spec_decrement(s, v)),
{
    let i = first_at_least(s, v);
    lemma_first_at_least_props(s, v);
    if i < s.len() && s[i].0 == v && s[i].1 <= 1 {
        s.remove_ensures(i);
        let t = s.remove(i);
        assert forall|a: int, b: int| 0 <= a < b < t.len() implies (#[trigger] t[a]).0 < (
        #[trigger] t[b]).0 by {
            if a < i && b < i {
                assert(t[a] == s[a]);
                assert(t[b] == s[b]);
            } else if a < i && b >= i {
                assert(t[a] == s[a]);
                assert(t[b] == s[b + 1]);
            } else {
                assert(t[a] == s[a + 1]);
                assert(t[b] == s[b + 1]);
            }
        }
        assert forall|a: int| 0 <= a < t.len() implies (#[trigger] t[a]).1 >= 1 by {
            if a < i {
                assert(t[a] == s[a]);
            } else {
                assert(t[a] == s[a + 1]);
            }
        }
    }
}

/// Removing an occurrence right after adding it restores the table exactly,
/// whatever the value: the add/remove inverse law of the ordered memory.
pub proof fn lemma_increment_then_decrement(s: Seq<(int, int)>, v: int)
    requires
        sorted_unique(s),
    ensures
        spec_decrement(spec_increment(s, v), v) == s,
{
    let i = first_at_least(s, v);
    lemma_first_at_least_props(s, v);
    if i < s.len() && s[i].0 == v {
        let t = s.update(i, (v, s[i].1 + 1));
        lemma_first_at_least_unique(t, v, i);
        assert(t.update(i, (v, t[i].1 - 1)) =~= s);
    } else {
        s.insert_ensures(i, (v, 1));
        let t = s.insert(i, (v, 1));
        lemma_first_at_least_unique(t, v, i);
        t.remove_ensures(i);
        assert(t.remove(i) =~= s);
    }
}

/// Updating one vector entry updates the same position of the model.
proof fn lemma_model_update(s: Seq<(i64, u64)>, i: int, x: (i64, u64))
    requires
        0 <= i < s.len(),
    ensures
        s.update(i, x).map_values(|e: (i64, u64)| entry_model(e)) == s.map_values(
            |e: (i64, u64)| entry_model(e),
        ).update(i, entry_model(x)),
{
    assert(s.update(i, x).map_values(|e: (i64, u64)| entry_model(e)) =~= s.map_values(
        |e: (i64, u64)| entry_model(e),
    ).update(i, entry_model(x)));
}

/// Inserting a vector entry inserts its model at the same position.
proof fn lemma_model_insert(s: Seq<(i64, u64)>, i: int, x: (i64, u64))
    requires
        0 <= i <= s.len(),
    ensures
        s.insert(i, x).map_values(|e: (i64, u64)| entry_model(e)) == s.map_values(
            |e: (i64, u64)| entry_model(e),
        ).insert(i, entry_model(x)),
{
    s.insert_ensures(i, x);
    s.map_values(|e: (i64, u64)| entry_model(e)).insert_ensures(i, entry_model(x));
    assert(s.insert(i, x).map_values(|e: (i64, u64)| entry_model(e)) =~= s.map_values(
        |e: (i64, u64)| entry_model(e),
    ).insert(i, entry_model(x)));
}

/// Removing a vector entry removes the same position of the model.
proof fn lemma_model_remove(s: Seq<(i64, u64)>, i: int)
    requires
        0 <= i < s.len(),
    ensures
        s.remove(i).map_values(|e: (i64, u64)| entry_model(e)) == s.map_values(
            |e: (i64, u64)| entry_model(e),
        ).remove(i),
{
    s.remove_ensures(i);
    s.map_values(|e: (i64, u64)| entry_model(e)).remove_ensures(i);
    assert(s.remove(i).map_values(|e: (i64, u64)| entry_model(e)) =~= s.map_values(
        |e: (i64, u64)| entry_model(e),
    ).remove(i));
}

impl SortedCounts {
    pub open spec fn wf(self) -> bool {
        sorted_unique(self@)
    }

    /// The empty table.
    pub fn new() -> (r: SortedCounts)
        ensures
            r@ == Seq::<(int, int)>::empty(),
            r.wf(),
    {
        SortedCounts { entries: Vec::new() }
    }

    /// The position at which `v` sits or would be inserted.
    fn find_at_least(&self, v: i64) -> (i: usize)
        ensures
            i == first_at_least(self@, v as int),
    {
        let mut i: usize = 0;
        while i < self.entries.len() && self.entries[i].0 < v
            invariant
                0 <= i <= self.entries.len(),
                forall|j: int| 0 <= j < i ==> (#[trigger] self@[j]).0 < v as int,
            decreases self.entries.len() - i,
        {
            i += 1;
        }
        proof {
            lemma_first_at_least_unique(self@, v as int, i as int);
        }
        i
    }

    /// Adds one occurrence of `v`.
    pub fn increment(&mut self, v: i64)
        requires
            old(self).wf(),
            forall|j: int| 0 <= j < old(self)@.len() ==> (#[trigger] old(self)@[j]).1 < u64::MAX,
        ensures
            final(self)@ == spec_increment(old(self)@, v as int),
            final(self).wf(),
    {
        proof {
            lemma_first_at_least_props(self@, v as int);
            lemma_increment_sorted(self@, v as int);
        }
        let i = self.find_at_least(v);
        if i < self.entries.len() && self.entries[i].0 == v {
            let m = self.entries[i].1;
            proof {
                lemma_model_update(self.entries@, i as int, (v, (m + 1) as u64));
            }
            self.entries.set(i, (v, m + 1));
        } else {
            proof {
                lemma_model_insert(self.entries@, i as int, (v, 1u64));
            }
            self.entries.insert(i, (v, 1));
        }
    }

    /// Removes one occurrence of `v`; `v` must be present.
    pub fn decrement(&mut self, v: i64)
        requires
            old(self).wf(),
            first_at_least(old(self)@, v as int) < old(self)@.len(),
            old(self)@[first_at_least(old(self)@, v as int)].0 == v as int,
        ensures
            final(self)@ == spec_decrement(old(self)@, v as int),
            final(self).wf(),
    {
        proof {
            lemma_first_at_least_props(self@, v as int);
            lemma_decrement_sorted(self@, v as int);
        }
        let i = self.find_at_least(v);
        let m = self.entries[i].1;
        if m <= 1 {
            proof {
                lemma_model_remove(self.entries@, i as int);
            }
            self.entries.remove(i);
        } else {
            proof {
                lemma_model_update(self.entries@, i as int, (v, (m - 1) as u64));
            }
            self.entries.set(i, (v, m - 1));
        }
    }

    /// Whether the table holds any value.
    pub fn is_empty(&self) -> (r: bool)
        ensures
            r <==> self@.len() == 0,
    {
        self.entries.len() == 0
    }

    /// The smallest value present.
    pub fn min_key(&self) -> (r: i64)
        requires
            self@.len() > 0,
            self.wf(),
        ensures
            r as int == self@[0].0,
            forall|j: int| 0 <= j < self@.len() ==> r as int <= (#[trigger] self@[j]).0,
    {
        proof {
            assert forall|j: int| 0 <= j < self@.len() implies self@[0].0 <= (
            #[trigger] self@[j]).0 by {
                if j > 0 {
                    assert(self@[0].0 < self@[j].0);
                }
            }
        }
        self.entries[0].0
    }

    /// The largest value present.
    pub fn max_key(&self) -> (r: i64)
        requires
            self@.len() > 0,
            self.wf(),
        ensures
            r as int == self@[self@.len() - 1].0,
            forall|j: int| 0 <= j < self@.len() ==> r as int >= (#[trigger] self@[j]).0,
    {
        proof {
            let n = self@.len() - 1;
            assert forall|j: int| 0 <= j < self@.len() implies self@[n].0 >= (
            #[trigger] self@[j]).0 by {
                if j < n {
                    assert(self@[j].0 < self@[n].0);
                }
            }
        }
        self.entries[self.entries.len() - 1].0
    }
}

/// The number of occurrences the table holds in all: the sum of its
/// multiplicities.
pub open spec fn mult_sum(s: Seq<(int, int)>) -> int
    decreases s.len(),
{
    if s.len() == 0 {
        0
    } else {
        mult_sum(s.drop_last()) + s.last().1
    }
}

/// Updating an entry changes the sum by the difference of multiplicities.
pub proof fn lemma_mult_sum_update(s: Seq<(int, int)>, i: int, x: (int, int))
    requires
        0 <= i < s.len(),
    ensures
        mult_sum(s.update(i, x)) == mult_sum(s) - s[i].1 + x.1,
    decreases s.len(),
{
    let t = s.update(i, x);
    if i == s.len() - 1 {
        assert(t.drop_last() =~= s.drop_last());
    } else {
        assert(t.drop_last() =~= s.drop_last().update(i, x));
        lemma_mult_sum_update(s.drop_last(), i, x);
    }
}

/// Inserting an entry adds its multiplicity to the sum.
pub proof fn lemma_mult_sum_insert(s: Seq<(int, int)>, i: int, x: (int, int))
    requires
        0 <= i <= s.len(),
    ensures
        mult_sum(s.insert(i, x)) == mult_sum(s) + x.1,
    decreases s.len(),
{
    let t = s.insert(i, x);
    s.insert_ensures(i, x);
    if i == s.len() {
        assert(t.drop_last() =~= s);
    } else {
        assert(t.drop_last() =~= s.drop_last().insert(i, x));
        lemma_mult_sum_insert(s.drop_last(), i, x);
        assert(t.last() == s.last());
    }
}

/// Removing an entry subtracts its multiplicity from the sum.
pub proof fn lemma_mult_sum_remove(s: Seq<(int, int)>, i: int)
    requires
        0 <= i < s.len(),
    ensures
        mult_sum(s.remove(i)) == mult_sum(s) - s[i].1,
    decreases s.len(),
{
    let t = s.remove(i);
    s.remove_ensures(i);
    if i == s.len() - 1 {
        assert(t =~= s.drop_last());
    } else {
        assert(t.drop_last() =~= s.drop_last().remove(i));
        lemma_mult_sum_remove(s.drop_last(), i);
        assert(t.last() == s.last());
    }
}

/// Whether the table holds at least one occurrence of `v`.
pub open spec fn contains_key(s: Seq<(int, int)>, v: int) -> bool {
    let i = first_at_least(s, v);
    i < s.len() && s[i].0 == v
}

/// Adding an occurrence raises the total number of occurrences by one.
pub proof fn lemma_mult_sum_increment(s: Seq<(int, int)>, v: int)
    ensures
        mult_sum(spec_increment(s, v)) == mult_sum(s) + 1,
{
    lemma_first_at_least_props(s, v);
    let i = first_at_least(s, v);
    if i < s.len() && s[i].0 == v {
        lemma_mult_sum_update(s, i, (v, s[i].1 + 1));
    } else {
        lemma_mult_sum_insert(s, i, (v, 1));
    }
}

/// Removing a present occurrence lowers the total number of occurrences by
/// one.
pub proof fn lemma_mult_sum_decrement(s: Seq<(int, int)>, v: int)
    requires
        sorted_unique(s),
        contains_key(s, v),
    ensures
        mult_sum(spec_decrement(s, v)) == mult_sum(s) - 1,
{
    lemma_first_at_least_props(s, v);
    let i = first_at_least(s, v);
    if s[i].1 <= 1 {
        lemma_mult_sum_remove(s, i);
    } else {
        lemma_mult_sum_update(s, i, (v, s[i].1 - 1));
    }
}

} // verus!
