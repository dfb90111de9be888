//! Memory: the removable accumulator a sliding window keeps per field, so
//! that an expiring bin can be subtracted without rescanning the window.
//! `Count`, `Sum` and `Avg` are invertible and keep a running total;
//! `Min`/`Max` are not, so they keep the ordered counting structure of
//! [`crate::counts`] over the values contributed by live bins.

use vstd::prelude::*;

use crate::bins::{bin_shape_ok, Aggregator, AggResult, AggResultModel, BinModel, BinValue};
use crate::counts::{
    contains_key, mult_sum, sorted_unique, spec_decrement, spec_increment, SortedCounts,
};
use crate::counts::{
    lemma_increment_then_decrement, lemma_mult_sum_decrement, lemma_mult_sum_increment,
};

verus! {

/// One field's sliding-window memory. Every variant carries the number of
/// live bins folded into it; the nullable variants also count the bins that
/// carried a value, so the total can revert to null when the last of them
/// leaves.
#[derive(Clone, PartialEq, Eq, Debug)]
pub enum MemoryValue {
    Counting { bins: i64, total: i64 },
    Summing { bins: i64, total: i64 },
    OptSumming { bins: i64, present_bins: i64, total: Option<i64> },
    Averaging { bins: i64, count: i64, sum: i64 },
    OptAveraging { bins: i64, present_bins: i64, total: Option<(i64, i64)> },
    Ordered { bins: i64, counts: SortedCounts },
}

/// The mathematical model of one field's memory.
pub enum MemModel {
    Counting { bins: int, total: int },
    Summing { bins: int, total: int },
    OptSumming { bins: int, present_bins: int, total: Option<int> },
    Averaging { bins: int, count: int, sum: int },
    OptAveraging { bins: int, present_bins: int, total: Option<(int, int)> },
    Ordered { bins: int, entries: Seq<(int, int)> },
}

impl View for MemoryValue {
    type V = MemModel;

    open spec fn view(&self) -> MemModel {
        match *self {
            MemoryValue::Counting { bins, total } => MemModel::Counting {
                bins: bins as int,
                total: total as int,
            },
            MemoryValue::Summing { bins, total } => MemModel::Summing {
                bins: bins as int,
                total: total as int,
            },
            MemoryValue::OptSumming { bins, present_bins, total } => MemModel::OptSumming {
                bins: bins as int,
                present_bins: present_bins as int,
                total: match total {
                    Some(t) => Some(t as int),
                    None => None,
                },
            },
            MemoryValue::Averaging { bins, count, sum } => MemModel::Averaging {
                bins: bins as int,
                count: count as int,
                sum: sum as int,
            },
            MemoryValue::OptAveraging { bins, present_bins, total } => MemModel::OptAveraging {
                bins: bins as int,
                present_bins: present_bins as int,
                total: match total {
                    Some((c, s)) => Some((c as int, s as int)),
                    None => None,
                },
            },
            MemoryValue::Ordered { bins, counts } => MemModel::Ordered {
                bins: bins as int,
                entries: counts@,
            },
        }
    }
}

/// The model of an optional memory value.
pub open spec fn opt_mem_model(m: Option<MemoryValue>) -> Option<MemModel> {
    match m {
        Some(mv) => Some(mv@),
        None => None,
    }
}

/// Whether `m` has the memory shape of aggregator `agg` over an input of
/// the given nullability, with its internal invariant: present-bin counters
/// stay between zero and the live-bin count, a nullable total is present
/// exactly while some live bin carried a value, and the ordered structure
/// is sorted and holds one occurrence per live (present) bin.
pub open spec fn mem_shape_ok(agg: Aggregator, nullable: bool, m: MemModel) -> bool {
    match agg {
        Aggregator::Count => m matches MemModel::Counting { bins, total } && bins >= 0,
        Aggregator::Sum => if nullable {
            &&& m matches MemModel::OptSumming { bins, present_bins, total }
            &&& 0 <= m->OptSumming_present_bins <= m->OptSumming_bins
            &&& (m->OptSumming_total is Some <==> m->OptSumming_present_bins >= 1)
        } else {
            m matches MemModel::Summing { bins, total } && bins >= 0
        },
        Aggregator::Avg => if nullable {
            &&& m matches MemModel::OptAveraging { bins, present_bins, total }
            &&& 0 <= m->OptAveraging_present_bins <= m->OptAveraging_bins
            &&& (m->OptAveraging_total is Some <==> m->OptAveraging_present_bins >= 1)
        } else {
            m matches MemModel::Averaging { bins, count, sum } && bins >= 0 && count >= bins
        },
        Aggregator::Min | Aggregator::Max => {
            &&& m matches MemModel::Ordered { bins, entries }
            &&& sorted_unique(m->Ordered_entries)
            &&& if nullable {
                mult_sum(m->Ordered_entries) <= m->Ordered_bins
            } else {
                mult_sum(m->Ordered_entries) == m->Ordered_bins
            }
        },
        Aggregator::CountDistinct => false,
    }
}

/// Merges one bin into an optional prior memory, raising the live-bin
/// count; an absent memory starts fresh from the bin alone.
pub open spec fn spec_mem_add(
    agg: Aggregator,
    nullable: bool,
    cur: Option<MemModel>,
    b: BinModel,
) -> MemModel {
    match cur {
        None => spec_mem_add_fresh(agg, nullable, b),
        Some(m) => match (m, b) {
            (MemModel::Counting { bins, total }, BinModel::Count(c)) => MemModel::Counting {
                bins: bins + 1,
                total: total + c,
            },
            (MemModel::Summing { bins, total }, BinModel::Value(v)) => MemModel::Summing {
                bins: bins + 1,
                total: total + v,
            },
            (MemModel::OptSumming { bins, present_bins, total }, BinModel::OptValue(o)) => match o {
                Some(v) => MemModel::OptSumming {
                    bins: bins + 1,
                    present_bins: present_bins + 1,
                    total: match total {
                        Some(t) => Some(t + v),
                        None => Some(v),
                    },
                },
                None => MemModel::OptSumming { bins: bins + 1, present_bins, total },
            },
            (MemModel::Averaging { bins, count, sum }, BinModel::Pair(c, s)) => MemModel::Averaging {
                bins: bins + 1,
                count: count + c,
                sum: sum + s,
            },
            (MemModel::OptAveraging { bins, present_bins, total }, BinModel::OptPair(o)) => match o {
                Some((c, s)) => MemModel::OptAveraging {
                    bins: bins + 1,
                    present_bins: present_bins + 1,
                    total: match total {
                        Some((tc, ts)) => Some((tc + c, ts + s)),
                        None => Some((c, s)),
                    },
                },
                None => MemModel::OptAveraging { bins: bins + 1, present_bins, total },
            },
            (MemModel::Ordered { bins, entries }, BinModel::Value(v)) => MemModel::Ordered {
                bins: bins + 1,
                entries: spec_increment(entries, v),
            },
            (MemModel::Ordered { bins, entries }, BinModel::OptValue(o)) => match o {
                Some(v) => MemModel::Ordered { bins: bins + 1, entries: spec_increment(entries, v) },
                None => MemModel::Ordered { bins: bins + 1, entries },
            },
            _ => m,
        },
    }
}

/// The memory a single bin starts.
pub open spec fn spec_mem_add_fresh(agg: Aggregator, nullable: bool, b: BinModel) -> MemModel {
    match b {
        BinModel::Count(c) => MemModel::Counting { bins: 1, total: c },
        BinModel::Value(v) => if agg == Aggregator::Sum {
            MemModel::Summing { bins: 1, total: v }
        } else {
            MemModel::Ordered { bins: 1, entries: spec_increment(Seq::empty(), v) }
        },
        BinModel::OptValue(o) => if agg == Aggregator::Sum {
            MemModel::OptSumming {
                bins: 1,
                present_bins: if o is Some {
                    1
                } else {
                    0
                },
                total: o,
            }
        } else {
            MemModel::Ordered {
                bins: 1,
                entries: match o {
                    Some(v) => spec_increment(Seq::empty(), v),
                    None => Seq::empty(),
                },
            }
        },
        BinModel::Pair(c, s) => MemModel::Averaging { bins: 1, count: c, sum: s },
        BinModel::OptPair(o) => MemModel::OptAveraging {
            bins: 1,
            present_bins: if o is Some {
                1
            } else {
                0
            },
            total: o,
        },
    }
}

/// Subtracts one expiring bin out of a memory, lowering the live-bin
/// count. The caller pairs each removal with exactly one earlier addition
/// of the same bin; dropping the memory when no live bin remains is the
/// caller's decision.
pub open spec fn spec_mem_remove(
    agg: Aggregator,
    nullable: bool,
    m: MemModel,
    b: BinModel,
) -> MemModel {
    match (m, b) {
        (MemModel::Counting { bins, total }, BinModel::Count(c)) => MemModel::Counting {
            bins: bins - 1,
            total: total - c,
        },
        (MemModel::Summing { bins, total }, BinModel::Value(v)) => MemModel::Summing {
            bins: bins - 1,
            total: total - v,
        },
        (MemModel::OptSumming { bins, present_bins, total }, BinModel::OptValue(o)) => match o {
            Some(v) => MemModel::OptSumming {
                bins: bins - 1,
                present_bins: present_bins - 1,
                total: if present_bins - 1 == 0 {
                    None
                } else {
                    Some(total->0 - v)
                },
            },
            None => MemModel::OptSumming { bins: bins - 1, present_bins, total },
        },
        (MemModel::Averaging { bins, count, sum }, BinModel::Pair(c, s)) => MemModel::Averaging {
            bins: bins - 1,
            count: count - c,
            sum: sum - s,
        },
        (MemModel::OptAveraging { bins, present_bins, total }, BinModel::OptPair(o)) => match o {
            Some((c, s)) => MemModel::OptAveraging {
                bins: bins - 1,
                present_bins: present_bins - 1,
                total: if present_bins - 1 == 0 {
                    None
                } else {
                    match total {
                        Some((tc, ts)) => Some((tc - c, ts - s)),
                        None => None,
                    }
                },
            },
            None => MemModel::OptAveraging { bins: bins - 1, present_bins, total },
        },
        (MemModel::Ordered { bins, entries }, BinModel::Value(v)) => MemModel::Ordered {
            bins: bins - 1,
            entries: spec_decrement(entries, v),
        },
        (MemModel::Ordered { bins, entries }, BinModel::OptValue(o)) => match o {
            Some(v) => MemModel::Ordered { bins: bins - 1, entries: spec_decrement(entries, v) },
            None => MemModel::Ordered { bins: bins - 1, entries },
        },
        _ => m,
    }
}

/// Extracts the aggregate's logical value out of a memory: the running
/// total, the exact average ratio, or the smallest or largest live value.
pub open spec fn spec_mem_extract(agg: Aggregator, nullable: bool, m: MemModel) -> AggResultModel {
    match m {
        MemModel::Counting { bins, total } => AggResultModel::Int(total),
        MemModel::Summing { bins, total } => AggResultModel::Int(total),
        MemModel::OptSumming { bins, present_bins, total } => AggResultModel::OptInt(total),
        MemModel::Averaging { bins, count, sum } => AggResultModel::Ratio { count, sum },
        MemModel::OptAveraging { bins, present_bins, total } => AggResultModel::OptRatio(total),
        MemModel::Ordered { bins, entries } => {
            let key = if agg == Aggregator::Max {
                entries[entries.len() - 1].0
            } else {
                entries[0].0
            };
            if nullable {
                AggResultModel::OptInt(
                    if entries.len() == 0 {
                        None
                    } else {
                        Some(key)
                    },
                )
            } else {
                AggResultModel::Int(key)
            }
        },
    }
}

/// Whether merging bin `b` into `cur` stays within the 64-bit bounds of
/// the runtime representation.
pub open spec fn mem_add_fits(cur: Option<MemModel>, b: BinModel) -> bool {
    match cur {
        None => true,
        Some(m) => match (m, b) {
            (MemModel::Counting { bins, total }, BinModel::Count(c)) => bins + 1 <= i64::MAX
                && i64::MIN <= total + c <= i64::MAX,
            (MemModel::Summing { bins, total }, BinModel::Value(v)) => bins + 1 <= i64::MAX
                && i64::MIN <= total + v <= i64::MAX,
            (MemModel::OptSumming { bins, present_bins, total }, BinModel::OptValue(o)) => bins + 1
                <= i64::MAX && match (total, o) {
                (Some(t), Some(v)) => i64::MIN <= t + v <= i64::MAX,
                _ => true,
            },
            (MemModel::Averaging { bins, count, sum }, BinModel::Pair(c, s)) => bins + 1
                <= i64::MAX && count + c <= i64::MAX && i64::MIN <= sum + s <= i64::MAX,
            (MemModel::OptAveraging { bins, present_bins, total }, BinModel::OptPair(o)) => bins + 1
                <= i64::MAX && match (total, o) {
                (Some((tc, ts)), Some((c, s))) => tc + c <= i64::MAX && i64::MIN <= ts + s
                    <= i64::MAX,
                _ => true,
            },
            (MemModel::Ordered { bins, entries }, _) => bins + 1 <= i64::MAX && forall|j: int|
                0 <= j < entries.len() ==> (#[trigger] entries[j]).1 < u64::MAX,
            _ => true,
        },
    }
}

/// Whether bin `b` can be subtracted out of memory `m`: the structural
/// consequences of `b` having been added earlier and not yet removed.
/// Violating the add/remove pairing is the caller's fault; these are the
/// conditions that make the subtraction meaningful and representable.
pub open spec fn mem_can_remove(agg: Aggregator, nullable: bool, m: MemModel, b: BinModel) -> bool {
    match (m, b) {
        (MemModel::Counting { bins, total }, BinModel::Count(c)) => bins >= 1 && 0 <= total - c,
        (MemModel::Summing { bins, total }, BinModel::Value(v)) => bins >= 1 && i64::MIN <= total
            - v <= i64::MAX,
        (MemModel::OptSumming { bins, present_bins, total }, BinModel::OptValue(o)) => bins >= 1
            && match o {
            Some(v) => present_bins >= 1 && i64::MIN <= total->0 - v <= i64::MAX,
            None => present_bins <= bins - 1,
        },
        (MemModel::Averaging { bins, count, sum }, BinModel::Pair(c, s)) => bins >= 1 && count - c
            >= bins - 1 && i64::MIN <= sum - s <= i64::MAX,
        (MemModel::OptAveraging { bins, present_bins, total }, BinModel::OptPair(o)) => bins >= 1
            && match o {
            Some((c, s)) => present_bins >= 1 && (total matches Some((tc, ts)) && 0 <= tc - c
                <= i64::MAX && i64::MIN <= ts - s <= i64::MAX),
            None => present_bins <= bins - 1,
        },
        (MemModel::Ordered { bins, entries }, BinModel::Value(v)) => bins >= 1 && contains_key(
            entries,
            v,
        ),
        (MemModel::Ordered { bins, entries }, BinModel::OptValue(o)) => bins >= 1 && match o {
            Some(v) => contains_key(entries, v),
            None => mult_sum(entries) <= bins - 1,
        },
        _ => false,
    }
}

/// Merging a bin preserves the memory invariant.
pub proof fn lemma_mem_add_shape(
    agg: Aggregator,
    nullable: bool,
    cur: Option<MemModel>,
    b: BinModel,
)
    requires
        bin_shape_ok(agg, nullable, b),
        cur matches Some(m) ==> mem_shape_ok(agg, nullable, m),
    ensures
        mem_shape_ok(agg, nullable, spec_mem_add(agg, nullable, cur, b)),
{
    match agg {
        Aggregator::Min | Aggregator::Max => {
            let entries = match cur {
                Some(m) => m->Ordered_entries,
                None => Seq::empty(),
            };
            let v = if b is Value {
                Some(b->Value_0)
            } else {
                b->OptValue_0
            };
            match v {
                Some(x) => {
                    crate::counts::lemma_increment_sorted(entries, x);
                    lemma_mult_sum_increment(entries, x);
                },
                None => {},
            }
        },
        _ => {},
    }
}

/// Subtracting a bin preserves the memory invariant.
pub proof fn lemma_mem_remove_shape(agg: Aggregator, nullable: bool, m: MemModel, b: BinModel)
    requires
        bin_shape_ok(agg, nullable, b),
        mem_shape_ok(agg, nullable, m),
        mem_can_remove(agg, nullable, m, b),
    ensures
        mem_shape_ok(agg, nullable, spec_mem_remove(agg, nullable, m, b)),
{
    match agg {
        Aggregator::Min | Aggregator::Max => {
            let entries = m->Ordered_entries;
            let v = if b is Value {
                Some(b->Value_0)
            } else {
                b->OptValue_0
            };
            match v {
                Some(x) => {
                    crate::counts::lemma_decrement_sorted(entries, x);
                    lemma_mult_sum_decrement(entries, x);
                },
                None => {},
            }
        },
        _ => {},
    }
}

/// Subtracting a bin right after merging it restores the memory exactly:
/// the add/remove inverse law, for every aggregator and nullability. For
/// `Min`/`Max` in particular, the extracted extremum afterwards equals the
/// extremum of the prior memory.
pub proof fn lemma_mem_add_then_remove(agg: Aggregator, nullable: bool, m: MemModel, b: BinModel)
    requires
        bin_shape_ok(agg, nullable, b),
        mem_shape_ok(agg, nullable, m),
        mem_add_fits(Some(m), b),
    ensures
        spec_mem_remove(agg, nullable, spec_mem_add(agg, nullable, Some(m), b), b) == m,
        spec_mem_extract(
            agg,
            nullable,
            spec_mem_remove(agg, nullable, spec_mem_add(agg, nullable, Some(m), b), b),
        ) == spec_mem_extract(agg, nullable, m),
{
    match agg {
        Aggregator::Min | Aggregator::Max => {
            let entries = m->Ordered_entries;
            let v = if b is Value {
                Some(b->Value_0)
            } else {
                b->OptValue_0
            };
            match v {
                Some(x) => {
                    lemma_increment_then_decrement(entries, x);
                },
                None => {},
            }
        },
        _ => {},
    }
}

/// The live-bin count a memory carries.
pub open spec fn mem_bins(m: MemModel) -> int {
    match m {
        MemModel::Counting { bins, .. } => bins,
        MemModel::Summing { bins, .. } => bins,
        MemModel::OptSumming { bins, .. } => bins,
        MemModel::Averaging { bins, .. } => bins,
        MemModel::OptAveraging { bins, .. } => bins,
        MemModel::Ordered { bins, .. } => bins,
    }
}

/// Merges one bin into an optional prior memory of the same field,
/// raising its live-bin count.
pub fn mem_add_value(
    agg: Aggregator,
    nullable: bool,
    cur: Option<MemoryValue>,
    b: &BinValue,
) -> (r: MemoryValue)
    requires
        bin_shape_ok(agg, nullable, b@),
        opt_mem_model(cur) matches Some(m) ==> mem_shape_ok(agg, nullable, m),
        mem_add_fits(opt_mem_model(cur), b@),
    ensures
        r@ == spec_mem_add(agg, nullable, opt_mem_model(cur), b@),
        mem_shape_ok(agg, nullable, r@),
{
    proof {
        lemma_mem_add_shape(agg, nullable, opt_mem_model(cur), b@);
    }
    match cur {
        None => match b {
            BinValue::Count(c) => MemoryValue::Counting { bins: 1, total: *c },
            BinValue::Value(v) => {
                if agg == Aggregator::Sum {
                    MemoryValue::Summing { bins: 1, total: *v }
                } else {
                    let mut counts = SortedCounts::new();
                    counts.increment(*v);
                    MemoryValue::Ordered { bins: 1, counts }
                }
            },
            BinValue::OptValue(o) => {
                if agg == Aggregator::Sum {
                    MemoryValue::OptSumming {
                        bins: 1,
                        present_bins: if o.is_some() {
                            1
                        } else {
                            0
                        },
                        total: *o,
                    }
                } else {
                    let mut counts = SortedCounts::new();
                    match o {
                        Some(v) => {
                            counts.increment(*v);
                            MemoryValue::Ordered { bins: 1, counts }
                        },
                        None => MemoryValue::Ordered { bins: 1, counts },
                    }
                }
            },
            BinValue::Pair(c, x) => MemoryValue::Averaging { bins: 1, count: *c, sum: *x },
            BinValue::OptPair(o) => MemoryValue::OptAveraging {
                bins: 1,
                present_bins: if o.is_some() {
                    1
                } else {
                    0
                },
                total: *o,
            },
        },
        Some(m) => match (m, b) {
            (MemoryValue::Counting { bins, total }, BinValue::Count(c)) => MemoryValue::Counting {
                bins: bins + 1,
                total: total + *c,
            },
            (MemoryValue::Summing { bins, total }, BinValue::Value(v)) => MemoryValue::Summing {
                bins: bins + 1,
                total: total + *v,
            },
            (
                MemoryValue::OptSumming { bins, present_bins, total },
                BinValue::OptValue(o),
            ) => match o {
                Some(v) => MemoryValue::OptSumming {
                    bins: bins + 1,
                    present_bins: present_bins + 1,
                    total: match total {
                        Some(t) => Some(t + *v),
                        None => Some(*v),
                    },
                },
                None => MemoryValue::OptSumming { bins: bins + 1, present_bins, total },
            },
            (MemoryValue::Averaging { bins, count, sum }, BinValue::Pair(c, x)) => {
                MemoryValue::Averaging { bins: bins + 1, count: count + *c, sum: sum + *x }
            },
            (
                MemoryValue::OptAveraging { bins, present_bins, total },
                BinValue::OptPair(o),
            ) => match o {
                Some((c, x)) => MemoryValue::OptAveraging {
                    bins: bins + 1,
                    present_bins: present_bins + 1,
                    total: match total {
                        Some((tc, ts)) => Some((tc + *c, ts + *x)),
                        None => Some((*c, *x)),
                    },
                },
                None => MemoryValue::OptAveraging { bins: bins + 1, present_bins, total },
            },
            (MemoryValue::Ordered { bins, counts }, BinValue::Value(v)) => {
                let mut counts = counts;
                counts.increment(*v);
                MemoryValue::Ordered { bins: bins + 1, counts }
            },
            (MemoryValue::Ordered { bins, counts }, BinValue::OptValue(o)) => match o {
                Some(v) => {
                    let mut counts = counts;
                    counts.increment(*v);
                    MemoryValue::Ordered { bins: bins + 1, counts }
                },
                None => MemoryValue::Ordered { bins: bins + 1, counts },
            },
            _ => {
                proof {
                    assert(false);
                }
                MemoryValue::Counting { bins: 0, total: 0 }
            },
        },
    }
}

/// Subtracts one expiring bin out of a memory of the same field, lowering
/// its live-bin count. The caller pairs each removal with exactly one
/// earlier addition of the same bin.
pub fn mem_remove_value(agg: Aggregator, nullable: bool, m: MemoryValue, b: &BinValue) -> (r:
    MemoryValue)
    requires
        bin_shape_ok(agg, nullable, b@),
        mem_shape_ok(agg, nullable, m@),
        mem_can_remove(agg, nullable, m@, b@),
    ensures
        r@ == spec_mem_remove(agg, nullable, m@, b@),
        mem_shape_ok(agg, nullable, r@),
{
    proof {
        lemma_mem_remove_shape(agg, nullable, m@, b@);
    }
    match (m, b) {
        (MemoryValue::Counting { bins, total }, BinValue::Count(c)) => MemoryValue::Counting {
            bins: bins - 1,
            total: total - *c,
        },
        (MemoryValue::Summing { bins, total }, BinValue::Value(v)) => MemoryValue::Summing {
            bins: bins - 1,
            total: total - *v,
        },
        (MemoryValue::OptSumming { bins, present_bins, total }, BinValue::OptValue(o)) => match o {
            Some(v) => MemoryValue::OptSumming {
                bins: bins - 1,
                present_bins: present_bins - 1,
                total: if present_bins - 1 == 0 {
                    None
                } else {
                    match total {
                        Some(t) => Some(t - *v),
                        None => {
                            proof {
                                assert(false);
                            }
                            None
                        },
                    }
                },
            },
            None => MemoryValue::OptSumming { bins: bins - 1, present_bins, total },
        },
        (MemoryValue::Averaging { bins, count, sum }, BinValue::Pair(c, x)) => {
            MemoryValue::Averaging { bins: bins - 1, count: count - *c, sum: sum - *x }
        },
        (MemoryValue::OptAveraging { bins, present_bins, total }, BinValue::OptPair(o)) => match o {
            Some((c, x)) => MemoryValue::OptAveraging {
                bins: bins - 1,
                present_bins: present_bins - 1,
                total: if present_bins - 1 == 0 {
                    None
                } else {
                    match total {
                        Some((tc, ts)) => Some((tc - *c, ts - *x)),
                        None => {
                            proof {
                                assert(false);
                            }
                            None
                        },
                    }
                },
            },
            None => MemoryValue::OptAveraging { bins: bins - 1, present_bins, total },
        },
        (MemoryValue::Ordered { bins, counts }, BinValue::Value(v)) => {
            let mut counts = counts;
            counts.decrement(*v);
            MemoryValue::Ordered { bins: bins - 1, counts }
        },
        (MemoryValue::Ordered { bins, counts }, BinValue::OptValue(o)) => match o {
            Some(v) => {
                let mut counts = counts;
                counts.decrement(*v);
                MemoryValue::Ordered { bins: bins - 1, counts }
            },
            None => MemoryValue::Ordered { bins: bins - 1, counts },
        },
        _ => {
            proof {
                assert(false);
            }
            MemoryValue::Counting { bins: 0, total: 0 }
        },
    }
}

/// Extracts the aggregate's logical value out of a live memory.
pub fn mem_extract_value(agg: Aggregator, nullable: bool, m: &MemoryValue) -> (r: AggResult)
    requires
        mem_shape_ok(agg, nullable, m@),
        mem_bins(m@) >= 1,
    ensures
        r@ == spec_mem_extract(agg, nullable, m@),
{
    match m {
        MemoryValue::Counting { bins, total } => AggResult::Int(*total),
        MemoryValue::Summing { bins, total } => AggResult::Int(*total),
        MemoryValue::OptSumming { bins, present_bins, total } => AggResult::OptInt(*total),
        MemoryValue::Averaging { bins, count, sum } => AggResult::Ratio {
            count: *count,
            sum: *sum,
        },
        MemoryValue::OptAveraging { bins, present_bins, total } => AggResult::OptRatio(*total),
        MemoryValue::Ordered { bins, counts } => {
            if nullable {
                if counts.is_empty() {
                    AggResult::OptInt(None)
                } else {
                    let key = if agg == Aggregator::Max {
                        counts.max_key()
                    } else {
                        counts.min_key()
                    };
                    AggResult::OptInt(Some(key))
                }
            } else {
                proof {
                    if counts@.len() == 0 {
                        assert(mult_sum(counts@) == 0);
                        assert(false);
                    }
                }
                let key = if agg == Aggregator::Max {
                    counts.max_key()
                } else {
                    counts.min_key()
                };
                AggResult::Int(key)
            }
        },
    }
}

} // verus!
