//! Bins: the partial aggregate over one minimal time-slice (pane) of a
//! window. A bin is constructible from a single incoming value plus an
//! optional prior bin (fold-in) and combinable associatively with another
//! bin of the same shape (pane merge).

use vstd::prelude::*;

verus! {

/// The aggregate functions of the algebra. `CountDistinct` is accepted by
/// the type but has no two-phase implementation: deriving one is rejected
/// with [`crate::expressions::AggregateError::UnsupportedAggregator`].
#[derive(Clone, Copy, PartialEq, Eq, Structural, Debug)]
pub enum Aggregator {
    Count,
    Sum,
    Min,
    Max,
    Avg,
    CountDistinct,
}

/// The runtime representation of one field's bin. The shape is determined
/// by the aggregator and the nullability of its input:
/// counters for `Count`, plain or optional scalars for `Sum`/`Min`/`Max`,
/// and (count, sum) pairs for `Avg`. The container is explicitly tagged, so
/// a one-field shape is structurally distinct from its element.
#[derive(Clone, Copy, PartialEq, Eq, Debug)]
pub enum BinValue {
    Count(i64),
    Value(i64),
    OptValue(Option<i64>),
    Pair(i64, i64),
    OptPair(Option<(i64, i64)>),
}

/// The mathematical model of a bin, over unbounded integers.
pub enum BinModel {
    Count(int),
    Value(int),
    OptValue(Option<int>),
    Pair(int, int),
    OptPair(Option<(int, int)>),
}

impl View for BinValue {
    type V = BinModel;

    open spec fn view(&self) -> BinModel {
        match *self {
            BinValue::Count(c) => BinModel::Count(c as int),
            BinValue::Value(v) => BinModel::Value(v as int),
            BinValue::OptValue(o) => BinModel::OptValue(
                match o {
                    Some(v) => Some(v as int),
                    None => None,
                },
            ),
            BinValue::Pair(c, s) => BinModel::Pair(c as int, s as int),
            BinValue::OptPair(o) => BinModel::OptPair(
                match o {
                    Some((c, s)) => Some((c as int, s as int)),
                    None => None,
                },
            ),
        }
    }
}

/// Whether `b` has the shape that aggregator `agg` over an input of the
/// given nullability produces, with the counts that any reachable bin
/// carries: a `Count` counter is never negative and an `Avg` pair has
/// folded in at least one value.
pub open spec fn bin_shape_ok(agg: Aggregator, nullable: bool, b: BinModel) -> bool {
    match agg {
        Aggregator::Count => b matches BinModel::Count(c) && c >= 0,
        Aggregator::Sum | Aggregator::Min | Aggregator::Max => if nullable {
            b is OptValue
        } else {
            b is Value
        },
        Aggregator::Avg => if nullable {
            b matches BinModel::OptPair(o) && (o matches Some(p) ==> p.0 >= 1)
        } else {
            b matches BinModel::Pair(c, _) && c >= 1
        },
        Aggregator::CountDistinct => false,
    }
}

/// The scalar operation an aggregator applies when merging two present
/// values: minimum, maximum, or addition.
pub open spec fn scalar_merge(agg: Aggregator, x: int, y: int) -> int {
    match agg {
        Aggregator::Min => if x <= y {
            x
        } else {
            y
        },
        Aggregator::Max => if x >= y {
            x
        } else {
            y
        },
        _ => x + y,
    }
}

/// Null-propagating union of two optional values: null is the identity,
/// and two present values merge by [`scalar_merge`].
pub open spec fn opt_merge(agg: Aggregator, x: Option<int>, y: Option<int>) -> Option<int> {
    match (x, y) {
        (Some(a), Some(b)) => Some(scalar_merge(agg, a, b)),
        (Some(a), None) => Some(a),
        (None, Some(b)) => Some(b),
        (None, None) => None,
    }
}

/// Null-propagating union of two optional (count, sum) pairs.
pub open spec fn opt_pair_merge(x: Option<(int, int)>, y: Option<(int, int)>) -> Option<
    (int, int),
> {
    match (x, y) {
        (Some(a), Some(b)) => Some((a.0 + b.0, a.1 + b.1)),
        (Some(a), None) => Some(a),
        (None, Some(b)) => Some(b),
        (None, None) => None,
    }
}

/// Combines two bins of the same field: the pane-merge operator. Both bins
/// must belong to the same key and cover disjoint time ranges; under that
/// contract the operator is associative and commutative.
pub open spec fn spec_combine(agg: Aggregator, a: BinModel, b: BinModel) -> BinModel {
    match (a, b) {
        (BinModel::Count(x), BinModel::Count(y)) => BinModel::Count(x + y),
        (BinModel::Value(x), BinModel::Value(y)) => BinModel::Value(scalar_merge(agg, x, y)),
        (BinModel::OptValue(x), BinModel::OptValue(y)) => BinModel::OptValue(
            opt_merge(agg, x, y),
        ),
        (BinModel::Pair(c1, s1), BinModel::Pair(c2, s2)) => BinModel::Pair(c1 + c2, s1 + s2),
        (BinModel::OptPair(x), BinModel::OptPair(y)) => BinModel::OptPair(opt_pair_merge(x, y)),
        _ => a,
    }
}

/// The bin a single incoming value yields on its own. A missing value is
/// counted as zero by `Count` and propagates as null elsewhere; a
/// non-nullable input always carries a value.
pub open spec fn spec_single_bin(agg: Aggregator, nullable: bool, v: Option<int>) -> BinModel {
    match agg {
        Aggregator::Count => BinModel::Count(
            if v is Some || !nullable {
                1int
            } else {
                0int
            },
        ),
        Aggregator::Sum | Aggregator::Min | Aggregator::Max => if nullable {
            BinModel::OptValue(v)
        } else {
            BinModel::Value(v->0)
        },
        Aggregator::Avg => if nullable {
            BinModel::OptPair(
                match v {
                    Some(x) => Some((1, x)),
                    None => None,
                },
            )
        } else {
            BinModel::Pair(1, v->0)
        },
        Aggregator::CountDistinct => BinModel::Count(0),
    }
}

/// Folds one incoming value into an optional prior bin, the per-pane update
/// of the runtime. Written out by case, mirroring how each aggregator
/// accumulates; [`crate::laws::lemma_fold_is_combine_single`] shows it
/// agrees with merging the single-value bin.
pub open spec fn spec_fold(
    agg: Aggregator,
    nullable: bool,
    cur: Option<BinModel>,
    v: Option<int>,
) -> BinModel {
    match cur {
        None => spec_single_bin(agg, nullable, v),
        Some(b) => match agg {
            Aggregator::Count => BinModel::Count(
                b->Count_0 + if v is Some || !nullable {
                    1int
                } else {
                    0int
                },
            ),
            Aggregator::Sum | Aggregator::Min | Aggregator::Max => if nullable {
                BinModel::OptValue(opt_merge(agg, b->OptValue_0, v))
            } else {
                BinModel::Value(scalar_merge(agg, b->Value_0, v->0))
            },
            Aggregator::Avg => if nullable {
                BinModel::OptPair(
                    match (b->OptPair_0, v) {
                        (Some((c, s)), Some(x)) => Some((c + 1, s + x)),
                        (Some((c, s)), None) => Some((c, s)),
                        (None, Some(x)) => Some((1, x)),
                        (None, None) => None,
                    },
                )
            } else {
                BinModel::Pair(b->Pair_0 + 1, b->Pair_1 + v->0)
            },
            Aggregator::CountDistinct => BinModel::Count(0),
        },
    }
}

/// Folds a whole sequence of incoming values into one bin, oldest first;
/// defined only for non-empty sequences.
pub open spec fn spec_fold_seq(agg: Aggregator, nullable: bool, vs: Seq<Option<int>>) -> BinModel
    decreases vs.len(),
{
    if vs.len() <= 1 {
        spec_single_bin(agg, nullable, if vs.len() == 1 {
            vs[0]
        } else {
            None
        })
    } else {
        spec_fold(agg, nullable, Some(spec_fold_seq(agg, nullable, vs.drop_last())), vs.last())
    }
}

/// Combines the single-value bins of a sequence pairwise, left to right;
/// defined only for non-empty sequences.
pub open spec fn spec_combine_singles(
    agg: Aggregator,
    nullable: bool,
    vs: Seq<Option<int>>,
) -> BinModel
    decreases vs.len(),
{
    if vs.len() <= 1 {
        spec_single_bin(agg, nullable, if vs.len() == 1 {
            vs[0]
        } else {
            None
        })
    } else {
        spec_combine(
            agg,
            spec_combine_singles(agg, nullable, vs.drop_last()),
            spec_single_bin(agg, nullable, vs.last()),
        )
    }
}

/// Whether combining `a` and `b` stays within the bounds of the runtime's
/// 64-bit representation. Minimum and maximum never overflow; the additive
/// shapes must fit.
pub open spec fn combine_fits(agg: Aggregator, a: BinModel, b: BinModel) -> bool {
    match (a, b) {
        (BinModel::Count(x), BinModel::Count(y)) => x + y <= i64::MAX,
        (BinModel::Value(x), BinModel::Value(y)) => agg == Aggregator::Sum ==> i64::MIN <= x + y
            <= i64::MAX,
        (BinModel::OptValue(Some(x)), BinModel::OptValue(Some(y))) => agg == Aggregator::Sum
            ==> i64::MIN <= x + y <= i64::MAX,
        (BinModel::Pair(c1, s1), BinModel::Pair(c2, s2)) => c1 + c2 <= i64::MAX && i64::MIN <= s1
            + s2 <= i64::MAX,
        (BinModel::OptPair(Some((c1, s1))), BinModel::OptPair(Some((c2, s2)))) => c1 + c2
            <= i64::MAX && i64::MIN <= s1 + s2 <= i64::MAX,
        _ => true,
    }
}

/// Whether folding value `v` into bin `cur` stays within 64-bit bounds.
pub open spec fn fold_fits(
    agg: Aggregator,
    nullable: bool,
    cur: Option<BinModel>,
    v: Option<int>,
) -> bool {
    match cur {
        None => true,
        Some(b) => combine_fits(agg, b, spec_single_bin(agg, nullable, v)),
    }
}

/// The logical result a bin or memory extracts to. An average is kept as
/// its exact (count, sum) ratio; the runtime divides it as floating point
/// outside this library.
#[derive(Clone, Copy, PartialEq, Eq, Debug)]
pub enum AggResult {
    Int(i64),
    OptInt(Option<i64>),
    Ratio { count: i64, sum: i64 },
    OptRatio(Option<(i64, i64)>),
}

/// The mathematical model of an extracted result.
pub enum AggResultModel {
    Int(int),
    OptInt(Option<int>),
    Ratio { count: int, sum: int },
    OptRatio(Option<(int, int)>),
}

impl View for AggResult {
    type V = AggResultModel;

    open spec fn view(&self) -> AggResultModel {
        match *self {
            AggResult::Int(v) => AggResultModel::Int(v as int),
            AggResult::OptInt(o) => AggResultModel::OptInt(
                match o {
                    Some(v) => Some(v as int),
                    None => None,
                },
            ),
            AggResult::Ratio { count, sum } => AggResultModel::Ratio {
                count: count as int,
                sum: sum as int,
            },
            AggResult::OptRatio(o) => AggResultModel::OptRatio(
                match o {
                    Some((c, x)) => Some((c as int, x as int)),
                    None => None,
                },
            ),
        }
    }
}

/// Converts a bin into the aggregate's logical result: identity for
/// `Count`, `Sum`, `Min` and `Max`; the exact (count, sum) ratio for `Avg`,
/// with null propagated from a null pair.
pub open spec fn spec_bin_extract(b: BinModel) -> AggResultModel {
    match b {
        BinModel::Count(c) => AggResultModel::Int(c),
        BinModel::Value(v) => AggResultModel::Int(v),
        BinModel::OptValue(o) => AggResultModel::OptInt(o),
        BinModel::Pair(c, s) => AggResultModel::Ratio { count: c, sum: s },
        BinModel::OptPair(o) => AggResultModel::OptRatio(o),
    }
}

} // verus!
