//! The algebraic laws of the bin operators that the runtime's merge and
//! eviction strategies rely on.

use vstd::prelude::*;

use crate::bins::{
    bin_shape_ok, spec_combine, spec_combine_singles, spec_fold, spec_fold_seq, spec_single_bin,
    Aggregator, BinModel,
};

verus! {

/// Combining bins of the same field is associative: the runtime may merge
/// panes in any grouping.
pub proof fn lemma_combine_associative(
    agg: Aggregator,
    nullable: bool,
    a: BinModel,
    b: BinModel,
    c: BinModel,
)
    requires
        bin_shape_ok(agg, nullable, a),
        bin_shape_ok(agg, nullable, b),
        bin_shape_ok(agg, nullable, c),
    ensures
        spec_combine(agg, spec_combine(agg, a, b), c) == spec_combine(
            agg,
            a,
            spec_combine(agg, b, c),
        ),
{
}

/// Combining bins of the same field is commutative: the runtime may merge
/// panes in any order.
pub proof fn lemma_combine_commutative(agg: Aggregator, nullable: bool, a: BinModel, b: BinModel)
    requires
        bin_shape_ok(agg, nullable, a),
        bin_shape_ok(agg, nullable, b),
    ensures
        spec_combine(agg, a, b) == spec_combine(agg, b, a),
{
}

/// A single incoming value yields a bin of its field's shape.
pub proof fn lemma_single_bin_shape(agg: Aggregator, nullable: bool, v: Option<int>)
    requires
        agg != Aggregator::CountDistinct,
    ensures
        bin_shape_ok(agg, nullable, spec_single_bin(agg, nullable, v)),
{
}

/// Combining two bins of a field's shape yields a bin of that shape.
pub proof fn lemma_combine_shape(agg: Aggregator, nullable: bool, a: BinModel, b: BinModel)
    requires
        bin_shape_ok(agg, nullable, a),
        bin_shape_ok(agg, nullable, b),
    ensures
        bin_shape_ok(agg, nullable, spec_combine(agg, a, b)),
{
}

/// Folding a value into a bin is the same as combining with the bin that
/// the value yields on its own.
pub proof fn lemma_fold_is_combine_single(
    agg: Aggregator,
    nullable: bool,
    b: BinModel,
    v: Option<int>,
)
    requires
        bin_shape_ok(agg, nullable, b),
    ensures
        spec_fold(agg, nullable, Some(b), v) == spec_combine(
            agg,
            b,
            spec_single_bin(agg, nullable, v),
        ),
{
}

/// Folding a sequence of values yields a bin of the field's shape.
pub proof fn lemma_fold_seq_shape(agg: Aggregator, nullable: bool, vs: Seq<Option<int>>)
    requires
        agg != Aggregator::CountDistinct,
    ensures
        bin_shape_ok(agg, nullable, spec_fold_seq(agg, nullable, vs)),
    decreases vs.len(),
{
    if vs.len() <= 1 {
        lemma_single_bin_shape(agg, nullable, if vs.len() == 1 {
            vs[0]
        } else {
            None
        });
    } else {
        lemma_fold_seq_shape(agg, nullable, vs.drop_last());
        let prev = spec_fold_seq(agg, nullable, vs.drop_last());
        lemma_fold_is_combine_single(agg, nullable, prev, vs.last());
        lemma_single_bin_shape(agg, nullable, vs.last());
        lemma_combine_shape(agg, nullable, prev, spec_single_bin(agg, nullable, vs.last()));
    }
}

/// Folding values one at a time into a bin yields the same bin as building
/// a single-value bin for each and combining them, for every aggregator and
/// nullability.
pub proof fn lemma_fold_combine_consistency(agg: Aggregator, nullable: bool, vs: Seq<Option<int>>)
    requires
        agg != Aggregator::CountDistinct,
        vs.len() >= 1,
    ensures
        spec_fold_seq(agg, nullable, vs) == spec_combine_singles(agg, nullable, vs),
    decreases vs.len(),
{
    if vs.len() > 1 {
        lemma_fold_combine_consistency(agg, nullable, vs.drop_last());
        lemma_fold_seq_shape(agg, nullable, vs.drop_last());
        lemma_fold_is_combine_single(
            agg,
            nullable,
            spec_fold_seq(agg, nullable, vs.drop_last()),
            vs.last(),
        );
    }
}

/// The null bin of a nullable field: what folding only missing values
/// leaves behind.
pub open spec fn null_bin(agg: Aggregator) -> BinModel {
    match agg {
        Aggregator::Count => BinModel::Count(0),
        Aggregator::Sum | Aggregator::Min | Aggregator::Max => BinModel::OptValue(None),
        _ => BinModel::OptPair(None),
    }
}

/// Folding an all-null input sequence into a nullable field yields the null
/// bin: a zero count, or a null scalar or pair.
pub proof fn lemma_null_sequence(agg: Aggregator, vs: Seq<Option<int>>)
    requires
        agg != Aggregator::CountDistinct,
        vs.len() >= 1,
        forall|i: int| 0 <= i < vs.len() ==> vs[i] is None,
    ensures
        spec_fold_seq(agg, true, vs) == null_bin(agg),
    decreases vs.len(),
{
    if vs.len() > 1 {
        lemma_null_sequence(agg, vs.drop_last());
    }
}

/// A single present value amid nulls yields exactly that value for
/// `Sum`, `Min` and `Max`, the pair (1, value) for `Avg`, and a count
/// of one for `Count`.
pub proof fn lemma_single_value_amid_nulls(agg: Aggregator, vs: Seq<Option<int>>, j: int, x: int)
    requires
        agg != Aggregator::CountDistinct,
        0 <= j < vs.len(),
        vs[j] == Some(x),
        forall|i: int| 0 <= i < vs.len() && i != j ==> vs[i] is None,
    ensures
        spec_fold_seq(agg, true, vs) == match agg {
            Aggregator::Count => BinModel::Count(1),
            Aggregator::Sum | Aggregator::Min | Aggregator::Max => BinModel::OptValue(Some(x)),
            _ => BinModel::OptPair(Some((1int, x))),
        },
    decreases vs.len(),
{
    if vs.len() == 1 {
    } else if j == vs.len() - 1 {
        lemma_null_sequence(agg, vs.drop_last());
    } else {
        lemma_single_value_amid_nulls(agg, vs.drop_last(), j, x);
    }
}

} // verus!
