//! The two-phase aggregation compiler: rewrites each aggregate field into
//! a bin representation with an associative combine operator and, for
//! sliding windows, a removable memory representation, plus the extraction
//! back to the aggregate's logical value. The per-field state of a whole
//! projection is lifted pointwise over an explicitly arity-aware container,
//! so a one-field projection is structurally distinct from its element by
//! construction.

use vstd::prelude::*;

use crate::bins::{
    bin_shape_ok, combine_fits, fold_fits, opt_merge, scalar_merge, spec_bin_extract, spec_combine,
    spec_fold, spec_single_bin, AggResult, Aggregator, BinModel, BinValue,
};
use crate::expressions::{AggregateError, AggregationExpression, Expression};
use crate::laws::{lemma_combine_shape, lemma_fold_is_combine_single, lemma_single_bin_shape};
use crate::memory::{
    mem_add_fits, mem_add_value, mem_bins, mem_can_remove, mem_extract_value, mem_remove_value,
    mem_shape_ok, opt_mem_model, spec_mem_add, spec_mem_extract, spec_mem_remove, MemModel,
    MemoryValue,
};
use crate::promotion::{numeric_sum_type, spec_avg_promoted, spec_sum_promoted};
use crate::schema::{
    clone_flat_type, clone_opt_string, clone_string, Column, ScalarType, StructDef, StructField,
    TypeDef,
};

verus! {

/// The shape of one field's bin: the state a single field's aggregator
/// accumulates in.
#[derive(Clone, Copy, PartialEq, Eq, Structural, Debug)]
pub enum BinKind {
    Counter,
    Plain,
    OptPlain,
    Pair,
    OptPair,
}

/// The shape of one field's sliding-window memory.
#[derive(Clone, Copy, PartialEq, Eq, Structural, Debug)]
pub enum MemoryKind {
    Counting,
    Summing,
    OptSumming,
    Averaging,
    OptAveraging,
    Ordered,
}

/// The bin shape aggregator `agg` uses over an input of the given
/// nullability.
pub open spec fn spec_bin_kind(agg: Aggregator, nullable: bool) -> BinKind {
    match agg {
        Aggregator::Count | Aggregator::CountDistinct => BinKind::Counter,
        Aggregator::Sum | Aggregator::Min | Aggregator::Max => if nullable {
            BinKind::OptPlain
        } else {
            BinKind::Plain
        },
        Aggregator::Avg => if nullable {
            BinKind::OptPair
        } else {
            BinKind::Pair
        },
    }
}

/// The memory shape aggregator `agg` uses over an input of the given
/// nullability.
pub open spec fn spec_memory_kind(agg: Aggregator, nullable: bool) -> MemoryKind {
    match agg {
        Aggregator::Count | Aggregator::CountDistinct => MemoryKind::Counting,
        Aggregator::Sum => if nullable {
            MemoryKind::OptSumming
        } else {
            MemoryKind::Summing
        },
        Aggregator::Avg => if nullable {
            MemoryKind::OptAveraging
        } else {
            MemoryKind::Averaging
        },
        Aggregator::Min | Aggregator::Max => MemoryKind::Ordered,
    }
}

/// The model of an optional bin.
pub open spec fn opt_bin_model(b: Option<BinValue>) -> Option<BinModel> {
    match b {
        Some(bv) => Some(bv@),
        None => None,
    }
}

/// The model of an optional incoming value.
pub open spec fn opt_int_model(v: Option<i64>) -> Option<int> {
    match v {
        Some(x) => Some(x as int),
        None => None,
    }
}

/// One aggregate field rewritten for two-phase evaluation; derived 1:1
/// from an [`AggregationExpression`] whose aggregator supports it.
#[derive(Debug)]
pub struct TwoPhaseAggregation {
    pub incoming_expression: Expression,
    pub aggregator: Aggregator,
}

impl TwoPhaseAggregation {
    /// What [`TwoPhaseAggregation::try_from`] establishes: a supported
    /// aggregator over a scalar computation with the promotions its
    /// aggregator needs.
    pub open spec fn wf(self) -> bool {
        &&& self.aggregator != Aggregator::CountDistinct
        &&& self.incoming_expression.data_type matches TypeDef::Data(_, _)
        &&& (self.aggregator == Aggregator::Sum ==> spec_sum_promoted(
            self.incoming_expression.data_type->Data_0,
        ) is Some)
        &&& (self.aggregator == Aggregator::Avg ==> spec_avg_promoted(
            self.incoming_expression.data_type->Data_0,
        ) is Some)
    }

    /// The nullability of the incoming value.
    pub open spec fn spec_nullable(self) -> bool {
        self.incoming_expression.spec_nullable()
    }

    /// Derives the two-phase form of one aggregate field. The derivation
    /// fails exactly when the aggregator is `CountDistinct`, which has no
    /// two-phase implementation; it never silently degrades.
    pub fn try_from(e: AggregationExpression) -> (r: Result<TwoPhaseAggregation, AggregateError>)
        requires
            e.types_ok(),
        ensures
            r is Err <==> e.aggregator == Aggregator::CountDistinct,
            r matches Err(err) ==> err == AggregateError::UnsupportedAggregator,
            r matches Ok(t) ==> t == (TwoPhaseAggregation {
                incoming_expression: e.incoming_expression,
                aggregator: e.aggregator,
            }) && t.wf(),
    {
        if e.aggregator == Aggregator::CountDistinct {
            Err(AggregateError::UnsupportedAggregator)
        } else {
            Ok(
                TwoPhaseAggregation {
                    incoming_expression: e.incoming_expression,
                    aggregator: e.aggregator,
                },
            )
        }
    }

    /// The working type bins accumulate in: 64-bit integer counters for
    /// `Count`, the sum-promoted type for `Sum` and `Avg`, the incoming
    /// type for `Min` and `Max`.
    pub open spec fn spec_aggregate_type(self) -> ScalarType {
        let t = self.incoming_expression.data_type->Data_0;
        match self.aggregator {
            Aggregator::Count | Aggregator::CountDistinct => ScalarType::Int64,
            Aggregator::Sum | Aggregator::Avg => spec_sum_promoted(t)->0,
            Aggregator::Min | Aggregator::Max => t,
        }
    }

    /// Produces [`Self::spec_aggregate_type`].
    pub fn aggregate_type(&self) -> (r: ScalarType)
        requires
            self.wf(),
        ensures
            r == self.spec_aggregate_type(),
    {
        match self.aggregator {
            Aggregator::Count | Aggregator::CountDistinct => ScalarType::Int64,
            Aggregator::Min | Aggregator::Max => match &self.incoming_expression.data_type {
                TypeDef::Data(t, _) => *t,
                _ => {
                    proof {
                        assert(false);
                    }
                    ScalarType::Int64
                },
            },
            Aggregator::Sum | Aggregator::Avg => match &self.incoming_expression.data_type {
                TypeDef::Data(t, _) => match numeric_sum_type(t) {
                    Some(p) => p,
                    None => {
                        proof {
                            assert(false);
                        }
                        ScalarType::Int64
                    },
                },
                _ => {
                    proof {
                        assert(false);
                    }
                    ScalarType::Int64
                },
            },
        }
    }

    /// The working type as a never-null field type.
    pub fn aggregate_type_def(&self) -> (r: TypeDef)
        requires
            self.wf(),
        ensures
            r == TypeDef::Data(self.spec_aggregate_type(), false),
    {
        TypeDef::Data(self.aggregate_type(), false)
    }

    /// The naive return type of the underlying aggregate expression.
    pub open spec fn spec_return_type(self) -> TypeDef {
        (AggregationExpression {
            incoming_expression: self.incoming_expression,
            aggregator: self.aggregator,
        }).spec_return_type()
    }

    /// Produces [`Self::spec_return_type`].
    pub fn return_type(&self) -> (r: TypeDef)
        requires
            self.wf(),
        ensures
            r == self.spec_return_type(),
    {
        let n = self.incoming_expression.nullable();
        match self.aggregator {
            Aggregator::Count | Aggregator::CountDistinct => TypeDef::Data(
                ScalarType::Int64,
                false,
            ),
            Aggregator::Min | Aggregator::Max => clone_flat_type(
                &self.incoming_expression.data_type,
            ),
            Aggregator::Sum => TypeDef::Data(self.aggregate_type(), n),
            Aggregator::Avg => TypeDef::Data(ScalarType::Float64, n),
        }
    }

    /// The shape of this field's bins.
    pub fn bin_kind(&self) -> (r: BinKind)
        ensures
            r == spec_bin_kind(self.aggregator, self.spec_nullable()),
    {
        let nullable = self.incoming_expression.nullable();
        match self.aggregator {
            Aggregator::Count | Aggregator::CountDistinct => BinKind::Counter,
            Aggregator::Sum | Aggregator::Min | Aggregator::Max => if nullable {
                BinKind::OptPlain
            } else {
                BinKind::Plain
            },
            Aggregator::Avg => if nullable {
                BinKind::OptPair
            } else {
                BinKind::Pair
            },
        }
    }

    /// The shape of this field's sliding-window memory.
    pub fn memory_kind(&self) -> (r: MemoryKind)
        ensures
            r == spec_memory_kind(self.aggregator, self.spec_nullable()),
    {
        let nullable = self.incoming_expression.nullable();
        match self.aggregator {
            Aggregator::Count | Aggregator::CountDistinct => MemoryKind::Counting,
            Aggregator::Sum => if nullable {
                MemoryKind::OptSumming
            } else {
                MemoryKind::Summing
            },
            Aggregator::Avg => if nullable {
                MemoryKind::OptAveraging
            } else {
                MemoryKind::Averaging
            },
            Aggregator::Min | Aggregator::Max => MemoryKind::Ordered,
        }
    }

    /// Folds one incoming value into an optional prior bin: the per-pane
    /// update. A non-nullable input always carries a value; a missing
    /// nullable value leaves `Sum`/`Min`/`Max`/`Avg` state untouched and
    /// is not counted.
    pub fn fold_value(&self, current_bin: Option<BinValue>, value: Option<i64>) -> (r: BinValue)
        requires
            self.wf(),
            current_bin matches Some(b) ==> bin_shape_ok(
                self.aggregator,
                self.spec_nullable(),
                b@,
            ),
            !self.spec_nullable() ==> value is Some,
            fold_fits(
                self.aggregator,
                self.spec_nullable(),
                opt_bin_model(current_bin),
                opt_int_model(value),
            ),
        ensures
            r@ == spec_fold(
                self.aggregator,
                self.spec_nullable(),
                opt_bin_model(current_bin),
                opt_int_model(value),
            ),
            bin_shape_ok(self.aggregator, self.spec_nullable(), r@),
    {
        proof {
            lemma_single_bin_shape(
                self.aggregator,
                self.spec_nullable(),
                opt_int_model(value),
            );
            if current_bin is Some {
                lemma_fold_is_combine_single(
                    self.aggregator,
                    self.spec_nullable(),
                    current_bin->0@,
                    opt_int_model(value),
                );
                lemma_combine_shape(
                    self.aggregator,
                    self.spec_nullable(),
                    current_bin->0@,
                    spec_single_bin(self.aggregator, self.spec_nullable(), opt_int_model(value)),
                );
            }
        }
        let nullable = self.incoming_expression.nullable();
        match self.aggregator {
            Aggregator::Count => {
                let c: i64 = match current_bin {
                    Some(BinValue::Count(c)) => c,
                    _ => 0,
                };
                let present: i64 = if value.is_some() || !nullable {
                    1
                } else {
                    0
                };
                BinValue::Count(c + present)
            },
            Aggregator::Sum | Aggregator::Min | Aggregator::Max => {
                if nullable {
                    let cur: Option<i64> = match current_bin {
                        Some(BinValue::OptValue(o)) => o,
                        _ => None,
                    };
                    BinValue::OptValue(self.merge_opt(cur, value))
                } else {
                    let v: i64 = match value {
                        Some(x) => x,
                        None => {
                            proof {
                                assert(false);
                            }
                            0
                        },
                    };
                    match current_bin {
                        Some(BinValue::Value(x)) => BinValue::Value(self.merge_scalar(x, v)),
                        _ => BinValue::Value(v),
                    }
                }
            },
            Aggregator::Avg => {
                if nullable {
                    let cur: Option<(i64, i64)> = match current_bin {
                        Some(BinValue::OptPair(o)) => o,
                        _ => None,
                    };
                    BinValue::OptPair(
                        match (cur, value) {
                            (Some((c, s)), Some(x)) => Some((c + 1, s + x)),
                            (Some((c, s)), None) => Some((c, s)),
                            (None, Some(x)) => Some((1, x)),
                            (None, None) => None,
                        },
                    )
                } else {
                    let v: i64 = match value {
                        Some(x) => x,
                        None => {
                            proof {
                                assert(false);
                            }
                            0
                        },
                    };
                    match current_bin {
                        Some(BinValue::Pair(c, s)) => BinValue::Pair(c + 1, s + v),
                        _ => BinValue::Pair(1, v),
                    }
                }
            },
            Aggregator::CountDistinct => {
                proof {
                    assert(false);
                }
                BinValue::Count(0)
            },
        }
    }

    /// The scalar merge of two present values under this aggregator.
    fn merge_scalar(&self, x: i64, y: i64) -> (r: i64)
        requires
            self.aggregator == Aggregator::Sum ==> i64::MIN <= x + y <= i64::MAX,
        ensures
            self.aggregator != Aggregator::CountDistinct && self.aggregator != Aggregator::Count
                && self.aggregator != Aggregator::Avg ==> r as int == scalar_merge(
                self.aggregator,
                x as int,
                y as int,
            ),
    {
        match self.aggregator {
            Aggregator::Min => if x <= y {
                x
            } else {
                y
            },
            Aggregator::Max => if x >= y {
                x
            } else {
                y
            },
            Aggregator::Sum => x + y,
            _ => 0,
        }
    }

    /// The null-propagating merge of two optional values under this
    /// aggregator.
    fn merge_opt(&self, x: Option<i64>, y: Option<i64>) -> (r: Option<i64>)
        requires
            self.aggregator == Aggregator::Sum && x is Some && y is Some ==> i64::MIN <= x->0
                + y->0 <= i64::MAX,
        ensures
            self.aggregator != Aggregator::CountDistinct && self.aggregator != Aggregator::Count
                && self.aggregator != Aggregator::Avg ==> opt_int_model(r) == opt_merge(
                self.aggregator,
                opt_int_model(x),
                opt_int_model(y),
            ),
    {
        match (x, y) {
            (Some(a), Some(b)) => Some(self.merge_scalar(a, b)),
            (Some(a), None) => Some(a),
            (None, Some(b)) => Some(b),
            (None, None) => None,
        }
    }

    /// Combines two bins of this field: the associative pane merge.
    pub fn combine_bin(&self, current_bin: &BinValue, new_bin: &BinValue) -> (r: BinValue)
        requires
            self.wf(),
            bin_shape_ok(self.aggregator, self.spec_nullable(), current_bin@),
            bin_shape_ok(self.aggregator, self.spec_nullable(), new_bin@),
            combine_fits(self.aggregator, current_bin@, new_bin@),
        ensures
            r@ == spec_combine(self.aggregator, current_bin@, new_bin@),
            bin_shape_ok(self.aggregator, self.spec_nullable(), r@),
    {
        proof {
            lemma_combine_shape(self.aggregator, self.spec_nullable(), current_bin@, new_bin@);
        }
        match (current_bin, new_bin) {
            (BinValue::Count(x), BinValue::Count(y)) => BinValue::Count(*x + *y),
            (BinValue::Value(x), BinValue::Value(y)) => BinValue::Value(
                self.merge_scalar(*x, *y),
            ),
            (BinValue::OptValue(x), BinValue::OptValue(y)) => BinValue::OptValue(
                self.merge_opt(*x, *y),
            ),
            (BinValue::Pair(c1, s1), BinValue::Pair(c2, s2)) => BinValue::Pair(
                *c1 + *c2,
                *s1 + *s2,
            ),
            (BinValue::OptPair(x), BinValue::OptPair(y)) => BinValue::OptPair(
                match (x, y) {
                    (Some((c1, s1)), Some((c2, s2))) => Some((*c1 + *c2, *s1 + *s2)),
                    (Some(p), None) => Some(*p),
                    (None, Some(p)) => Some(*p),
                    (None, None) => None,
                },
            ),
            _ => {
                proof {
                    assert(false);
                }
                BinValue::Count(0)
            },
        }
    }

    /// Converts a bin of this field into the aggregate's logical result:
    /// identity for `Count`, `Sum`, `Min` and `Max`; the exact
    /// (count, sum) ratio for `Avg`, null propagated.
    pub fn bin_aggregate(&self, bin: &BinValue) -> (r: AggResult)
        requires
            self.wf(),
            bin_shape_ok(self.aggregator, self.spec_nullable(), bin@),
        ensures
            r@ == spec_bin_extract(bin@),
    {
        match bin {
            BinValue::Count(c) => AggResult::Int(*c),
            BinValue::Value(v) => AggResult::Int(*v),
            BinValue::OptValue(o) => AggResult::OptInt(*o),
            BinValue::Pair(c, s) => AggResult::Ratio { count: *c, sum: *s },
            BinValue::OptPair(o) => AggResult::OptRatio(*o),
        }
    }

    /// Merges one bin into this field's optional sliding-window memory.
    pub fn memory_add(&self, current: Option<MemoryValue>, bin_value: &BinValue) -> (r:
        MemoryValue)
        requires
            self.wf(),
            bin_shape_ok(self.aggregator, self.spec_nullable(), bin_value@),
            opt_mem_model(current) matches Some(m) ==> mem_shape_ok(
                self.aggregator,
                self.spec_nullable(),
                m,
            ),
            mem_add_fits(opt_mem_model(current), bin_value@),
        ensures
            r@ == spec_mem_add(
                self.aggregator,
                self.spec_nullable(),
                opt_mem_model(current),
                bin_value@,
            ),
            mem_shape_ok(self.aggregator, self.spec_nullable(), r@),
    {
        let nullable = self.incoming_expression.nullable();
        mem_add_value(self.aggregator, nullable, current, bin_value)
    }

    /// Subtracts one expiring bin out of this field's memory.
    pub fn memory_remove(&self, current: MemoryValue, bin_value: &BinValue) -> (r: MemoryValue)
        requires
            self.wf(),
            bin_shape_ok(self.aggregator, self.spec_nullable(), bin_value@),
            mem_shape_ok(self.aggregator, self.spec_nullable(), current@),
            mem_can_remove(self.aggregator, self.spec_nullable(), current@, bin_value@),
        ensures
            r@ == spec_mem_remove(
                self.aggregator,
                self.spec_nullable(),
                current@,
                bin_value@,
            ),
            mem_shape_ok(self.aggregator, self.spec_nullable(), r@),
    {
        let nullable = self.incoming_expression.nullable();
        mem_remove_value(self.aggregator, nullable, current, bin_value)
    }

    /// Extracts the aggregate's logical value out of this field's live
    /// memory.
    pub fn memory_aggregate(&self, current: &MemoryValue) -> (r: AggResult)
        requires
            self.wf(),
            mem_shape_ok(self.aggregator, self.spec_nullable(), current@),
            mem_bins(current@) >= 1,
        ensures
            r@ == spec_mem_extract(self.aggregator, self.spec_nullable(), current@),
    {
        let nullable = self.incoming_expression.nullable();
        mem_extract_value(self.aggregator, nullable, current)
    }
}

/// The bins of a whole projection: one per aggregate field, positionally
/// aligned with the output columns. A named container rather than a bare
/// tuple, so arity one needs no disambiguation from its element.
#[derive(Clone, PartialEq, Eq, Debug)]
pub struct ProjectionBin {
    pub fields: Vec<BinValue>,
}

impl View for ProjectionBin {
    type V = Seq<BinModel>;

    open spec fn view(&self) -> Seq<BinModel> {
        self.fields@.map_values(|b: BinValue| b@)
    }
}

/// The sliding-window memory of a whole projection: an explicit live-bin
/// count alongside the per-field memories, raised and lowered in lockstep
/// with every field.
#[derive(Clone, PartialEq, Eq, Debug)]
pub struct ProjectionMemory {
    pub live_bins: i64,
    pub fields: Vec<MemoryValue>,
}

impl ProjectionMemory {
    /// The models of the per-field memories.
    pub open spec fn mems(self) -> Seq<MemModel> {
        self.fields@.map_values(|m: MemoryValue| m@)
    }
}

/// The model of the prior bin handed to a pointwise operator for field
/// `i`: absent when no prior bin exists at all.
pub open spec fn cur_bin_at(cb: Option<&ProjectionBin>, i: int) -> Option<BinModel> {
    match cb {
        Some(b) => Some(b@[i]),
        None => None,
    }
}

/// An ordered list of two-phase aggregate fields, positionally aligned
/// with output column names: the unit the runtime instantiates once per
/// key and window.
#[derive(Debug)]
pub struct TwoPhaseAggregateProjection {
    pub field_names: Vec<Column>,
    pub field_computations: Vec<TwoPhaseAggregation>,
}

impl TwoPhaseAggregateProjection {
    /// Names and computations are positionally aligned and every field is
    /// a well-formed two-phase aggregation.
    pub open spec fn wf(self) -> bool {
        &&& self.field_names@.len() == self.field_computations@.len()
        &&& forall|i: int|
            0 <= i < self.field_computations@.len() ==> (
            #[trigger] self.field_computations@[i]).wf()
    }

    /// The number of aggregate fields.
    pub open spec fn len(self) -> int {
        self.field_computations@.len() as int
    }

    /// The aggregator of field `i`.
    pub open spec fn agg_at(self, i: int) -> Aggregator {
        self.field_computations@[i].aggregator
    }

    /// The input nullability of field `i`.
    pub open spec fn null_at(self, i: int) -> bool {
        self.field_computations@[i].spec_nullable()
    }

    /// Whether `bs` is a well-shaped tuple of bins for this projection.
    pub open spec fn bins_ok(self, bs: Seq<BinModel>) -> bool {
        &&& bs.len() == self.len()
        &&& forall|i: int|
            0 <= i < bs.len() ==> bin_shape_ok(self.agg_at(i), self.null_at(i), #[trigger] bs[i])
    }

    /// Whether `pm` is a well-shaped live memory for this projection: one
    /// memory per field, each carrying the shared live-bin count.
    pub open spec fn mem_ok(self, pm: ProjectionMemory) -> bool {
        &&& pm.fields@.len() == self.len()
        &&& pm.live_bins >= 1
        &&& forall|i: int|
            0 <= i < self.len() ==> mem_shape_ok(
                self.agg_at(i),
                self.null_at(i),
                #[trigger] pm.mems()[i],
            ) && mem_bins(pm.mems()[i]) == pm.live_bins as int
    }

    /// Derives the two-phase form of a whole aggregate projection,
    /// field by field. The derivation fails, with the unsupported
    /// aggregator error, exactly when some field is `CountDistinct`.
    #[verifier::loop_isolation(false)]
    pub fn try_from(p: crate::operators::AggregateProjection) -> (r: Result<
        TwoPhaseAggregateProjection,
        AggregateError,
    >)
        requires
            p.wf(),
        ensures
            r is Err <==> exists|i: int|
                0 <= i < p.field_computations@.len() && (
                #[trigger] p.field_computations@[i]).aggregator == Aggregator::CountDistinct,
            r matches Err(err) ==> err == AggregateError::UnsupportedAggregator,
            r matches Ok(t) ==> {
                &&& t.wf()
                &&& t.field_names == p.field_names
                &&& t.len() == p.field_computations@.len()
                &&& forall|i: int|
                    0 <= i < t.len() ==> (#[trigger] t.field_computations@[i]).aggregator
                        == p.field_computations@[i].aggregator
                        && t.field_computations@[i].incoming_expression
                        == p.field_computations@[i].incoming_expression
            },
    {
        let n = p.field_computations.len();
        let ghost orig = p.field_computations@;
        let mut comps = p.field_computations;
        let mut out: Vec<TwoPhaseAggregation> = Vec::new();
        let mut i: usize = 0;
        while i < n
            invariant
                i <= n,
                out@.len() == i,
                comps@ == orig.subrange(i as int, n as int),
                forall|j: int|
                    0 <= j < i ==> (#[trigger] out@[j]).aggregator == orig[j].aggregator
                        && out@[j].incoming_expression == orig[j].incoming_expression
                        && out@[j].wf(),
                forall|j: int|
                    0 <= j < i ==> (#[trigger] orig[j]).aggregator != Aggregator::CountDistinct,
            decreases n - i,
        {
            proof {
                assert(comps@[0] == orig[i as int]);
                assert(comps@.remove(0) =~= orig.subrange(i as int + 1, n as int));
            }
            let e = comps.remove(0);
            match TwoPhaseAggregation::try_from(e) {
                Ok(t) => {
                    out.push(t);
                },
                Err(err) => {
                    return Err(err);
                },
            }
            i += 1;
        }
        Ok(TwoPhaseAggregateProjection { field_names: p.field_names, field_computations: out })
    }

    /// Combines an optional prior tuple of bins with a new one, field by
    /// field; with no prior bins the new ones are taken as they are.
    #[verifier::loop_isolation(false)]
    pub fn combine_bin(&self, current_bin: Option<&ProjectionBin>, arg: &ProjectionBin) -> (r:
        ProjectionBin)
        requires
            self.wf(),
            self.bins_ok(arg@),
            current_bin matches Some(b) ==> self.bins_ok(b@) && forall|i: int|
                0 <= i < self.len() ==> combine_fits(self.agg_at(i), #[trigger] b@[i], arg@[i]),
        ensures
            r@.len() == self.len(),
            forall|i: int|
                0 <= i < self.len() ==> #[trigger] r@[i] == match current_bin {
                    Some(b) => spec_combine(self.agg_at(i), b@[i], arg@[i]),
                    None => arg@[i],
                },
            self.bins_ok(r@),
    {
        let n = self.field_computations.len();
        let mut fields: Vec<BinValue> = Vec::new();
        let mut i: usize = 0;
        while i < n
            invariant
                i <= n,
                fields@.len() == i,
                forall|j: int|
                    0 <= j < i ==> #[trigger] fields@[j]@ == match current_bin {
                        Some(b) => spec_combine(self.agg_at(j), b@[j], arg@[j]),
                        None => arg@[j],
                    },
            decreases n - i,
        {
            proof {
                assert(arg@[i as int] == arg.fields@[i as int]@);
                if current_bin is Some {
                    let b = current_bin->0;
                    assert(b@[i as int] == b.fields@[i as int]@);
                }
            }
            let c = &self.field_computations[i];
            let merged = match current_bin {
                Some(b) => c.combine_bin(&b.fields[i], &arg.fields[i]),
                None => arg.fields[i],
            };
            fields.push(merged);
            i += 1;
        }
        ProjectionBin { fields }
    }

    /// Builds the next tuple of bins from an optional prior tuple and one
    /// incoming value per field.
    #[verifier::loop_isolation(false)]
    pub fn bin_merger(&self, current_bin: Option<&ProjectionBin>, values: &Vec<Option<i64>>) -> (r:
        ProjectionBin)
        requires
            self.wf(),
            values@.len() == self.len(),
            current_bin matches Some(b) ==> self.bins_ok(b@),
            forall|i: int| 0 <= i < self.len() && !self.null_at(i) ==> (#[trigger] values@[i]) is Some,
            forall|i: int|
                0 <= i < self.len() ==> fold_fits(
                    self.agg_at(i),
                    self.null_at(i),
                    cur_bin_at(current_bin, i),
                    opt_int_model(#[trigger] values@[i]),
                ),
        ensures
            r@.len() == self.len(),
            forall|i: int|
                0 <= i < self.len() ==> #[trigger] r@[i] == spec_fold(
                    self.agg_at(i),
                    self.null_at(i),
                    cur_bin_at(current_bin, i),
                    opt_int_model(values@[i]),
                ),
            self.bins_ok(r@),
    {
        let n = self.field_computations.len();
        let mut fields: Vec<BinValue> = Vec::new();
        let mut i: usize = 0;
        while i < n
            invariant
                i <= n,
                fields@.len() == i,
                forall|j: int|
                    0 <= j < i ==> #[trigger] fields@[j]@ == spec_fold(
                        self.agg_at(j),
                        self.null_at(j),
                        cur_bin_at(current_bin, j),
                        opt_int_model(values@[j]),
                    ),
            decreases n - i,
        {
            proof {
                if current_bin is Some {
                    let b = current_bin->0;
                    assert(b@[i as int] == b.fields@[i as int]@);
                }
            }
            let c = &self.field_computations[i];
            let cur: Option<BinValue> = match current_bin {
                Some(b) => Some(b.fields[i]),
                None => None,
            };
            let folded = c.fold_value(cur, values[i]);
            fields.push(folded);
            i += 1;
        }
        ProjectionBin { fields }
    }

    /// Extracts the logical result of every field out of a tuple of bins:
    /// the emission path of a tumbling window.
    #[verifier::loop_isolation(false)]
    pub fn tumbling_aggregation(&self, bin: &ProjectionBin) -> (r: Vec<AggResult>)
        requires
            self.wf(),
            self.bins_ok(bin@),
        ensures
            r@.len() == self.len(),
            forall|i: int| 0 <= i < self.len() ==> (#[trigger] r@[i])@ == spec_bin_extract(bin@[i]),
    {
        let n = self.field_computations.len();
        let mut out: Vec<AggResult> = Vec::new();
        let mut i: usize = 0;
        while i < n
            invariant
                i <= n,
                out@.len() == i,
                forall|j: int| 0 <= j < i ==> (#[trigger] out@[j])@ == spec_bin_extract(bin@[j]),
            decreases n - i,
        {
            proof {
                assert(bin@[i as int] == bin.fields@[i as int]@);
            }
            let c = &self.field_computations[i];
            out.push(c.bin_aggregate(&bin.fields[i]));
            i += 1;
        }
        out
    }

    /// Extracts the logical result of every field out of a live memory:
    /// the emission path of a sliding window.
    #[verifier::loop_isolation(false)]
    pub fn sliding_aggregation(&self, current: &ProjectionMemory) -> (r: Vec<AggResult>)
        requires
            self.wf(),
            self.mem_ok(*current),
        ensures
            r@.len() == self.len(),
            forall|i: int|
                0 <= i < self.len() ==> (#[trigger] r@[i])@ == spec_mem_extract(
                    self.agg_at(i),
                    self.null_at(i),
                    current.mems()[i],
                ),
    {
        let n = self.field_computations.len();
        let mut out: Vec<AggResult> = Vec::new();
        let mut i: usize = 0;
        while i < n
            invariant
                i <= n,
                out@.len() == i,
                forall|j: int|
                    0 <= j < i ==> (#[trigger] out@[j])@ == spec_mem_extract(
                        self.agg_at(j),
                        self.null_at(j),
                        current.mems()[j],
                    ),
            decreases n - i,
        {
            proof {
                assert(current.mems()[i as int] == current.fields@[i as int]@);
            }
            let c = &self.field_computations[i];
            out.push(c.memory_aggregate(&current.fields[i]));
            i += 1;
        }
        out
    }

    /// Merges a tuple of bins into an optional prior memory, raising the
    /// explicit live-bin count in lockstep with every field.
    #[verifier::loop_isolation(false)]
    pub fn memory_add(&self, current: Option<ProjectionMemory>, bin_value: &ProjectionBin) -> (r:
        ProjectionMemory)
        requires
            self.wf(),
            self.bins_ok(bin_value@),
            current matches Some(pm) ==> self.mem_ok(pm) && pm.live_bins < i64::MAX && forall|
                i: int,
            |
                0 <= i < self.len() ==> mem_add_fits(
                    Some(#[trigger] pm.mems()[i]),
                    bin_value@[i],
                ),
        ensures
            r.live_bins as int == match current {
                Some(pm) => pm.live_bins + 1,
                None => 1int,
            },
            r.fields@.len() == self.len(),
            forall|i: int|
                0 <= i < self.len() ==> #[trigger] r.mems()[i] == spec_mem_add(
                    self.agg_at(i),
                    self.null_at(i),
                    match current {
                        Some(pm) => Some(pm.mems()[i]),
                        None => None,
                    },
                    bin_value@[i],
                ),
            self.mem_ok(r),
    {
        let n = self.field_computations.len();
        let mut fields: Vec<MemoryValue> = Vec::new();
        match current {
            Some(pm) => {
                let live = pm.live_bins;
                let ghost orig = pm.fields@;
                let ghost pm0 = pm;
                let mut old_fields = pm.fields;
                let mut i: usize = 0;
                while i < n
                    invariant
                        i <= n,
                        fields@.len() == i,
                        old_fields@ == orig.subrange(i as int, n as int),
                        forall|j: int|
                            0 <= j < i ==> #[trigger] fields@[j]@ == spec_mem_add(
                                self.agg_at(j),
                                self.null_at(j),
                                Some(pm0.mems()[j]),
                                bin_value@[j],
                            ),
                    decreases n - i,
                {
                    proof {
                        assert(old_fields@[0] == orig[i as int]);
                        assert(old_fields@.remove(0) =~= orig.subrange(i as int + 1, n as int));
                        assert(pm0.mems()[i as int] == orig[i as int]@);
                        assert(bin_value@[i as int] == bin_value.fields@[i as int]@);
                    }
                    let m = old_fields.remove(0);
                    let c = &self.field_computations[i];
                    let added = c.memory_add(Some(m), &bin_value.fields[i]);
                    fields.push(added);
                    i += 1;
                }
                let r = ProjectionMemory { live_bins: live + 1, fields };
                proof {
                    assert forall|i: int|
                        0 <= i < self.len() implies mem_bins(#[trigger] r.mems()[i])
                        == r.live_bins as int && mem_shape_ok(
                        self.agg_at(i),
                        self.null_at(i),
                        r.mems()[i],
                    ) by {
                        assert(r.mems()[i] == r.fields@[i]@);
                        assert(r.mems()[i] == spec_mem_add(
                            self.agg_at(i),
                            self.null_at(i),
                            Some(pm0.mems()[i]),
                            bin_value@[i],
                        ));
                        crate::memory::lemma_mem_add_shape(
                            self.agg_at(i),
                            self.null_at(i),
                            Some(pm0.mems()[i]),
                            bin_value@[i],
                        );
                    }
                }
                r
            },
            None => {
                let mut i: usize = 0;
                while i < n
                    invariant
                        i <= n,
                        fields@.len() == i,
                        forall|j: int|
                            0 <= j < i ==> #[trigger] fields@[j]@ == spec_mem_add(
                                self.agg_at(j),
                                self.null_at(j),
                                None,
                                bin_value@[j],
                            ),
                    decreases n - i,
                {
                    proof {
                        assert(bin_value@[i as int] == bin_value.fields@[i as int]@);
                    }
                    let c = &self.field_computations[i];
                    let added = c.memory_add(None, &bin_value.fields[i]);
                    fields.push(added);
                    i += 1;
                }
                let r = ProjectionMemory { live_bins: 1, fields };
                proof {
                    assert forall|i: int|
                        0 <= i < self.len() implies mem_bins(#[trigger] r.mems()[i]) == 1int
                        && mem_shape_ok(self.agg_at(i), self.null_at(i), r.mems()[i]) by {
                        assert(r.mems()[i] == r.fields@[i]@);
                        assert(r.mems()[i] == spec_mem_add(
                            self.agg_at(i),
                            self.null_at(i),
                            None,
                            bin_value@[i],
                        ));
                        crate::memory::lemma_mem_add_shape(
                            self.agg_at(i),
                            self.null_at(i),
                            None,
                            bin_value@[i],
                        );
                    }
                }
                r
            },
        }
    }

    /// Subtracts an expiring tuple of bins out of a memory, lowering the
    /// live-bin count in lockstep. Returns nothing exactly when the last
    /// live bin leaves: the caller's signal to drop the window's state
    /// entirely.
    #[verifier::loop_isolation(false)]
    pub fn memory_remove(&self, current: ProjectionMemory, bin_value: &ProjectionBin) -> (r:
        Option<ProjectionMemory>)
        requires
            self.wf(),
            self.bins_ok(bin_value@),
            self.mem_ok(current),
            forall|i: int|
                0 <= i < self.len() ==> mem_can_remove(
                    self.agg_at(i),
                    self.null_at(i),
                    #[trigger] current.mems()[i],
                    bin_value@[i],
                ),
        ensures
            r is None <==> current.live_bins == 1,
            r matches Some(pm) ==> {
                &&& pm.live_bins as int == current.live_bins - 1
                &&& pm.fields@.len() == self.len()
                &&& forall|i: int|
                    0 <= i < self.len() ==> #[trigger] pm.mems()[i] == spec_mem_remove(
                        self.agg_at(i),
                        self.null_at(i),
                        current.mems()[i],
                        bin_value@[i],
                    )
                &&& self.mem_ok(pm)
            },
    {
        if current.live_bins == 1 {
            return None;
        }
        let n = self.field_computations.len();
        let live = current.live_bins;
        let ghost cur0 = current;
        let ghost orig = current.fields@;
        let mut old_fields = current.fields;
        let mut fields: Vec<MemoryValue> = Vec::new();
        let mut i: usize = 0;
        while i < n
            invariant
                i <= n,
                fields@.len() == i,
                old_fields@ == orig.subrange(i as int, n as int),
                forall|j: int|
                    0 <= j < i ==> #[trigger] fields@[j]@ == spec_mem_remove(
                        self.agg_at(j),
                        self.null_at(j),
                        cur0.mems()[j],
                        bin_value@[j],
                    ),
            decreases n - i,
        {
            proof {
                assert(old_fields@[0] == orig[i as int]);
                assert(old_fields@.remove(0) =~= orig.subrange(i as int + 1, n as int));
                assert(cur0.mems()[i as int] == orig[i as int]@);
                assert(bin_value@[i as int] == bin_value.fields@[i as int]@);
            }
            let m = old_fields.remove(0);
            let c = &self.field_computations[i];
            let removed = c.memory_remove(m, &bin_value.fields[i]);
            fields.push(removed);
            i += 1;
        }
        let pm = ProjectionMemory { live_bins: live - 1, fields };
        proof {
            assert forall|i: int|
                0 <= i < self.len() implies mem_bins(#[trigger] pm.mems()[i])
                == pm.live_bins as int && mem_shape_ok(
                self.agg_at(i),
                self.null_at(i),
                pm.mems()[i],
            ) by {
                assert(pm.mems()[i] == pm.fields@[i]@);
                assert(pm.mems()[i] == spec_mem_remove(
                    self.agg_at(i),
                    self.null_at(i),
                    cur0.mems()[i],
                    bin_value@[i],
                ));
                crate::memory::lemma_mem_remove_shape(
                    self.agg_at(i),
                    self.null_at(i),
                    cur0.mems()[i],
                    bin_value@[i],
                );
            }
        }
        Some(pm)
    }

    /// The output row schema of this projection: one field per aggregate,
    /// named by its column, typed by the aggregate's return type.
    #[verifier::loop_isolation(false)]
    pub fn output_struct(&self) -> (r: StructDef)
        requires
            self.wf(),
        ensures
            r.name is None,
            r.fields@.len() == self.len(),
            forall|i: int|
                0 <= i < self.len() ==> {
                    &&& (#[trigger] r.fields@[i]).name@ == self.field_names@[i].name@
                    &&& crate::schema::opt_string_eq(
                        r.fields@[i].alias,
                        self.field_names@[i].relation,
                    )
                    &&& r.fields@[i].data_type == self.field_computations@[i].spec_return_type()
                },
    {
        let n = self.field_computations.len();
        let mut fields: Vec<StructField> = Vec::new();
        let mut i: usize = 0;
        while i < n
            invariant
                i <= n,
                fields@.len() == i,
                forall|j: int|
                    0 <= j < i ==> {
                        &&& (#[trigger] fields@[j]).name@ == self.field_names@[j].name@
                        &&& crate::schema::opt_string_eq(
                            fields@[j].alias,
                            self.field_names@[j].relation,
                        )
                        &&& fields@[j].data_type == self.field_computations@[j].spec_return_type()
                    },
            decreases n - i,
        {
            let col = &self.field_names[i];
            let c = &self.field_computations[i];
            fields.push(
                StructField {
                    name: clone_string(&col.name),
                    alias: clone_opt_string(&col.relation),
                    data_type: c.return_type(),
                },
            );
            i += 1;
        }
        StructDef { name: None, fields }
    }
}

} // verus!
