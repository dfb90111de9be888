//! Aggregate expression algebra: an aggregate function applied to an
//! opaque scalar computation, and the naive (single-phase) return type
//! each application carries.

use vstd::prelude::*;
use vstd::string::StringExecFns;

use crate::bins::Aggregator;
use crate::promotion::{numeric_avg_type, numeric_sum_type, spec_avg_promoted, spec_sum_promoted};
use crate::schema::{clone_flat_type, ScalarType, TypeDef};

verus! {

/// Why an aggregate derivation was rejected at compile time.
#[derive(Clone, Copy, PartialEq, Eq, Structural, Debug)]
pub enum AggregateError {
    /// Two-phase state was requested for an aggregator that has none:
    /// `COUNT(DISTINCT ...)` cannot be split into combinable bins.
    UnsupportedAggregator,
}

impl AggregateError {
    /// A human-readable description of the failure.
    pub fn message(&self) -> String {
        String::from_str("two-phase aggregation is not supported for this aggregator")
    }
}

/// An opaque scalar computation over an input row, consumed here only
/// through its return type and nullability; lowering it to an executable
/// expression is the concern of the surrounding compiler.
#[derive(Debug)]
pub struct Expression {
    pub data_type: TypeDef,
}

impl Expression {
    /// The nullability the computation's return type declares.
    pub open spec fn spec_nullable(self) -> bool {
        match self.data_type {
            TypeDef::Data(_, n) => n,
            TypeDef::Struct(_, n) => n,
            TypeDef::Window => false,
        }
    }

    /// The type of the value this computation produces.
    pub fn return_type(&self) -> (r: &TypeDef)
        ensures
            r == &self.data_type,
    {
        &self.data_type
    }

    /// Whether the produced value can be null.
    pub fn nullable(&self) -> (r: bool)
        ensures
            r == self.spec_nullable(),
    {
        match &self.data_type {
            TypeDef::Data(_, n) => *n,
            TypeDef::Struct(_, n) => *n,
            TypeDef::Window => false,
        }
    }
}

/// An aggregate function applied to a scalar computation.
#[derive(Debug)]
pub struct AggregationExpression {
    pub incoming_expression: Expression,
    pub aggregator: Aggregator,
}

impl AggregationExpression {
    /// What the upstream type checker guarantees before this layer runs:
    /// the incoming computation yields a primitive (never a row), and a
    /// summed or averaged column has a numeric promotion.
    pub open spec fn types_ok(self) -> bool {
        &&& self.incoming_expression.data_type matches TypeDef::Data(_, _)
        &&& (self.aggregator == Aggregator::Sum ==> spec_sum_promoted(
            self.incoming_expression.data_type->Data_0,
        ) is Some)
        &&& (self.aggregator == Aggregator::Avg ==> spec_avg_promoted(
            self.incoming_expression.data_type->Data_0,
        ) is Some)
    }

    /// The naive return type: `Count` counts as a never-null 64-bit
    /// integer, `Sum` and `Avg` promote numerically and keep the incoming
    /// nullability, `Min` and `Max` return the incoming type unchanged.
    pub open spec fn spec_return_type(self) -> TypeDef {
        let t = self.incoming_expression.data_type->Data_0;
        let n = self.incoming_expression.spec_nullable();
        match self.aggregator {
            Aggregator::Count | Aggregator::CountDistinct => TypeDef::Data(
                ScalarType::Int64,
                false,
            ),
            Aggregator::Sum => TypeDef::Data(spec_sum_promoted(t)->0, n),
            Aggregator::Min | Aggregator::Max => self.incoming_expression.data_type,
            Aggregator::Avg => TypeDef::Data(spec_avg_promoted(t)->0, n),
        }
    }

    /// Produces [`Self::spec_return_type`].
    pub fn return_type(&self) -> (r: TypeDef)
        requires
            self.types_ok(),
        ensures
            r == self.spec_return_type(),
    {
        match self.aggregator {
            Aggregator::Count | Aggregator::CountDistinct => TypeDef::Data(
                ScalarType::Int64,
                false,
            ),
            Aggregator::Min | Aggregator::Max => clone_flat_type(
                &self.incoming_expression.data_type,
            ),
            Aggregator::Sum => {
                let n = self.incoming_expression.nullable();
                match &self.incoming_expression.data_type {
                    TypeDef::Data(t, _) => match numeric_sum_type(t) {
                        Some(p) => TypeDef::Data(p, n),
                        None => {
                            proof {
                                assert(false);
                            }
                            TypeDef::Window
                        },
                    },
                    _ => {
                        proof {
                            assert(false);
                        }
                        TypeDef::Window
                    },
                }
            },
            Aggregator::Avg => {
                let n = self.incoming_expression.nullable();
                match &self.incoming_expression.data_type {
                    TypeDef::Data(t, _) => match numeric_avg_type(t) {
                        Some(p) => TypeDef::Data(p, n),
                        None => {
                            proof {
                                assert(false);
                            }
                            TypeDef::Window
                        },
                    },
                    _ => {
                        proof {
                            assert(false);
                        }
                        TypeDef::Window
                    },
                }
            },
        }
    }
}

} // verus!
