//! Numeric type promotion for `Sum` and `Avg`: the host SQL type system
//! decides what a sum or an average of a given primitive type is. That
//! decision is made by the engine's own aggregate definitions, consulted
//! through trusted calls; this module states their documented behaviour
//! and derives the promoted type a widened argument produces.

use vstd::prelude::*;
use datafusion_expr::AggregateUDFImpl;

use crate::schema::ScalarType;

verus! {

/// The widening the engine's `sum` signature applies to its argument
/// before the aggregate runs: signed integers to 64-bit integer, floats to
/// 64-bit float. Other primitive types are not summable.
pub open spec fn spec_sum_coerced(t: ScalarType) -> Option<ScalarType> {
    match t {
        ScalarType::Int32 | ScalarType::Int64 => Some(ScalarType::Int64),
        ScalarType::Float64 => Some(ScalarType::Float64),
        _ => None,
    }
}

/// What the engine's `sum` aggregate returns on an argument type it was
/// handed after widening: 64-bit integers and floats sum as themselves,
/// any other primitive is an error.
pub open spec fn spec_sum_return(t: ScalarType) -> Option<ScalarType> {
    match t {
        ScalarType::Int64 => Some(ScalarType::Int64),
        ScalarType::Float64 => Some(ScalarType::Float64),
        _ => None,
    }
}

/// The numeric sum-promoted type of `t`: what `SUM` over a column of type
/// `t` yields, or nothing when `t` is not summable.
pub open spec fn spec_sum_promoted(t: ScalarType) -> Option<ScalarType> {
    match spec_sum_coerced(t) {
        Some(c) => spec_sum_return(c),
        None => None,
    }
}

/// The widening the engine's `avg` signature applies: every integer and
/// float argument averages over 64-bit floats; other primitive types are
/// not averageable.
pub open spec fn spec_avg_coerced(t: ScalarType) -> Option<ScalarType> {
    match t {
        ScalarType::Int32 | ScalarType::Int64 | ScalarType::Float64 => Some(ScalarType::Float64),
        _ => None,
    }
}

/// What the engine's `avg` aggregate returns: every primitive type of this
/// model (none of which is a decimal or a duration) averages as a 64-bit
/// float.
pub open spec fn spec_avg_return(t: ScalarType) -> Option<ScalarType> {
    Some(ScalarType::Float64)
}

/// The numeric average-promoted type of `t`: what `AVG` over a column of
/// type `t` yields, or nothing when `t` is not averageable.
pub open spec fn spec_avg_promoted(t: ScalarType) -> Option<ScalarType> {
    match spec_avg_coerced(t) {
        Some(c) => spec_avg_return(c),
        None => None,
    }
}

/// Relies on the `return_type` of datafusion's `Sum` aggregate: a 64-bit
/// integer or float argument returns itself; every other primitive
/// argument of this model is rejected.
#[verifier::external_body]
fn sum_return_type_call(t: &ScalarType) -> (r: Option<ScalarType>)
    ensures
        r == spec_sum_return(*t),
{
    let dt = match t {
        ScalarType::Bool => arrow_schema::DataType::Boolean,
        ScalarType::Int32 => arrow_schema::DataType::Int32,
        ScalarType::Int64 => arrow_schema::DataType::Int64,
        ScalarType::Float64 => arrow_schema::DataType::Float64,
        ScalarType::TimestampNanos => arrow_schema::DataType::Timestamp(arrow_schema::TimeUnit::Nanosecond, None),
    };
    match datafusion_functions_aggregate::sum::Sum::new().return_type(&[dt]) {
        Ok(arrow_schema::DataType::Int64) => Some(ScalarType::Int64),
        Ok(arrow_schema::DataType::Float64) => Some(ScalarType::Float64),
        _ => None,
    }
}

/// Relies on the `return_type` of datafusion's `Avg` aggregate: every
/// argument of this model (no decimals, no durations) averages as a 64-bit
/// float.
#[verifier::external_body]
fn avg_return_type_call(t: &ScalarType) -> (r: Option<ScalarType>)
    ensures
        r == spec_avg_return(*t),
{
    let dt = match t {
        ScalarType::Bool => arrow_schema::DataType::Boolean,
        ScalarType::Int32 => arrow_schema::DataType::Int32,
        ScalarType::Int64 => arrow_schema::DataType::Int64,
        ScalarType::Float64 => arrow_schema::DataType::Float64,
        ScalarType::TimestampNanos => arrow_schema::DataType::Timestamp(arrow_schema::TimeUnit::Nanosecond, None),
    };
    match datafusion_functions_aggregate::average::Avg::new().return_type(&[dt]) {
        Ok(arrow_schema::DataType::Float64) => Some(ScalarType::Float64),
        _ => None,
    }
}

/// The numeric sum-promoted type of `t`: widens the argument as the `sum`
/// signature declares, then asks the aggregate for its return type.
pub fn numeric_sum_type(t: &ScalarType) -> (r: Option<ScalarType>)
    ensures
        r == spec_sum_promoted(*t),
{
    let coerced = match t {
        ScalarType::Int32 | ScalarType::Int64 => Some(ScalarType::Int64),
        ScalarType::Float64 => Some(ScalarType::Float64),
        _ => None,
    };
    match coerced {
        Some(c) => sum_return_type_call(&c),
        None => None,
    }
}

/// The numeric average-promoted type of `t`: widens the argument as the
/// `avg` signature declares, then asks the aggregate for its return type.
pub fn numeric_avg_type(t: &ScalarType) -> (r: Option<ScalarType>)
    ensures
        r == spec_avg_promoted(*t),
{
    let coerced = match t {
        ScalarType::Int32 | ScalarType::Int64 | ScalarType::Float64 => Some(ScalarType::Float64),
        _ => None,
    };
    match coerced {
        Some(c) => avg_return_type_call(&c),
        None => None,
    }
}

} // verus!
