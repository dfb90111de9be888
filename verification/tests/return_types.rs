use two_phase_agg::bins::Aggregator;
use two_phase_agg::expressions::{AggregationExpression, Expression};
use two_phase_agg::operators::AggregateProjection;
use two_phase_agg::schema::{Column, ScalarType, TypeDef};
use two_phase_agg::two_phase::TwoPhaseAggregation;

fn expr(scalar: ScalarType, nullable: bool) -> Expression {
    Expression { data_type: TypeDef::Data(scalar, nullable) }
}

#[test]
fn count_returns_non_null_int64() {
    let e = AggregationExpression {
        incoming_expression: expr(ScalarType::Float64, true),
        aggregator: Aggregator::Count,
    };
    assert!(matches!(e.return_type(), TypeDef::Data(ScalarType::Int64, false)));
}

#[test]
fn sum_keeps_incoming_nullability_and_promotes() {
    let e = AggregationExpression {
        incoming_expression: expr(ScalarType::Int32, true),
        aggregator: Aggregator::Sum,
    };
    assert!(matches!(e.return_type(), TypeDef::Data(ScalarType::Int64, true)));
    let e = AggregationExpression {
        incoming_expression: expr(ScalarType::Int32, false),
        aggregator: Aggregator::Sum,
    };
    assert!(matches!(e.return_type(), TypeDef::Data(ScalarType::Int64, false)));
}

#[test]
fn min_and_max_return_incoming_type_unchanged() {
    for aggregator in [Aggregator::Min, Aggregator::Max] {
        let e = AggregationExpression {
            incoming_expression: expr(ScalarType::TimestampNanos, true),
            aggregator,
        };
        assert!(matches!(
            e.return_type(),
            TypeDef::Data(ScalarType::TimestampNanos, true)
        ));
    }
}

#[test]
fn avg_returns_float_with_incoming_nullability() {
    let e = AggregationExpression {
        incoming_expression: expr(ScalarType::Int64, true),
        aggregator: Aggregator::Avg,
    };
    assert!(matches!(e.return_type(), TypeDef::Data(ScalarType::Float64, true)));
}

#[test]
fn two_phase_aggregate_type_is_the_bin_scalar() {
    let t = TwoPhaseAggregation {
        incoming_expression: expr(ScalarType::Int32, false),
        aggregator: Aggregator::Avg,
    };
    assert_eq!(t.aggregate_type(), ScalarType::Int64);
    assert!(matches!(t.aggregate_type_def(), TypeDef::Data(ScalarType::Int64, false)));
    assert!(matches!(t.return_type(), TypeDef::Data(ScalarType::Float64, false)));
    let t = TwoPhaseAggregation {
        incoming_expression: expr(ScalarType::Int64, true),
        aggregator: Aggregator::Min,
    };
    assert_eq!(t.aggregate_type(), ScalarType::Int64);
    assert!(matches!(t.return_type(), TypeDef::Data(ScalarType::Int64, true)));
}

#[test]
fn aggregate_projection_output_struct_uses_return_types() {
    let p = AggregateProjection {
        field_names: vec![
            Column { relation: None, name: String::from("n") },
            Column { relation: Some(String::from("s")), name: String::from("m") },
        ],
        field_computations: vec![
            AggregationExpression {
                incoming_expression: expr(ScalarType::Int64, true),
                aggregator: Aggregator::Count,
            },
            AggregationExpression {
                incoming_expression: expr(ScalarType::Int32, true),
                aggregator: Aggregator::Sum,
            },
        ],
    };
    let s = p.output_struct();
    assert_eq!(s.fields.len(), 2);
    assert_eq!(s.fields[0].name, "n");
    assert!(matches!(s.fields[0].data_type, TypeDef::Data(ScalarType::Int64, false)));
    assert_eq!(s.fields[1].name, "m");
    assert_eq!(s.fields[1].alias, Some(String::from("s")));
    assert!(matches!(s.fields[1].data_type, TypeDef::Data(ScalarType::Int64, true)));
    assert!(matches!(p.return_type(), TypeDef::Struct(_, false)));
}
