use two_phase_agg::bins::{AggResult, Aggregator, BinValue};
use two_phase_agg::expressions::{AggregateError, AggregationExpression, Expression};
use two_phase_agg::memory::MemoryValue;
use two_phase_agg::schema::{ScalarType, TypeDef};
use two_phase_agg::two_phase::{
    BinKind, MemoryKind, ProjectionBin, TwoPhaseAggregateProjection, TwoPhaseAggregation,
};

fn agg(aggregator: Aggregator, scalar: ScalarType, nullable: bool) -> TwoPhaseAggregation {
    TwoPhaseAggregation {
        incoming_expression: Expression { data_type: TypeDef::Data(scalar, nullable) },
        aggregator,
    }
}

#[test]
fn combine_is_associative_for_sum() {
    let a = agg(Aggregator::Sum, ScalarType::Int64, false);
    let (b1, b2, b3) = (BinValue::Value(4), BinValue::Value(-7), BinValue::Value(11));
    let left = a.combine_bin(&a.combine_bin(&b1, &b2), &b3);
    let right = a.combine_bin(&b1, &a.combine_bin(&b2, &b3));
    assert_eq!(left, right);
    assert_eq!(left, BinValue::Value(8));
}

#[test]
fn combine_is_associative_for_nullable_min() {
    let a = agg(Aggregator::Min, ScalarType::Int64, true);
    let b1 = BinValue::OptValue(Some(5));
    let b2 = BinValue::OptValue(None);
    let b3 = BinValue::OptValue(Some(2));
    let left = a.combine_bin(&a.combine_bin(&b1, &b2), &b3);
    let right = a.combine_bin(&b1, &a.combine_bin(&b2, &b3));
    assert_eq!(left, right);
    assert_eq!(left, BinValue::OptValue(Some(2)));
}

#[test]
fn folding_matches_combining_single_bins_for_count() {
    let a = agg(Aggregator::Count, ScalarType::Int64, true);
    let values = [Some(1), None, Some(3), Some(5), None];
    let mut folded: Option<BinValue> = None;
    let mut combined: Option<BinValue> = None;
    for v in values {
        folded = Some(a.fold_value(folded, v));
        let single = a.fold_value(None, v);
        combined = Some(match combined {
            Some(c) => a.combine_bin(&c, &single),
            None => single,
        });
    }
    assert_eq!(folded, combined);
    assert_eq!(folded, Some(BinValue::Count(3)));
}

#[test]
fn folding_matches_combining_single_bins_for_every_aggregator() {
    let cases = [
        (Aggregator::Count, false),
        (Aggregator::Count, true),
        (Aggregator::Sum, false),
        (Aggregator::Sum, true),
        (Aggregator::Min, false),
        (Aggregator::Min, true),
        (Aggregator::Max, false),
        (Aggregator::Max, true),
        (Aggregator::Avg, false),
        (Aggregator::Avg, true),
    ];
    for (aggregator, nullable) in cases {
        let a = agg(aggregator, ScalarType::Int64, nullable);
        let values: Vec<Option<i64>> = if nullable {
            vec![Some(9), None, Some(-2), Some(4)]
        } else {
            vec![Some(9), Some(7), Some(-2), Some(4)]
        };
        let mut folded: Option<BinValue> = None;
        let mut combined: Option<BinValue> = None;
        for v in values {
            folded = Some(a.fold_value(folded, v));
            let single = a.fold_value(None, v);
            combined = Some(match combined {
                Some(c) => a.combine_bin(&c, &single),
                None => single,
            });
        }
        assert_eq!(folded, combined);
    }
}

#[test]
fn memory_remove_undoes_memory_add_for_sum() {
    let a = agg(Aggregator::Sum, ScalarType::Int64, false);
    let m = a.memory_add(None, &BinValue::Value(10));
    let m = a.memory_add(Some(m), &BinValue::Value(25));
    let grown = a.memory_add(Some(m.clone()), &BinValue::Value(7));
    let back = a.memory_remove(grown, &BinValue::Value(7));
    assert_eq!(back, m);
}

#[test]
fn memory_remove_undoes_memory_add_for_nullable_avg() {
    let a = agg(Aggregator::Avg, ScalarType::Int64, true);
    let m = a.memory_add(None, &BinValue::OptPair(Some((2, 10))));
    let grown = a.memory_add(Some(m.clone()), &BinValue::OptPair(Some((1, 5))));
    let back = a.memory_remove(grown, &BinValue::OptPair(Some((1, 5))));
    assert_eq!(back, m);
}

#[test]
fn min_extraction_survives_add_then_remove() {
    let a = agg(Aggregator::Min, ScalarType::Int64, false);
    let m = a.memory_add(None, &BinValue::Value(8));
    let m = a.memory_add(Some(m), &BinValue::Value(3));
    let before = a.memory_aggregate(&m);
    assert_eq!(before, AggResult::Int(3));
    let grown = a.memory_add(Some(m.clone()), &BinValue::Value(1));
    assert_eq!(a.memory_aggregate(&grown), AggResult::Int(1));
    let back = a.memory_remove(grown, &BinValue::Value(1));
    assert_eq!(a.memory_aggregate(&back), before);
    assert_eq!(back, m);
}

#[test]
fn max_extraction_tracks_largest_live_value() {
    let a = agg(Aggregator::Max, ScalarType::Int64, true);
    let m = a.memory_add(None, &BinValue::OptValue(Some(8)));
    let m = a.memory_add(Some(m), &BinValue::OptValue(None));
    let m = a.memory_add(Some(m), &BinValue::OptValue(Some(15)));
    assert_eq!(a.memory_aggregate(&m), AggResult::OptInt(Some(15)));
    let m = a.memory_remove(m, &BinValue::OptValue(Some(15)));
    assert_eq!(a.memory_aggregate(&m), AggResult::OptInt(Some(8)));
}

#[test]
fn all_null_input_folds_to_null_bin() {
    let sum = agg(Aggregator::Sum, ScalarType::Int64, true);
    let avg = agg(Aggregator::Avg, ScalarType::Int64, true);
    let count = agg(Aggregator::Count, ScalarType::Int64, true);
    let mut sb: Option<BinValue> = None;
    let mut ab: Option<BinValue> = None;
    let mut cb: Option<BinValue> = None;
    for _ in 0..4 {
        sb = Some(sum.fold_value(sb, None));
        ab = Some(avg.fold_value(ab, None));
        cb = Some(count.fold_value(cb, None));
    }
    assert_eq!(sb, Some(BinValue::OptValue(None)));
    assert_eq!(ab, Some(BinValue::OptPair(None)));
    assert_eq!(cb, Some(BinValue::Count(0)));
}

#[test]
fn single_value_amid_nulls_survives() {
    for aggregator in [Aggregator::Sum, Aggregator::Min, Aggregator::Max] {
        let a = agg(aggregator, ScalarType::Int64, true);
        let mut b: Option<BinValue> = None;
        for v in [None, None, Some(42), None] {
            b = Some(a.fold_value(b, v));
        }
        assert_eq!(b, Some(BinValue::OptValue(Some(42))));
    }
    let a = agg(Aggregator::Avg, ScalarType::Int64, true);
    let mut b: Option<BinValue> = None;
    for v in [None, Some(42), None] {
        b = Some(a.fold_value(b, v));
    }
    assert_eq!(b, Some(BinValue::OptPair(Some((1, 42)))));
}

#[test]
fn avg_over_nullable_column_tumbling_window() {
    let names = vec![two_phase_agg::schema::Column { relation: None, name: String::from("avg_v") }];
    let comps = vec![AggregationExpression {
        incoming_expression: Expression { data_type: TypeDef::Data(ScalarType::Int64, true) },
        aggregator: Aggregator::Avg,
    }];
    let p = two_phase_agg::operators::AggregateProjection {
        field_names: names,
        field_computations: comps,
    };
    let two_phase = TwoPhaseAggregateProjection::try_from(p).unwrap();
    let rows: [Option<i64>; 5] = [Some(1), None, Some(3), Some(5), None];
    let mut bin: Option<ProjectionBin> = None;
    for v in rows {
        let next = two_phase.bin_merger(bin.as_ref(), &vec![v]);
        bin = Some(next);
    }
    let bin = bin.unwrap();
    assert_eq!(bin.fields, vec![BinValue::OptPair(Some((3, 9)))]);
    let results = two_phase.tumbling_aggregation(&bin);
    assert_eq!(results.len(), 1);
    match results[0] {
        AggResult::OptRatio(Some((count, sum))) => {
            assert_eq!(count, 3);
            assert_eq!(sum, 9);
            let average = (sum as f64) / (count as f64);
            assert_eq!(average, 3.0);
        }
        ref other => panic!("unexpected extraction {:?}", other),
    }
}

#[test]
fn count_distinct_is_rejected() {
    let e = AggregationExpression {
        incoming_expression: Expression { data_type: TypeDef::Data(ScalarType::Int64, false) },
        aggregator: Aggregator::CountDistinct,
    };
    let r = TwoPhaseAggregation::try_from(e);
    assert!(matches!(r, Err(AggregateError::UnsupportedAggregator)));
}

#[test]
fn count_distinct_is_rejected_in_a_projection() {
    let p = two_phase_agg::operators::AggregateProjection {
        field_names: vec![
            two_phase_agg::schema::Column { relation: None, name: String::from("c") },
            two_phase_agg::schema::Column { relation: None, name: String::from("d") },
        ],
        field_computations: vec![
            AggregationExpression {
                incoming_expression: Expression {
                    data_type: TypeDef::Data(ScalarType::Int64, false),
                },
                aggregator: Aggregator::Count,
            },
            AggregationExpression {
                incoming_expression: Expression {
                    data_type: TypeDef::Data(ScalarType::Int64, false),
                },
                aggregator: Aggregator::CountDistinct,
            },
        ],
    };
    let r = TwoPhaseAggregateProjection::try_from(p);
    assert!(matches!(r, Err(AggregateError::UnsupportedAggregator)));
    assert!(
        AggregateError::UnsupportedAggregator
            .message()
            .contains("not supported")
    );
}

#[test]
fn projection_bins_round_trip_for_arity_one_and_two() {
    let one = ProjectionBin { fields: vec![BinValue::Count(5)] };
    assert_eq!(one.fields.len(), 1);
    assert_eq!(one.fields[0], BinValue::Count(5));
    let two = ProjectionBin { fields: vec![BinValue::Count(5), BinValue::Value(9)] };
    assert_eq!(two.fields.len(), 2);
    assert_eq!(two.fields, vec![BinValue::Count(5), BinValue::Value(9)]);
    assert_ne!(
        ProjectionBin { fields: vec![BinValue::Count(5)] },
        ProjectionBin { fields: vec![BinValue::Count(5), BinValue::Count(5)] }
    );
}

#[test]
fn projection_combine_without_prior_bin_copies() {
    let p = TwoPhaseAggregateProjection {
        field_names: vec![two_phase_agg::schema::Column { relation: None, name: String::from("n") }],
        field_computations: vec![agg(Aggregator::Sum, ScalarType::Int64, false)],
    };
    let arg = ProjectionBin { fields: vec![BinValue::Value(6)] };
    let merged = p.combine_bin(None, &arg);
    assert_eq!(merged.fields, vec![BinValue::Value(6)]);
    let merged2 = p.combine_bin(Some(&merged), &arg);
    assert_eq!(merged2.fields, vec![BinValue::Value(12)]);
}

#[test]
fn projection_memory_drops_at_zero_live_bins() {
    let p = TwoPhaseAggregateProjection {
        field_names: vec![
            two_phase_agg::schema::Column { relation: None, name: String::from("total") },
            two_phase_agg::schema::Column { relation: None, name: String::from("low") },
        ],
        field_computations: vec![
            agg(Aggregator::Sum, ScalarType::Int64, false),
            agg(Aggregator::Min, ScalarType::Int64, false),
        ],
    };
    let b1 = ProjectionBin { fields: vec![BinValue::Value(10), BinValue::Value(4)] };
    let b2 = ProjectionBin { fields: vec![BinValue::Value(32), BinValue::Value(9)] };
    let m = p.memory_add(None, &b1);
    assert_eq!(m.live_bins, 1);
    let m = p.memory_add(Some(m), &b2);
    assert_eq!(m.live_bins, 2);
    let results = p.sliding_aggregation(&m);
    assert_eq!(results, vec![AggResult::Int(42), AggResult::Int(4)]);
    let m = p.memory_remove(m, &b1).unwrap();
    assert_eq!(m.live_bins, 1);
    assert_eq!(
        p.sliding_aggregation(&m),
        vec![AggResult::Int(32), AggResult::Int(9)]
    );
    let gone = p.memory_remove(m, &b2);
    assert!(gone.is_none());
}

#[test]
fn bin_and_memory_kinds_follow_aggregator_and_nullability() {
    assert_eq!(agg(Aggregator::Count, ScalarType::Int64, true).bin_kind(), BinKind::Counter);
    assert_eq!(agg(Aggregator::Sum, ScalarType::Int64, false).bin_kind(), BinKind::Plain);
    assert_eq!(agg(Aggregator::Sum, ScalarType::Int64, true).bin_kind(), BinKind::OptPlain);
    assert_eq!(agg(Aggregator::Avg, ScalarType::Int64, false).bin_kind(), BinKind::Pair);
    assert_eq!(agg(Aggregator::Avg, ScalarType::Int64, true).bin_kind(), BinKind::OptPair);
    assert_eq!(
        agg(Aggregator::Min, ScalarType::Int64, true).memory_kind(),
        MemoryKind::Ordered
    );
    assert_eq!(
        agg(Aggregator::Sum, ScalarType::Int64, true).memory_kind(),
        MemoryKind::OptSumming
    );
    assert_eq!(
        agg(Aggregator::Count, ScalarType::Int64, false).memory_kind(),
        MemoryKind::Counting
    );
}

#[test]
fn count_memory_keeps_running_total() {
    let a = agg(Aggregator::Count, ScalarType::Int64, false);
    let m = a.memory_add(None, &BinValue::Count(3));
    let m = a.memory_add(Some(m), &BinValue::Count(2));
    assert_eq!(a.memory_aggregate(&m), AggResult::Int(5));
    match &m {
        MemoryValue::Counting { bins, total } => {
            assert_eq!(*bins, 2);
            assert_eq!(*total, 5);
        }
        other => panic!("unexpected memory {:?}", other),
    }
}

#[test]
fn nullable_sum_memory_reverts_to_null() {
    let a = agg(Aggregator::Sum, ScalarType::Int64, true);
    let m = a.memory_add(None, &BinValue::OptValue(None));
    let m = a.memory_add(Some(m), &BinValue::OptValue(Some(12)));
    assert_eq!(a.memory_aggregate(&m), AggResult::OptInt(Some(12)));
    let m = a.memory_remove(m, &BinValue::OptValue(Some(12)));
    assert_eq!(a.memory_aggregate(&m), AggResult::OptInt(None));
}
