use two_phase_agg::counts::SortedCounts;
use two_phase_agg::expressions::Expression;
use two_phase_agg::operators::{
    window_interval, GroupByKind, Projection, RowValue, WindowType,
};
use two_phase_agg::promotion::{numeric_avg_type, numeric_sum_type};
use two_phase_agg::schema::{
    window_type_def, Column, ScalarType, StructDef, StructField, TypeDef,
};

#[test]
fn window_epsilon_is_exactly_one_nanosecond() {
    // An event at 1000 ms in a 10 s window.
    let t: i64 = 1_000_000_000;
    let width: i64 = 10_000_000_000;
    let (start, end) = window_interval(t, width);
    assert_eq!(start, t - width + 1);
    assert_eq!(start, -8_999_999_999);
    assert_eq!(end, t + 1);
    assert_eq!(end, 1_000_000_001);
}

#[test]
fn windowed_group_by_materializes_the_interval() {
    let group = GroupByKind::WindowOutput {
        index: 1,
        column: Column { relation: None, name: String::from("window") },
        window_type: WindowType::Tumbling { width: 10_000_000_000 },
    };
    let key = vec![Some(7)];
    let aggregate = vec![Some(42), None];
    let row = group.construct_row(&key, &aggregate, 1_000_000_000);
    assert_eq!(row.len(), 4);
    assert_eq!(row[0], RowValue::Data(Some(7)));
    assert_eq!(row[1], RowValue::Window { start: -8_999_999_999, end: 1_000_000_001 });
    assert_eq!(row[2], RowValue::Data(Some(42)));
    assert_eq!(row[3], RowValue::Data(None));
}

#[test]
fn instant_window_has_zero_width() {
    let group = GroupByKind::WindowOutput {
        index: 0,
        column: Column { relation: None, name: String::from("window") },
        window_type: WindowType::Instant,
    };
    let row = group.construct_row(&vec![], &vec![Some(1)], 500);
    assert_eq!(row[0], RowValue::Window { start: 501, end: 501 });
    assert_eq!(row[1], RowValue::Data(Some(1)));
}

#[test]
fn basic_group_by_concatenates_key_and_aggregate() {
    let group = GroupByKind::Basic;
    let row = group.construct_row(&vec![Some(1), None], &vec![Some(9)], 0);
    assert_eq!(
        row,
        vec![RowValue::Data(Some(1)), RowValue::Data(None), RowValue::Data(Some(9))]
    );
    let key_struct = StructDef {
        name: None,
        fields: vec![StructField {
            name: String::from("k"),
            alias: None,
            data_type: TypeDef::Data(ScalarType::Int64, false),
        }],
    };
    let agg_struct = StructDef {
        name: None,
        fields: vec![StructField {
            name: String::from("total"),
            alias: None,
            data_type: TypeDef::Data(ScalarType::Int64, false),
        }],
    };
    let out = group.output_struct(&key_struct, &agg_struct);
    assert_eq!(out.fields.len(), 2);
    assert_eq!(out.fields[0].name, "k");
    assert_eq!(out.fields[1].name, "total");
}

#[test]
fn windowed_output_struct_inserts_window_field() {
    let group = GroupByKind::WindowOutput {
        index: 0,
        column: Column { relation: Some(String::from("q")), name: String::from("w") },
        window_type: WindowType::Sliding { width: 20, slide: 5 },
    };
    let key_struct = StructDef {
        name: None,
        fields: vec![StructField {
            name: String::from("k"),
            alias: None,
            data_type: TypeDef::Data(ScalarType::Int64, false),
        }],
    };
    let agg_struct = StructDef {
        name: None,
        fields: vec![StructField {
            name: String::from("total"),
            alias: None,
            data_type: TypeDef::Data(ScalarType::Int64, true),
        }],
    };
    let out = group.output_struct(&key_struct, &agg_struct);
    assert_eq!(out.fields.len(), 3);
    assert_eq!(out.fields[0].name, "w");
    assert_eq!(out.fields[0].alias, Some(String::from("q")));
    assert!(matches!(out.fields[0].data_type, TypeDef::Window));
    assert_eq!(out.fields[1].name, "k");
    assert_eq!(out.fields[2].name, "total");
}

#[test]
fn without_window_drops_window_typed_fields() {
    let p = Projection {
        field_names: vec![
            Column { relation: None, name: String::from("a") },
            Column { relation: None, name: String::from("w") },
            Column { relation: None, name: String::from("b") },
        ],
        field_computations: vec![
            Expression { data_type: TypeDef::Data(ScalarType::Int64, false) },
            Expression { data_type: window_type_def() },
            Expression { data_type: TypeDef::Data(ScalarType::Bool, true) },
        ],
    };
    let trimmed = p.without_window();
    assert_eq!(trimmed.field_names.len(), 2);
    assert_eq!(trimmed.field_names[0].name, "a");
    assert_eq!(trimmed.field_names[1].name, "b");
    assert_eq!(trimmed.field_computations.len(), 2);
}

#[test]
fn projection_output_struct_names_and_types() {
    let p = Projection {
        field_names: vec![
            Column { relation: Some(String::from("t")), name: String::from("x") },
            Column { relation: None, name: String::from("y") },
        ],
        field_computations: vec![
            Expression { data_type: TypeDef::Data(ScalarType::Int32, false) },
            Expression { data_type: TypeDef::Data(ScalarType::Float64, true) },
        ],
    };
    let s = p.output_struct();
    assert_eq!(s.fields.len(), 2);
    assert_eq!(s.fields[0].name, "x");
    assert_eq!(s.fields[0].alias, Some(String::from("t")));
    assert_eq!(s.fields[0].field_identifier(), "t_x");
    assert_eq!(s.fields[1].field_identifier(), "y");
    assert!(matches!(s.fields[1].data_type, TypeDef::Data(ScalarType::Float64, true)));
    let truncated = p.truncated_return_type(1);
    assert_eq!(truncated.fields.len(), 1);
    assert_eq!(truncated.fields[0].name, "x");
    let over = p.truncated_return_type(10);
    assert_eq!(over.fields.len(), 2);
    match p.return_type() {
        TypeDef::Struct(def, nullable) => {
            assert!(!nullable);
            assert_eq!(def.fields.len(), 2);
        }
        other => panic!("unexpected type {:?}", other),
    }
}

#[test]
fn sum_promotion_widens_narrow_integers() {
    assert_eq!(numeric_sum_type(&ScalarType::Int32), Some(ScalarType::Int64));
    assert_eq!(numeric_sum_type(&ScalarType::Int64), Some(ScalarType::Int64));
    assert_eq!(numeric_sum_type(&ScalarType::Float64), Some(ScalarType::Float64));
    assert_eq!(numeric_sum_type(&ScalarType::Bool), None);
    assert_eq!(numeric_sum_type(&ScalarType::TimestampNanos), None);
}

#[test]
fn avg_promotion_yields_float() {
    assert_eq!(numeric_avg_type(&ScalarType::Int32), Some(ScalarType::Float64));
    assert_eq!(numeric_avg_type(&ScalarType::Int64), Some(ScalarType::Float64));
    assert_eq!(numeric_avg_type(&ScalarType::Float64), Some(ScalarType::Float64));
    assert_eq!(numeric_avg_type(&ScalarType::Bool), None);
}

#[test]
fn sorted_counts_track_multiplicities_in_order() {
    let mut counts = SortedCounts::new();
    counts.increment(30);
    counts.increment(10);
    counts.increment(30);
    counts.increment(20);
    assert_eq!(counts.entries, vec![(10, 1), (20, 1), (30, 2)]);
    assert_eq!(counts.min_key(), 10);
    assert_eq!(counts.max_key(), 30);
    counts.decrement(10);
    assert_eq!(counts.min_key(), 20);
    counts.decrement(30);
    assert_eq!(counts.entries, vec![(20, 1), (30, 1)]);
    assert!(!counts.is_empty());
    counts.decrement(20);
    counts.decrement(30);
    assert!(counts.is_empty());
}

#[test]
fn projection_rows_pass_values_through_in_order() {
    let p = Projection {
        field_names: vec![
            Column { relation: None, name: String::from("a") },
            Column { relation: None, name: String::from("b") },
            Column { relation: None, name: String::from("c") },
        ],
        field_computations: vec![
            Expression { data_type: TypeDef::Data(ScalarType::Int64, true) },
            Expression { data_type: TypeDef::Data(ScalarType::Int64, true) },
            Expression { data_type: TypeDef::Data(ScalarType::Int64, true) },
        ],
    };
    let values = vec![Some(1), None, Some(3)];
    assert_eq!(p.construct_row(&values), values);
    assert_eq!(p.construct_truncated_row(&values, 2), vec![Some(1), None]);
    assert_eq!(p.construct_truncated_row(&values, 9), values);
}

#[test]
fn schema_as_type_wraps_the_definition() {
    let s = StructDef {
        name: Some(String::from("row")),
        fields: vec![StructField {
            name: String::from("k"),
            alias: None,
            data_type: TypeDef::Data(ScalarType::Int64, false),
        }],
    };
    match s.as_type() {
        TypeDef::Struct(inner, nullable) => {
            assert!(!nullable);
            assert_eq!(inner.name, Some(String::from("row")));
            assert_eq!(inner.fields.len(), 1);
        }
        other => panic!("unexpected type {:?}", other),
    }
    assert!(matches!(window_type_def(), TypeDef::Window));
}
