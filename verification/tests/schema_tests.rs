use datawise_core::schema::{
    column_names, infer_schema, value_to_datatype, Field, Schema, SemanticType,
};
use datawise_core::value::{FloatCell, RowSet, SqlValue};

fn float_cell(f: f64) -> FloatCell {
    FloatCell::new(f.to_bits(), format!("{:?}", f), serde_json::Value::from(f))
}

#[test]
fn every_tag_has_its_type() {
    assert_eq!(value_to_datatype(&SqlValue::Boolean(true)), SemanticType::Boolean);
    assert_eq!(value_to_datatype(&SqlValue::TinyInt(1)), SemanticType::Int32);
    assert_eq!(value_to_datatype(&SqlValue::SmallInt(1)), SemanticType::Int32);
    assert_eq!(value_to_datatype(&SqlValue::Int(1)), SemanticType::Int32);
    assert_eq!(value_to_datatype(&SqlValue::BigInt(1)), SemanticType::Int64);
    assert_eq!(value_to_datatype(&SqlValue::Float(float_cell(1.0))), SemanticType::Float64);
    assert_eq!(value_to_datatype(&SqlValue::Double(float_cell(1.0))), SemanticType::Float64);
    assert_eq!(value_to_datatype(&SqlValue::Text("t".to_string())), SemanticType::Utf8);
    assert_eq!(value_to_datatype(&SqlValue::Null), SemanticType::Utf8);
    assert_eq!(value_to_datatype(&SqlValue::Unsupported("x".to_string())), SemanticType::Utf8);
}

#[test]
fn placeholder_names_count_from_zero() {
    assert_eq!(column_names(0), Vec::<String>::new());
    assert_eq!(column_names(3), vec!["col_0", "col_1", "col_2"]);
    let names = column_names(12);
    assert_eq!(names.len(), 12);
    assert_eq!(names[9], "col_9");
    assert_eq!(names[10], "col_10");
    assert_eq!(names[11], "col_11");
}

#[test]
fn the_schema_is_typed_by_the_first_row() {
    let rows = RowSet::from_rows(vec![
        vec![SqlValue::Int(1), SqlValue::Null, SqlValue::BigInt(7)],
        vec![SqlValue::Text("late".to_string()), SqlValue::Int(2), SqlValue::Null],
    ])
    .unwrap();
    let schema = infer_schema(&column_names(3), &rows);
    assert_eq!(schema.len(), 3);
    assert_eq!(schema.fields[0].name, "col_0");
    assert_eq!(schema.fields[0].data_type, SemanticType::Int32);
    assert_eq!(schema.fields[1].name, "col_1");
    assert_eq!(schema.fields[1].data_type, SemanticType::Utf8);
    assert_eq!(schema.fields[2].name, "col_2");
    assert_eq!(schema.fields[2].data_type, SemanticType::Int64);
    assert!(schema.fields.iter().all(|f| f.nullable));
}

#[test]
fn without_rows_every_column_is_a_string_column() {
    let rows = RowSet::new();
    let names = vec!["a".to_string(), "b".to_string()];
    let schema = infer_schema(&names, &rows);
    assert_eq!(schema.len(), 2);
    assert_eq!(schema.fields[0].name, "a");
    assert_eq!(schema.fields[0].data_type, SemanticType::Utf8);
    assert_eq!(schema.fields[1].data_type, SemanticType::Utf8);
    assert!(schema.fields[0].nullable && schema.fields[1].nullable);
}

#[test]
fn a_name_past_the_first_row_is_a_string_column() {
    let rows = RowSet::from_rows(vec![vec![SqlValue::Boolean(true)]]).unwrap();
    let names = vec!["x".to_string(), "y".to_string()];
    let schema = infer_schema(&names, &rows);
    assert_eq!(schema.fields[0].data_type, SemanticType::Boolean);
    assert_eq!(schema.fields[1].data_type, SemanticType::Utf8);
}

#[test]
fn schemas_and_fields_are_copied_whole() {
    let schema = Schema::new(vec![
        Field::new("id".to_string(), SemanticType::Int64, true),
        Field::new("ok".to_string(), SemanticType::Boolean, false),
    ]);
    let copy = schema.duplicate();
    assert_eq!(copy.len(), 2);
    assert_eq!(copy.fields[0].name, "id");
    assert_eq!(copy.fields[0].data_type, SemanticType::Int64);
    assert!(copy.fields[0].nullable);
    assert_eq!(copy.fields[1].name, "ok");
    assert_eq!(copy.fields[1].data_type, SemanticType::Boolean);
    assert!(!copy.fields[1].nullable);
    assert_eq!(Schema::empty().len(), 0);
}
