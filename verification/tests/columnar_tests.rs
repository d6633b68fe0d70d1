use datawise_core::batch::ColumnarBatch;
use datawise_core::columnar::{
    convert_to_arrays, extract_bool, extract_float64, extract_int32, extract_int64,
    extract_string, Column,
};
use datawise_core::preview::array_value_to_json;
use datawise_core::schema::{Field, Schema, SemanticType};
use datawise_core::value::{FloatCell, RowSet, SqlValue};

fn float_cell(f: f64) -> FloatCell {
    FloatCell::new(f.to_bits(), format!("{:?}", f), serde_json::Value::from(f))
}

fn json<T: Into<serde_json::Value>>(v: T) -> serde_json::Value {
    v.into()
}

fn text(s: &str) -> SqlValue {
    SqlValue::Text(s.to_string())
}

fn schema_of(types: &[SemanticType]) -> Schema {
    let mut fields = Vec::new();
    for (j, t) in types.iter().enumerate() {
        fields.push(Field::new(format!("c{}", j), *t, true));
    }
    Schema::new(fields)
}

fn cells_of(column: &Column, rows: usize) -> Vec<serde_json::Value> {
    let mut cells = Vec::new();
    for i in 0..rows {
        cells.push(array_value_to_json(column, i));
    }
    cells
}

#[test]
fn booleans_are_taken_from_boolean_cells_only() {
    assert_eq!(extract_bool(Some(&SqlValue::Boolean(true))), Some(true));
    assert_eq!(extract_bool(Some(&SqlValue::Boolean(false))), Some(false));
    assert_eq!(extract_bool(Some(&SqlValue::Int(1))), None);
    assert_eq!(extract_bool(Some(&SqlValue::Null)), None);
    assert_eq!(extract_bool(Some(&text("true"))), None);
    assert_eq!(extract_bool(None), None);
}

#[test]
fn narrow_integers_widen_to_32_bits() {
    assert_eq!(extract_int32(Some(&SqlValue::TinyInt(-128))), Some(-128));
    assert_eq!(extract_int32(Some(&SqlValue::TinyInt(127))), Some(127));
    assert_eq!(extract_int32(Some(&SqlValue::SmallInt(-32768))), Some(-32768));
    assert_eq!(extract_int32(Some(&SqlValue::Int(i32::MAX))), Some(i32::MAX));
    assert_eq!(extract_int32(Some(&SqlValue::Int(i32::MIN))), Some(i32::MIN));
    assert_eq!(extract_int32(Some(&SqlValue::BigInt(1))), None);
    assert_eq!(extract_int32(Some(&SqlValue::Null)), None);
    assert_eq!(extract_int32(Some(&SqlValue::Double(float_cell(1.0)))), None);
    assert_eq!(extract_int32(None), None);
}

#[test]
fn wide_integers_are_taken_from_64_bit_cells_only() {
    assert_eq!(extract_int64(Some(&SqlValue::BigInt(i64::MIN))), Some(i64::MIN));
    assert_eq!(extract_int64(Some(&SqlValue::BigInt(5))), Some(5));
    assert_eq!(extract_int64(Some(&SqlValue::Int(5))), None);
    assert_eq!(extract_int64(Some(&SqlValue::Null)), None);
    assert_eq!(extract_int64(None), None);
}

#[test]
fn floats_are_taken_from_both_widths() {
    let single = extract_float64(Some(&SqlValue::Float(float_cell(1.5)))).unwrap();
    assert_eq!(single.bits, 1.5f64.to_bits());
    assert_eq!(single.text, "1.5");
    assert_eq!(single.number, serde_json::Value::from(1.5f64));
    let double = extract_float64(Some(&SqlValue::Double(float_cell(-0.25)))).unwrap();
    assert_eq!(double.bits, (-0.25f64).to_bits());
    assert!(extract_float64(Some(&SqlValue::Int(1))).is_none());
    assert!(extract_float64(Some(&SqlValue::Null)).is_none());
    assert!(extract_float64(None).is_none());
}

#[test]
fn strings_take_every_cell() {
    assert_eq!(extract_string(Some(&text("hello"))), Some("hello".to_string()));
    assert_eq!(extract_string(Some(&text(""))), Some(String::new()));
    assert_eq!(extract_string(Some(&SqlValue::Null)), Some("Null".to_string()));
    assert_eq!(extract_string(Some(&SqlValue::Int(3))), Some("Int(3)".to_string()));
    assert_eq!(extract_string(Some(&SqlValue::Boolean(true))), Some("Boolean(true)".to_string()));
    assert_eq!(
        extract_string(Some(&SqlValue::Double(float_cell(3.14)))),
        Some("Double(3.14)".to_string())
    );
    assert_eq!(
        extract_string(Some(&SqlValue::Unsupported("Decimal(3.14)".to_string()))),
        Some("Decimal(3.14)".to_string())
    );
    assert_eq!(extract_string(None), None);
}

#[test]
fn each_column_has_the_declared_type_and_one_cell_per_row() {
    let rows = RowSet::from_rows(vec![
        vec![
            SqlValue::Boolean(true),
            SqlValue::Int(1),
            SqlValue::BigInt(10),
            SqlValue::Double(float_cell(0.5)),
            text("a"),
        ],
        vec![
            SqlValue::Boolean(false),
            SqlValue::SmallInt(2),
            SqlValue::BigInt(20),
            SqlValue::Float(float_cell(1.5)),
            text("b"),
        ],
    ])
    .unwrap();
    let schema = schema_of(&[
        SemanticType::Boolean,
        SemanticType::Int32,
        SemanticType::Int64,
        SemanticType::Float64,
        SemanticType::Utf8,
    ]);
    let columns = convert_to_arrays(&rows, &schema).ok().unwrap();
    assert_eq!(columns.len(), 5);
    assert!(matches!(columns[0], Column::Boolean(_)));
    assert!(matches!(columns[1], Column::Int32(_)));
    assert!(matches!(columns[2], Column::Int64(_)));
    assert!(matches!(columns[3], Column::Float64(_)));
    assert!(matches!(columns[4], Column::Utf8(_)));
    assert_eq!(cells_of(&columns[0], 2), vec![json(true), json(false)]);
    assert_eq!(cells_of(&columns[1], 2), vec![json(1), json(2)]);
    assert_eq!(cells_of(&columns[2], 2), vec![json(10i64), json(20i64)]);
    assert_eq!(cells_of(&columns[3], 2), vec![json(0.5f64), json(1.5f64)]);
    assert_eq!(cells_of(&columns[4], 2), vec![json("a"), json("b")]);
}

#[test]
fn a_cell_of_another_type_becomes_null() {
    let rows = RowSet::from_rows(vec![
        vec![SqlValue::Int(1), SqlValue::Boolean(true), SqlValue::BigInt(5)],
        vec![text("two"), SqlValue::Int(0), SqlValue::Int(6)],
        vec![SqlValue::Null, SqlValue::Null, SqlValue::Null],
        vec![SqlValue::BigInt(4), SqlValue::Boolean(false), SqlValue::BigInt(7)],
    ])
    .unwrap();
    let schema = schema_of(&[SemanticType::Int32, SemanticType::Boolean, SemanticType::Int64]);
    let columns = convert_to_arrays(&rows, &schema).ok().unwrap();
    let null = serde_json::Value::Null;
    assert_eq!(cells_of(&columns[0], 4), vec![json(1), null.clone(), null.clone(), null.clone()]);
    assert_eq!(
        cells_of(&columns[1], 4),
        vec![json(true), null.clone(), null.clone(), json(false)]
    );
    assert_eq!(cells_of(&columns[2], 4), vec![json(5i64), null.clone(), null, json(7i64)]);
}

#[test]
fn a_string_column_formats_what_is_not_text() {
    let rows = RowSet::from_rows(vec![
        vec![text("plain")],
        vec![SqlValue::Int(7)],
        vec![SqlValue::Null],
        vec![SqlValue::Double(float_cell(2.5))],
        vec![SqlValue::Unsupported("HugeInt(6)".to_string())],
    ])
    .unwrap();
    let columns = convert_to_arrays(&rows, &schema_of(&[SemanticType::Utf8])).ok().unwrap();
    assert_eq!(
        cells_of(&columns[0], 5),
        vec![json("plain"), json("Int(7)"), json("Null"), json("Double(2.5)"), json("HugeInt(6)")]
    );
}

#[test]
fn a_field_past_the_rows_gives_a_column_of_nulls() {
    let rows = RowSet::from_rows(vec![vec![SqlValue::Int(1)], vec![SqlValue::Int(2)]]).unwrap();
    let schema = schema_of(&[SemanticType::Int32, SemanticType::Utf8, SemanticType::Float64]);
    let columns = convert_to_arrays(&rows, &schema).ok().unwrap();
    assert_eq!(columns.len(), 3);
    let null = serde_json::Value::Null;
    assert_eq!(cells_of(&columns[1], 2), vec![null.clone(), null.clone()]);
    assert_eq!(cells_of(&columns[2], 2), vec![null.clone(), null]);
}

#[test]
fn no_fields_give_no_columns() {
    let rows = RowSet::from_rows(vec![vec![SqlValue::Int(1)]]).unwrap();
    let columns = convert_to_arrays(&rows, &Schema::empty()).ok().unwrap();
    assert!(columns.is_empty());
}

#[test]
fn a_batch_is_typed_by_the_first_row_and_named_by_position() {
    let rows = RowSet::from_rows(vec![
        vec![SqlValue::Int(1), text("Alice"), SqlValue::Null],
        vec![SqlValue::Int(2), text("Bob"), SqlValue::Int(9)],
    ])
    .unwrap();
    let batch = ColumnarBatch::from_rows(&rows).ok().unwrap();
    assert_eq!(batch.num_rows(), 2);
    assert_eq!(batch.num_columns(), 3);
    let schema = batch.schema();
    assert_eq!(schema.fields[0].name, "col_0");
    assert_eq!(schema.fields[1].name, "col_1");
    assert_eq!(schema.fields[2].name, "col_2");
    assert_eq!(schema.fields[0].data_type, SemanticType::Int32);
    assert_eq!(schema.fields[1].data_type, SemanticType::Utf8);
    assert_eq!(schema.fields[2].data_type, SemanticType::Utf8);
    assert_eq!(cells_of(batch.column(0), 2), vec![json(1), json(2)]);
    assert_eq!(cells_of(batch.column(1), 2), vec![json("Alice"), json("Bob")]);
    assert_eq!(cells_of(batch.column(2), 2), vec![json("Null"), json("Int(9)")]);
}

#[test]
fn no_rows_give_the_empty_batch() {
    let batch = ColumnarBatch::from_rows(&RowSet::new()).ok().unwrap();
    assert_eq!(batch.num_rows(), 0);
    assert_eq!(batch.num_columns(), 0);
    assert_eq!(batch.schema().len(), 0);
    let empty = ColumnarBatch::new_empty();
    assert_eq!(empty.num_rows(), 0);
    assert_eq!(empty.num_columns(), 0);
}

#[test]
fn rows_without_cells_give_a_batch_without_columns() {
    let rows = RowSet::from_rows(vec![vec![], vec![], vec![]]).unwrap();
    let batch = ColumnarBatch::from_rows(&rows).ok().unwrap();
    assert_eq!(batch.num_rows(), 3);
    assert_eq!(batch.num_columns(), 0);
}
