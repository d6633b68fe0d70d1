use datawise_core::batch::ColumnarBatch;
use datawise_core::error::ErrorKind;
use datawise_core::preview::{
    generate_preview, preview_from_encoding, preview_values, row_object, PREVIEW_LIMIT,
};
use datawise_core::value::{FloatCell, RowSet, SqlValue};

fn float_cell(f: f64) -> FloatCell {
    FloatCell::new(f.to_bits(), format!("{:?}", f), serde_json::Value::from(f))
}

fn text(s: &str) -> SqlValue {
    SqlValue::Text(s.to_string())
}

fn batch_of(rows: Vec<Vec<SqlValue>>) -> ColumnarBatch {
    ColumnarBatch::from_rows(&RowSet::from_rows(rows).unwrap()).ok().unwrap()
}

fn numbered(from: i32, count: i32) -> ColumnarBatch {
    batch_of((from..from + count).map(|n| vec![SqlValue::Int(n)]).collect())
}

fn parse(preview: &str) -> Vec<serde_json::Value> {
    serde_json::from_str(preview).unwrap()
}

#[test]
fn the_preview_is_a_compact_array_of_row_objects() {
    let batch = batch_of(vec![
        vec![SqlValue::Int(1), text("Alice"), SqlValue::Boolean(true), SqlValue::BigInt(100)],
        vec![SqlValue::Int(2), text("Bob"), SqlValue::Boolean(false), SqlValue::BigInt(-200)],
    ]);
    let preview = generate_preview(&vec![batch]).ok().unwrap();
    assert_eq!(
        preview,
        "[{\"col_0\":1,\"col_1\":\"Alice\",\"col_2\":true,\"col_3\":100},\
         {\"col_0\":2,\"col_1\":\"Bob\",\"col_2\":false,\"col_3\":-200}]"
    );
}

#[test]
fn floats_are_shown_as_the_numbers_they_came_with() {
    let batch = batch_of(vec![
        vec![SqlValue::Double(float_cell(3.14))],
        vec![SqlValue::Float(float_cell(0.5))],
        vec![SqlValue::Null],
        vec![SqlValue::Double(float_cell(f64::NAN))],
    ]);
    let preview = generate_preview(&vec![batch]).ok().unwrap();
    assert_eq!(preview, "[{\"col_0\":3.14},{\"col_0\":0.5},{\"col_0\":null},{\"col_0\":null}]");
}

#[test]
fn texts_are_quoted_and_escaped() {
    let batch = batch_of(vec![
        vec![text("say \"hi\"")],
        vec![text("back\\slash")],
        vec![text("line\nbreak")],
        vec![text("")],
        vec![text("null")],
    ]);
    let preview = generate_preview(&vec![batch]).ok().unwrap();
    assert_eq!(
        preview,
        "[{\"col_0\":\"say \\\"hi\\\"\"},{\"col_0\":\"back\\\\slash\"},\
         {\"col_0\":\"line\\nbreak\"},{\"col_0\":\"\"},{\"col_0\":\"null\"}]"
    );
    let rows = parse(&preview);
    assert_eq!(rows[0]["col_0"], "say \"hi\"");
    assert_eq!(rows[3]["col_0"], "");
    assert!(rows[4]["col_0"].is_string());
}

#[test]
fn integers_of_every_width_are_shown_in_decimal() {
    let narrow = batch_of(vec![
        vec![SqlValue::TinyInt(-128)],
        vec![SqlValue::SmallInt(32767)],
        vec![SqlValue::Int(i32::MIN)],
    ]);
    assert_eq!(
        generate_preview(&vec![narrow]).ok().unwrap(),
        "[{\"col_0\":-128},{\"col_0\":32767},{\"col_0\":-2147483648}]"
    );
    let wide = batch_of(vec![vec![SqlValue::BigInt(i64::MAX)], vec![SqlValue::BigInt(i64::MIN)]]);
    assert_eq!(
        generate_preview(&vec![wide]).ok().unwrap(),
        "[{\"col_0\":9223372036854775807},{\"col_0\":-9223372036854775808}]"
    );
}

#[test]
fn a_preview_of_twenty_rows_shows_ten() {
    let preview = generate_preview(&vec![numbered(1, 20)]).ok().unwrap();
    let rows = parse(&preview);
    assert_eq!(rows.len(), 10);
    assert_eq!(rows.len(), PREVIEW_LIMIT);
    for (i, row) in rows.iter().enumerate() {
        assert_eq!(row["col_0"], (i + 1) as i64);
    }
}

#[test]
fn a_preview_of_three_rows_shows_three() {
    let preview = generate_preview(&vec![numbered(1, 3)]).ok().unwrap();
    assert_eq!(preview, "[{\"col_0\":1},{\"col_0\":2},{\"col_0\":3}]");
    assert_eq!(parse(&preview).len(), 3);
}

#[test]
fn a_preview_of_exactly_the_limit_shows_all() {
    assert_eq!(parse(&generate_preview(&vec![numbered(0, 10)]).ok().unwrap()).len(), 10);
    assert_eq!(parse(&generate_preview(&vec![numbered(0, 9)]).ok().unwrap()).len(), 9);
    assert_eq!(parse(&generate_preview(&vec![numbered(0, 11)]).ok().unwrap()).len(), 10);
}

#[test]
fn the_preview_stops_at_the_limit_in_the_middle_of_a_batch() {
    let batches = vec![numbered(0, 4), numbered(100, 4), numbered(200, 4), numbered(300, 4)];
    let rows = parse(&generate_preview(&batches).ok().unwrap());
    let shown: Vec<i64> = rows.iter().map(|r| r["col_0"].as_i64().unwrap()).collect();
    assert_eq!(shown, vec![0, 1, 2, 3, 100, 101, 102, 103, 200, 201]);
}

#[test]
fn two_batches_of_seven_rows_show_the_first_ten() {
    let batches = vec![numbered(1, 7), numbered(8, 7)];
    let rows = parse(&generate_preview(&batches).ok().unwrap());
    let shown: Vec<i64> = rows.iter().map(|r| r["col_0"].as_i64().unwrap()).collect();
    assert_eq!(shown, vec![1, 2, 3, 4, 5, 6, 7, 8, 9, 10]);
    assert_eq!(batches[0].num_rows(), 7);
    assert_eq!(batches[1].num_rows(), 7);
}

#[test]
fn a_preview_never_fails() {
    let inputs = vec![
        Vec::new(),
        vec![ColumnarBatch::new_empty()],
        vec![numbered(0, 1)],
        vec![numbered(0, 25), numbered(0, 25)],
        vec![batch_of(vec![vec![text("\u{0}\u{1f}\"\\"), SqlValue::Double(float_cell(f64::INFINITY))]])],
    ];
    for batches in inputs {
        let preview = generate_preview(&batches);
        assert!(preview.is_ok());
        assert!(serde_json::from_str::<Vec<serde_json::Value>>(&preview.ok().unwrap()).is_ok());
    }
}

#[test]
fn batches_are_previewed_in_order_with_their_own_schemas() {
    let batches = vec![
        batch_of(vec![vec![SqlValue::Int(1), text("x")]]),
        ColumnarBatch::new_empty(),
        batch_of(vec![vec![SqlValue::Boolean(true)]]),
    ];
    let preview = generate_preview(&batches).ok().unwrap();
    assert_eq!(preview, "[{\"col_0\":1,\"col_1\":\"x\"},{\"col_0\":true}]");
}

#[test]
fn no_batches_and_empty_batches_give_an_empty_array() {
    assert_eq!(generate_preview(&Vec::new()).ok().unwrap(), "[]");
    assert_eq!(generate_preview(&vec![ColumnarBatch::new_empty()]).ok().unwrap(), "[]");
    assert!(preview_values(&Vec::new()).is_empty());
}

#[test]
fn rows_without_columns_are_empty_objects() {
    let batch = batch_of(vec![vec![], vec![]]);
    assert_eq!(generate_preview(&vec![batch]).ok().unwrap(), "[{},{}]");
}

#[test]
fn a_null_in_a_typed_column_is_json_null() {
    let batch = batch_of(vec![
        vec![SqlValue::Int(1), SqlValue::Boolean(true), SqlValue::BigInt(1)],
        vec![SqlValue::Null, SqlValue::Null, SqlValue::Null],
    ]);
    let preview = generate_preview(&vec![batch]).ok().unwrap();
    let rows = parse(&preview);
    assert!(rows[1]["col_0"].is_null());
    assert!(rows[1]["col_1"].is_null());
    assert!(rows[1]["col_2"].is_null());
    assert!(preview.ends_with("{\"col_0\":null,\"col_1\":null,\"col_2\":null}]"));
    assert!(!preview.contains("\"\""));
}

#[test]
fn a_null_in_a_string_column_is_formatted() {
    let batch = batch_of(vec![vec![SqlValue::Null], vec![text("t")]]);
    let rows = parse(&generate_preview(&vec![batch]).ok().unwrap());
    assert_eq!(rows[0]["col_0"], "Null");
    assert_eq!(rows[1]["col_0"], "t");
}

#[test]
fn a_row_object_has_one_key_per_column() {
    let cells: Vec<SqlValue> = (0..12).map(SqlValue::Int).collect();
    let batch = batch_of(vec![cells]);
    let object = row_object(&batch, 0);
    let entries = object.as_object().unwrap();
    assert_eq!(entries.len(), 12);
    for j in 0..12 {
        assert_eq!(entries[&format!("col_{}", j)], j);
    }
}

#[test]
fn the_preview_values_are_the_row_objects() {
    let batch = batch_of(vec![vec![SqlValue::Int(5), text("five")]]);
    let values = preview_values(&vec![batch]);
    assert_eq!(values.len(), 1);
    let entries = values[0].as_object().unwrap();
    assert_eq!(entries.len(), 2);
    assert_eq!(entries["col_0"], 5);
    assert_eq!(entries["col_1"], "five");
}

#[test]
fn an_encoded_preview_is_handed_on() {
    let handed = preview_from_encoding(Ok("[1]".to_string()));
    assert_eq!(handed.ok().unwrap(), "[1]");
}

#[test]
fn a_failed_encoding_is_a_serialization_error() {
    let failure = serde_json::from_str::<serde_json::Value>("{").unwrap_err();
    let text = failure.to_string();
    let handed = preview_from_encoding(Err(failure));
    let error = handed.err().unwrap();
    assert_eq!(error.kind, ErrorKind::Serialization);
    assert_eq!(error.detail, text);
    assert_eq!(error.message(), format!("Failed to encode preview: {}", text));
}
