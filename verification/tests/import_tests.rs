use datawise_core::dispatch::handle;
use datawise_core::value::{RowSet, SqlValue};
use datawise_core::{CmdType, Command, EventKind, FileFmt, UiEvent};

fn text(s: &str) -> SqlValue {
    SqlValue::Text(s.to_string())
}

fn import(task_id: u64, path: &str, fmt: FileFmt, table: &str) -> Command {
    Command {
        task_id,
        cmd_type: CmdType::ImportFile {
            path: path.to_string(),
            fmt,
            table_name: Some(table.to_string()),
            overwrite: false,
        },
    }
}

/// The events of a command whose engine read back the given table.
fn events_of(cmd: Command, table: Vec<Vec<SqlValue>>) -> Vec<UiEvent> {
    let handled = handle(&cmd, &Vec::new(), Ok(RowSet::from_rows(table).unwrap()));
    assert!(handled.result.is_ok());
    handled.events
}

fn people(names_and_ages: &[(&str, i64)]) -> Vec<Vec<SqlValue>> {
    names_and_ages
        .iter()
        .enumerate()
        .map(|(i, (name, age))| vec![SqlValue::BigInt(i as i64 + 1), text(name), SqlValue::BigInt(*age)])
        .collect()
}

#[test]
fn test_import_then_query() {
    let table = people(&[("Alice", 30), ("Bob", 25), ("Charlie", 35)]);
    let imported = events_of(import(1, "data.csv", FileFmt::Csv, "users"), table);
    assert!(imported.iter().any(|e| matches!(e.kind, EventKind::Finished { .. })));

    let cmd = Command {
        task_id: 2,
        cmd_type: CmdType::ExecuteSql { sql: "SELECT COUNT(*) as cnt FROM users".to_string() },
    };
    let counted = events_of(cmd, vec![vec![SqlValue::BigInt(3)]]);
    let mut result_received = false;
    for event in counted {
        if let EventKind::Finished { row_count, .. } = event.kind {
            assert_eq!(row_count, 1, "Expected 1 row from COUNT query");
            result_received = true;
            break;
        }
    }
    assert!(result_received, "Did not receive query result");
}

#[test]
fn test_import_with_preview_data() {
    let table =
        people(&[("Alice", 25), ("Bob", 30), ("Charlie", 35), ("David", 40), ("Eve", 28)]);
    let events = events_of(import(1, "preview_test.csv", FileFmt::Csv, "preview_data"), table);

    let mut preview_received = false;
    let mut row_count = 0;
    for event in events {
        match event.kind {
            EventKind::Finished { row_count: rc, column_count: cc, preview } => {
                preview_received = true;
                row_count = rc;
                assert_eq!(cc, 3, "Expected 3 columns");
                assert_eq!(rc, 5, "Expected 5 rows");
                assert_ne!(preview, "{}", "Preview should not be empty");

                let preview_json: Result<Vec<serde_json::Value>, _> =
                    serde_json::from_str(&preview);
                assert!(preview_json.is_ok(), "Preview should be valid JSON");
                let rows = preview_json.unwrap();
                assert!(!rows.is_empty(), "Preview should contain at least one row");

                if let Some(first_row) = rows.first() {
                    if let Some(obj) = first_row.as_object() {
                        assert_eq!(
                            obj.len(),
                            3,
                            "Preview should have 3 columns, got: {:?}",
                            obj.keys().collect::<Vec<_>>()
                        );
                        let values: Vec<_> = obj.values().collect();
                        assert!(!values.is_empty(), "Preview should contain data");
                    } else {
                        panic!("First row should be an object, got: {:?}", first_row);
                    }
                } else {
                    panic!("Preview should contain at least one row");
                }
                break;
            }
            EventKind::Error(e) => {
                panic!("Unexpected error: {}", e);
            }
            _ => {}
        }
    }
    assert!(preview_received, "Did not receive Finished event with preview");
    assert_eq!(row_count, 5, "Row count should be 5");
}

#[test]
fn test_json_import_with_preview() {
    let table = people(&[("Alice", 25), ("Bob", 30), ("Charlie", 35)]);
    let events = events_of(import(1, "test.json", FileFmt::Json, "json_data"), table);

    let mut preview_received = false;
    let mut row_count = 0;
    for event in events {
        match event.kind {
            EventKind::Finished { row_count: rc, column_count: cc, preview } => {
                preview_received = true;
                row_count = rc;
                assert_eq!(cc, 3, "Expected 3 columns");
                assert_eq!(rc, 3, "Expected 3 rows");
                assert_ne!(preview, "{}", "Preview should not be empty");

                let preview_json: Result<Vec<serde_json::Value>, _> =
                    serde_json::from_str(&preview);
                assert!(preview_json.is_ok(), "Preview should be valid JSON");
                let rows = preview_json.unwrap();
                assert_eq!(rows.len(), 3, "Preview should contain 3 rows");

                if let Some(first_row) = rows.first() {
                    if let Some(obj) = first_row.as_object() {
                        assert_eq!(obj.len(), 3, "Preview should have 3 columns");
                    } else {
                        panic!("First row should be an object, got: {:?}", first_row);
                    }
                }
                break;
            }
            EventKind::Error(e) => {
                panic!("Unexpected error: {}", e);
            }
            _ => {}
        }
    }
    assert!(preview_received, "Did not receive Finished event with preview");
    assert_eq!(row_count, 3, "Row count should be 3");
}

#[test]
fn test_json_array_import() {
    let table = vec![
        vec![SqlValue::BigInt(1), text("first")],
        vec![SqlValue::BigInt(2), text("second")],
        vec![SqlValue::BigInt(3), text("third")],
    ];
    let events = events_of(import(1, "array.json", FileFmt::Json, "json_array_data"), table);
    let mut seen = false;
    for event in events {
        match event.kind {
            EventKind::Finished { row_count, column_count, .. } => {
                assert_eq!(row_count, 3, "Expected 3 rows");
                assert_eq!(column_count, 2, "Expected 2 columns");
                seen = true;
                break;
            }
            EventKind::Error(e) => {
                panic!("Unexpected error: {}", e);
            }
            _ => {}
        }
    }
    assert!(seen);
}
