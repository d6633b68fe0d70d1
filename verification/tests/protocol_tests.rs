use datawise_core::protocol::matches_ignoring_case;
use datawise_core::results::transfer_format;
use datawise_core::FileFmt;

#[test]
fn test_file_fmt_from_extension() {
    assert_eq!(FileFmt::from_extension("csv"), Some(FileFmt::Csv));
    assert_eq!(FileFmt::from_extension("CSV"), Some(FileFmt::Csv));
    assert_eq!(FileFmt::from_extension("parquet"), Some(FileFmt::Parquet));
    assert_eq!(FileFmt::from_extension("pq"), Some(FileFmt::Parquet));
    assert_eq!(FileFmt::from_extension("json"), Some(FileFmt::Json));
    assert_eq!(FileFmt::from_extension("unknown"), None);
}

#[test]
fn from_extension_takes_every_listed_name() {
    assert_eq!(FileFmt::from_extension("jsonl"), Some(FileFmt::Json));
    assert_eq!(FileFmt::from_extension("JsonL"), Some(FileFmt::Json));
    assert_eq!(FileFmt::from_extension("PQ"), Some(FileFmt::Parquet));
    assert_eq!(FileFmt::from_extension("Parquet"), Some(FileFmt::Parquet));
}

#[test]
fn from_extension_refuses_everything_else() {
    assert_eq!(FileFmt::from_extension(""), None);
    assert_eq!(FileFmt::from_extension(".csv"), None);
    assert_eq!(FileFmt::from_extension("csv "), None);
    assert_eq!(FileFmt::from_extension("cs"), None);
    assert_eq!(FileFmt::from_extension("csvx"), None);
    assert_eq!(FileFmt::from_extension("tsv"), None);
    assert_eq!(FileFmt::from_extension("ｃｓｖ"), None);
}

#[test]
fn extension_names_the_format() {
    assert_eq!(FileFmt::Csv.extension(), "csv");
    assert_eq!(FileFmt::Parquet.extension(), "parquet");
    assert_eq!(FileFmt::Json.extension(), "json");
}

#[test]
fn extension_round_trips() {
    for fmt in [FileFmt::Csv, FileFmt::Parquet, FileFmt::Json] {
        assert_eq!(FileFmt::from_extension(fmt.extension()), Some(fmt));
    }
}

#[test]
fn matching_folds_only_ascii_capitals() {
    assert!(matches_ignoring_case("CsV", "csv"));
    assert!(!matches_ignoring_case("csv", "CSV"));
    assert!(!matches_ignoring_case("c-v", "csv"));
    assert!(matches_ignoring_case("", ""));
    assert!(matches_ignoring_case("É", "É"));
    assert!(!matches_ignoring_case("É", "é"));
}

#[test]
fn transfer_format_takes_csv_and_parquet() {
    assert_eq!(transfer_format("csv"), Ok(FileFmt::Csv));
    assert_eq!(transfer_format("CSV"), Ok(FileFmt::Csv));
    assert_eq!(transfer_format("parquet"), Ok(FileFmt::Parquet));
    assert_eq!(transfer_format("pq"), Ok(FileFmt::Parquet));
}

#[test]
fn transfer_format_refuses_the_rest_by_name() {
    assert_eq!(transfer_format("json"), Err("Unsupported format: json".to_string()));
    assert_eq!(transfer_format("XLS"), Err("Unsupported format: XLS".to_string()));
    assert_eq!(transfer_format(""), Err("Unsupported format: ".to_string()));
}
