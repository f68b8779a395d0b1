use oci_rs::codes::{OciDataType, ReturnCode, StatementType};
use oci_rs::error::{ConversionError, ErrorRecord, OciError};
use oci_rs::row::Row;
use oci_rs::statement::{
    build_result_row, determine_external_data_type, execution_iterations, interpret_fetch,
    materialize_rows, output_buffer_size, Column, FetchResult, Statement,
};
use oci_rs::types::SqlValue;

fn integer_column(i: i64) -> Column {
    let (tag, buffer) = SqlValue::Integer(i).encode();
    Column { sql_type: tag, null_indicator: 0, buffer }
}

fn text_column(s: &str) -> Column {
    let (tag, buffer) = SqlValue::VarChar(s.to_string()).encode();
    Column { sql_type: tag, null_indicator: 0, buffer }
}

#[test]
fn null_indicator_wins_over_buffer_contents() {
    let column = Column {
        sql_type: OciDataType::SqlInt,
        null_indicator: -1,
        buffer: vec![0xde, 0xad, 0xbe, 0xef, 1, 2, 3, 4],
    };
    assert_eq!(column.create_sql_value().unwrap(), SqlValue::Null);
    let text = Column { sql_type: OciDataType::SqlVarChar, null_indicator: -1, buffer: vec![0xff] };
    assert_eq!(text.create_sql_value().unwrap(), SqlValue::Null);
}

#[test]
fn row_is_built_in_column_order() {
    let columns = vec![integer_column(12), text_column("BMW")];
    let row = build_result_row(&columns).unwrap();
    assert_eq!(row.columns().len(), 2);
    assert_eq!(row.column(0), &SqlValue::Integer(12));
    assert_eq!(row.column(1), &SqlValue::VarChar("BMW".to_string()));
}

#[test]
fn row_reports_the_first_conversion_failure() {
    let bad = Column { sql_type: OciDataType::SqlInt, null_indicator: 0, buffer: vec![1, 2] };
    let columns = vec![integer_column(1), bad, text_column("x")];
    let err = build_result_row(&columns).unwrap_err();
    assert_eq!(err, OciError::Conversion(ConversionError::TooShort));
}

#[test]
fn eager_fetch_observes_every_row_in_order() {
    let raw = vec![
        vec![integer_column(1), text_column("Rose")],
        vec![integer_column(2), text_column("Tulip")],
        vec![integer_column(3), text_column("Daisy")],
    ];
    let rows = materialize_rows(&raw).unwrap();
    assert_eq!(rows.len(), 3);
    // The lazy traversal performs the same one-row step per pull.
    for (k, cols) in raw.iter().enumerate() {
        let pulled = build_result_row(cols).unwrap();
        assert_eq!(&pulled, &rows[k]);
    }
    let ids: Vec<i64> = rows.iter().map(|r| r.column(0).value().unwrap()).collect();
    assert_eq!(ids, vec![1, 2, 3]);
}

#[test]
fn empty_result_set() {
    let raw: Vec<Vec<Column>> = Vec::new();
    let rows = materialize_rows(&raw).unwrap();
    assert!(rows.is_empty());
    let mut statement = Statement::new();
    assert!(statement.needs_fetch());
    statement.store_result_set(rows);
    assert!(statement.cached_result_set().is_empty());
}

#[test]
fn result_set_is_cached_and_idempotent() {
    let mut statement = Statement::new();
    assert!(statement.needs_fetch());
    let rows = vec![
        build_result_row(&vec![integer_column(7)]).unwrap(),
        build_result_row(&vec![integer_column(8)]).unwrap(),
    ];
    statement.store_result_set(rows.clone());
    // A second ask finds the cache in place: no further fetching is needed,
    // and the identical collection comes back both times.
    assert!(!statement.needs_fetch());
    let first: Vec<Row> = statement.cached_result_set().to_vec();
    assert!(!statement.needs_fetch());
    let second: Vec<Row> = statement.cached_result_set().to_vec();
    assert_eq!(first, second);
    assert_eq!(first, rows);
}

#[test]
fn execute_resets_the_fetch_state() {
    let mut statement = Statement::new();
    statement.store_result_set(vec![build_result_row(&vec![integer_column(1)]).unwrap()]);
    assert!(!statement.needs_fetch());
    statement.results_not_fetched();
    assert!(statement.needs_fetch());
    statement.results_fetched();
    assert!(!statement.needs_fetch());
}

#[test]
fn lazy_traversal_cannot_be_claimed_twice() {
    let mut statement = Statement::new();
    assert!(statement.try_begin_lazy());
    // The statement is still in the fetched state: a second claim before a
    // fresh execution is refused.
    assert!(!statement.try_begin_lazy());
    statement.results_not_fetched();
    assert!(statement.try_begin_lazy());
}

#[test]
fn bind_produces_positional_payloads() {
    let mut statement = Statement::new();
    let payloads = statement.bind(vec![
        SqlValue::Integer(22),
        SqlValue::VarChar("Apple".to_string()),
    ]);
    assert_eq!(payloads.len(), 2);
    assert_eq!(payloads[0].data_type, OciDataType::SqlInt);
    assert_eq!(payloads[0].buffer, vec![22, 0, 0, 0, 0, 0, 0, 0]);
    assert_eq!(payloads[1].data_type, OciDataType::SqlVarChar);
    assert_eq!(payloads[1].buffer, b"Apple".to_vec());
    assert_eq!(
        statement.bound_values(),
        &[SqlValue::Integer(22), SqlValue::VarChar("Apple".to_string())]
    );
    // A later bind replaces the values wholesale.
    let payloads = statement.bind(vec![SqlValue::Integer(23)]);
    assert_eq!(payloads.len(), 1);
    assert_eq!(statement.bound_values(), &[SqlValue::Integer(23)]);
}

#[test]
fn numeric_disambiguation() {
    // Float exactly when the precision is non-zero and the scale is -127.
    assert_eq!(
        determine_external_data_type(OciDataType::SqlNum, 10, -127).unwrap(),
        OciDataType::SqlFloat
    );
    assert_eq!(
        determine_external_data_type(OciDataType::SqlNum, 0, -127).unwrap(),
        OciDataType::SqlInt
    );
    assert_eq!(
        determine_external_data_type(OciDataType::SqlNum, 10, 0).unwrap(),
        OciDataType::SqlInt
    );
    assert_eq!(
        determine_external_data_type(OciDataType::SqlNum, 0, 0).unwrap(),
        OciDataType::SqlInt
    );
    assert_eq!(
        determine_external_data_type(OciDataType::SqlVarChar, 0, 0).unwrap(),
        OciDataType::SqlVarChar
    );
    assert_eq!(
        determine_external_data_type(OciDataType::SqlTimestamp, 0, 0).unwrap(),
        OciDataType::SqlTimestamp
    );
    let err = determine_external_data_type(OciDataType::SqlFloat, 0, 0).unwrap_err();
    assert_eq!(err, OciError::Conversion(ConversionError::Unsupported));
}

#[test]
fn output_buffers_are_sized_by_type() {
    assert_eq!(output_buffer_size(&OciDataType::SqlVarChar, 200), 200);
    assert_eq!(output_buffer_size(&OciDataType::SqlChar, 10), 10);
    assert_eq!(output_buffer_size(&OciDataType::SqlInt, 200), 8);
    assert_eq!(output_buffer_size(&OciDataType::SqlDate, 200), 7);
    assert_eq!(output_buffer_size(&OciDataType::SqlTimestampTz, 200), 13);
}

#[test]
fn fetch_status_interpretation() {
    assert_eq!(interpret_fetch(ReturnCode::Success), Some(FetchResult::Data));
    assert_eq!(interpret_fetch(ReturnCode::NoData), Some(FetchResult::NoData));
    assert_eq!(interpret_fetch(ReturnCode::Error), None);
    assert_eq!(interpret_fetch(ReturnCode::InvalidHandle), None);
}

#[test]
fn queries_execute_with_zero_iterations() {
    assert_eq!(execution_iterations(&StatementType::Select), 0);
    assert_eq!(execution_iterations(&StatementType::Insert), 1);
    assert_eq!(execution_iterations(&StatementType::Create), 1);
    assert_eq!(execution_iterations(&StatementType::Drop), 1);
}

#[test]
fn error_drain_follows_the_status_codes() {
    let mut record = ErrorRecord::new("Fetching");
    assert!(record.absorb_fetch(ReturnCode::Success, 1403, "no data found".to_string()));
    assert!(record.absorb_fetch(ReturnCode::Error, 0, String::new()));
    assert!(record.absorb_fetch(ReturnCode::InvalidHandle, 0, String::new()));
    assert!(!record.absorb_fetch(ReturnCode::NoData, 0, String::new()));
    let records = record.error_records();
    assert_eq!(records.len(), 3);
    assert_eq!(records[0], (1403, "no data found".to_string()));
    assert_eq!(records[1].1, "Call to OCIErrorGet failed");
    assert_eq!(records[2].1, "Invalid handle used to get errors");
}

#[test]
fn error_records_render_in_order() {
    let mut record = ErrorRecord::new("Executing statement");
    record.add_error(942, "table or view does not exist".to_string());
    record.add_error(24312, "illegal parameters specified".to_string());
    assert_eq!(
        record.error_records(),
        &[
            (942, "table or view does not exist".to_string()),
            (24312, "illegal parameters specified".to_string())
        ]
    );
    let rendered = record.render();
    assert_eq!(
        rendered,
        "Executing statement\
         \nError number: 1\nError code: ORA-942\nError text: table or view does not exist\
         \nError number: 2\nError code: ORA-24312\nError text: illegal parameters specified"
    );
    let as_error = OciError::Oracle(record).describe();
    assert_eq!(as_error, rendered);
}
