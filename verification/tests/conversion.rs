//! End-to-end tests: the verified pipeline model driving the real columnar
//! reader and writer, entirely in memory.

use std::io::Cursor;
use std::sync::Arc;

use arrow::array::{Array, Int32Array, StringArray, TimestampMicrosecondArray};
use arrow::csv::ReaderBuilder;
use arrow::datatypes::{DataType, Field, Schema, TimeUnit};
use arrow::record_batch::RecordBatch;
use bytes::Bytes;
use parquet::arrow::arrow_reader::ParquetRecordBatchReaderBuilder;
use parquet::arrow::ArrowWriter;

use sqllog_parquet::pipeline::{Phase, Pipeline, RunError};
use sqllog_parquet::rows::normalize_cell;
use sqllog_parquet::schema::{schema_columns, ColumnType};

/// The arrow schema built from the library's verified column list, exactly
/// as the surrounding program builds it.
fn arrow_schema() -> Arc<Schema> {
    let fields: Vec<Field> = schema_columns()
        .iter()
        .map(|c| {
            let ty = match c.ty {
                ColumnType::Utf8 => DataType::Utf8,
                ColumnType::Int32 => DataType::Int32,
                ColumnType::TimestampMicros => DataType::Timestamp(TimeUnit::Microsecond, None),
            };
            Field::new(c.name.clone(), ty, c.nullable)
        })
        .collect();
    Arc::new(Schema::new(fields))
}

#[derive(Debug)]
struct RunOutput {
    bytes: Vec<u8>,
    total: u64,
    summary: String,
    last_progress: Option<String>,
}

/// Runs the conversion on in-memory input, the same way the program runs
/// it on files: every decision goes through the library's state machine.
fn convert(input: &str) -> Result<RunOutput, (RunError, Vec<u8>)> {
    let schema = arrow_schema();
    let mut p = Pipeline::new();
    let reader = match ReaderBuilder::new(schema.clone())
        .with_header(true)
        .with_delimiter(b'\t')
        .build(Cursor::new(input.as_bytes().to_vec()))
    {
        Ok(r) => {
            p.source_opened();
            r
        }
        Err(e) => return Err((p.source_open_failed(e.to_string()), Vec::new())),
    };
    let mut out: Vec<u8> = Vec::new();
    match drive(&mut p, reader, &mut out, schema) {
        Ok((total, summary, last_progress)) => {
            assert_eq!(p.phase, Phase::Finished);
            Ok(RunOutput { bytes: out, total, summary, last_progress })
        }
        Err(e) => {
            assert_eq!(p.phase, Phase::Failed);
            Err((e, out))
        }
    }
}

fn drive(
    p: &mut Pipeline,
    reader: arrow::csv::Reader<Cursor<Vec<u8>>>,
    out: &mut Vec<u8>,
    schema: Arc<Schema>,
) -> Result<(u64, String, Option<String>), RunError> {
    let mut writer = match ArrowWriter::try_new(&mut *out, schema, None) {
        Ok(w) => {
            p.destination_opened();
            w
        }
        Err(e) => return Err(p.destination_open_failed(e.to_string())),
    };
    let mut last_progress: Option<String> = None;
    for batch in reader {
        match batch {
            Ok(b) => {
                let rows = b.num_rows() as u64;
                assert!(p.total_rows.checked_add(rows).is_some());
                last_progress = Some(p.batch_received(rows));
                if let Err(e) = writer.write(&b) {
                    return Err(p.write_failed(e.to_string()));
                }
            }
            Err(e) => return Err(p.parse_failed(format!("{e:?}"))),
        }
    }
    if let Err(e) = writer.close() {
        return Err(p.finalize_failed(e.to_string()));
    }
    let summary = p.finished();
    Ok((p.total_rows, summary, last_progress))
}

fn header() -> String {
    [
        "conn_hash", "stmt_id", "exec_id", "exec_time", "sql_type", "exe_status", "db_ip",
        "client_ip", "client_host", "app_name", "db_user", "sql_hash", "from_tbs", "select_cols",
        "sql_stmt", "stmt_bind_vars",
    ]
    .join("\t")
}

fn read_back(bytes: Vec<u8>) -> Vec<RecordBatch> {
    let reader = ParquetRecordBatchReaderBuilder::try_new(Bytes::from(bytes))
        .expect("the produced file must be a readable columnar container")
        .build()
        .expect("the produced file must be a readable columnar container");
    reader.map(|b| b.expect("every stored batch must read back")).collect()
}

fn string_cell(batches: &[RecordBatch], col: usize, row: usize) -> Option<String> {
    let arr = batches[0].column(col).as_any().downcast_ref::<StringArray>().unwrap();
    if arr.is_null(row) {
        None
    } else {
        Some(arr.value(row).to_string())
    }
}

#[test]
fn single_row_scenario() {
    let input = format!(
        "{}\nh1\t1\t100\t2024-01-01T00:00:00.000000\tSELECT\tOK\t10.0.0.1\t10.0.0.2\thostA\tappX\tuser1\tshash1\ttblA\tcol1\tSELECT 1\t\n",
        header()
    );
    let output = convert(&input).expect("the scenario input is well formed");
    assert_eq!(output.total, 1);
    assert_eq!(output.summary, "Conversion to Parquet completed! Total rows: 1");
    assert_eq!(output.last_progress.as_deref(), Some("Processing rows: 1"));

    let batches = read_back(output.bytes);
    assert_eq!(batches.iter().map(|b| b.num_rows()).sum::<usize>(), 1);
    assert_eq!(string_cell(&batches, 0, 0).as_deref(), Some("h1"));
    let stmt_id = batches[0].column(1).as_any().downcast_ref::<Int32Array>().unwrap();
    assert_eq!(stmt_id.value(0), 1);
    let exec_id = batches[0].column(2).as_any().downcast_ref::<Int32Array>().unwrap();
    assert_eq!(exec_id.value(0), 100);
    let exec_time =
        batches[0].column(3).as_any().downcast_ref::<TimestampMicrosecondArray>().unwrap();
    assert!(!exec_time.is_null(0));
    assert_eq!(exec_time.value(0), 1_704_067_200_000_000);
    let expected = [
        "SELECT", "OK", "10.0.0.1", "10.0.0.2", "hostA", "appX", "user1", "shash1", "tblA",
        "col1", "SELECT 1",
    ];
    for (offset, want) in expected.iter().enumerate() {
        assert_eq!(string_cell(&batches, 4 + offset, 0).as_deref(), Some(*want));
    }
    assert_eq!(string_cell(&batches, 15, 0), None);
}

#[test]
fn round_trip_preserves_every_cell() {
    let data_rows: [[&str; 16]; 3] = [
        [
            "h1", "1", "100", "2024-01-01T00:00:00.000000", "SELECT", "OK", "10.0.0.1",
            "10.0.0.2", "hostA", "appX", "user1", "shash1", "tblA", "col1", "SELECT 1", "b1",
        ],
        ["h2", "2", "200", "", "", "", "", "", "", "", "", "", "", "", "", ""],
        [
            "h3", "-3", "300", "1970-01-01T00:00:01.000001", "UPDATE", "FAIL", "10.1.0.1",
            "10.1.0.2", "hostB", "appY", "user2", "shash2", "tblB", "col2",
            "UPDATE t SET a = 1", "v = 9",
        ],
    ];
    let body: Vec<String> = data_rows.iter().map(|r| r.join("\t")).collect();
    let input = format!("{}\n{}\n", header(), body.join("\n"));
    let output = convert(&input).expect("the round-trip input is well formed");
    assert_eq!(output.total, 3);

    let batches = read_back(output.bytes);
    assert_eq!(batches.len(), 1);
    let cols = schema_columns();
    for (row, cells) in data_rows.iter().enumerate() {
        for (col, cell) in cells.iter().enumerate() {
            match cols[col].ty {
                ColumnType::Utf8 => {
                    // Re-serializing a text column: a null reads back as the
                    // empty cell, which is exactly the library's
                    // normalization of the original cell.
                    assert_eq!(
                        string_cell(&batches, col, row),
                        normalize_cell(cell, cols[col].nullable),
                        "column {col} row {row}"
                    );
                }
                ColumnType::Int32 => {
                    let arr =
                        batches[0].column(col).as_any().downcast_ref::<Int32Array>().unwrap();
                    assert!(!arr.is_null(row));
                    assert_eq!(arr.value(row), cell.parse::<i32>().unwrap());
                }
                ColumnType::TimestampMicros => {
                    let arr = batches[0]
                        .column(col)
                        .as_any()
                        .downcast_ref::<TimestampMicrosecondArray>()
                        .unwrap();
                    if cell.is_empty() {
                        assert!(arr.is_null(row));
                    } else {
                        let want = if row == 0 { 1_704_067_200_000_000 } else { 1_000_001 };
                        assert_eq!(arr.value(row), want);
                    }
                }
            }
        }
    }
}

#[test]
fn two_runs_produce_identical_bytes() {
    let input = format!(
        "{}\nh1\t1\t100\t2024-01-01T00:00:00.000000\tSELECT\tOK\t10.0.0.1\t10.0.0.2\thostA\tappX\tuser1\tshash1\ttblA\tcol1\tSELECT 1\tb\nh2\t2\t200\t\t\t\t\t\t\t\t\t\t\t\t\t\n",
        header()
    );
    let first = convert(&input).expect("the input is well formed");
    let second = convert(&input).expect("the input is well formed");
    assert_eq!(first.bytes, second.bytes);
    assert_eq!(first.summary, second.summary);
}

#[test]
fn header_only_input_yields_an_empty_valid_file() {
    let input = format!("{}\n", header());
    let output = convert(&input).expect("a header-only input is well formed");
    assert_eq!(output.total, 0);
    assert_eq!(output.summary, "Conversion to Parquet completed! Total rows: 0");
    assert_eq!(output.last_progress, None);

    let reader = ParquetRecordBatchReaderBuilder::try_new(Bytes::from(output.bytes))
        .expect("a schema-only container must still be readable");
    let stored = reader.schema().clone();
    let cols = schema_columns();
    assert_eq!(stored.fields().len(), cols.len());
    for (field, col) in stored.fields().iter().zip(cols.iter()) {
        assert_eq!(field.name(), &col.name);
        assert_eq!(field.is_nullable(), col.nullable);
    }
    assert_eq!(reader.metadata().file_metadata().num_rows(), 0);
}

#[test]
fn an_empty_required_cell_aborts_the_run() {
    // stmt_id (a required 32-bit integer column) is empty in the data row.
    let input = format!(
        "{}\nh1\t\t100\t2024-01-01T00:00:00.000000\tSELECT\tOK\t10.0.0.1\t10.0.0.2\thostA\tappX\tuser1\tshash1\ttblA\tcol1\tSELECT 1\t\n",
        header()
    );
    let (error, bytes) = convert(&input).expect_err("a required column was empty");
    assert!(matches!(error, RunError::Parse { .. }));
    // The writer was never finalized: what was flushed, if anything, is not
    // a complete container.
    assert!(ParquetRecordBatchReaderBuilder::try_new(Bytes::from(bytes)).is_err());
}

#[test]
fn an_empty_required_text_cell_aborts_the_run() {
    // conn_hash (a required text column) is empty in the data row.
    let input = format!(
        "{}\n\t1\t100\t2024-01-01T00:00:00.000000\tSELECT\tOK\t10.0.0.1\t10.0.0.2\thostA\tappX\tuser1\tshash1\ttblA\tcol1\tSELECT 1\t\n",
        header()
    );
    let (error, bytes) = convert(&input).expect_err("a required column was empty");
    assert!(matches!(error, RunError::Parse { .. }));
    assert!(ParquetRecordBatchReaderBuilder::try_new(Bytes::from(bytes)).is_err());
}

#[test]
fn a_malformed_integer_aborts_the_run() {
    let input = format!(
        "{}\nh1\tnot_a_number\t100\t\t\t\t\t\t\t\t\t\t\t\t\t\n",
        header()
    );
    let (error, _) = convert(&input).expect_err("the integer column was malformed");
    match error {
        RunError::Parse { detail } => assert!(detail.contains("not_a_number")),
        other => panic!("expected a parse error, got {other:?}"),
    }
}
