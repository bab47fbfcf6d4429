use std::sync::Arc;

use arrow::array::{ArrayRef, BooleanArray, Float32Array, Float64Array, Int32Array, Int64Array, StringArray};
use arrow::datatypes::{DataType as ArrowType, Field as ArrowField, Schema};
use arrow::record_batch::RecordBatch;
use bytes::Bytes;
use parquet::arrow::{parquet_to_arrow_schema, ArrowWriter};
use parquet::file::metadata::ParquetMetaData;
use parquet::file::properties::WriterProperties;
use parquet::file::reader::{FileReader, SerializedFileReader};
use parquet::file::statistics::Statistics as FileStatistics;
use parquet_format::error::FormatError;
use parquet_format::format::ParquetFormat;
use parquet_format::metadata::{
    ColumnChunkMetaData, ParquetStatistics, RowGroupMetaData, ValueStatistics,
};
use parquet_format::scalar::ScalarValue;
use parquet_format::statistics::Statistics;

fn create_batch(columns: Vec<(&str, ArrayRef)>) -> RecordBatch {
    let fields: Vec<ArrowField> = columns
        .iter()
        .map(|(name, array)| ArrowField::new(*name, array.data_type().clone(), true))
        .collect();
    let arrays: Vec<ArrayRef> = columns.into_iter().map(|(_, array)| array).collect();
    RecordBatch::try_new(Arc::new(Schema::new(fields)), arrays).expect("error; creating record batch")
}

fn write_file(batches: &[RecordBatch], props: WriterProperties) -> Bytes {
    let mut buffer: Vec<u8> = Vec::new();
    let mut writer = ArrowWriter::try_new(&mut buffer, batches[0].schema(), Some(props))
        .expect("creating writer");
    for batch in batches {
        writer.write(batch).expect("Writing batch");
        writer.flush().expect("closing row group");
    }
    writer.close().unwrap();
    Bytes::from(buffer)
}

fn chunk_statistics(statistics: &FileStatistics) -> ParquetStatistics {
    let null_count = statistics.null_count_opt();
    match statistics {
        FileStatistics::Boolean(s) => ParquetStatistics::Boolean(ValueStatistics::new(
            s.min_opt().copied(),
            s.max_opt().copied(),
            null_count,
        )),
        FileStatistics::Int32(s) => ParquetStatistics::Int32(ValueStatistics::new(
            s.min_opt().copied(),
            s.max_opt().copied(),
            null_count,
        )),
        FileStatistics::Int64(s) => ParquetStatistics::Int64(ValueStatistics::new(
            s.min_opt().copied(),
            s.max_opt().copied(),
            null_count,
        )),
        FileStatistics::Float(s) => ParquetStatistics::Float(ValueStatistics::new(
            s.min_opt().map(|v| v.to_bits()),
            s.max_opt().map(|v| v.to_bits()),
            null_count,
        )),
        FileStatistics::Double(s) => ParquetStatistics::Double(ValueStatistics::new(
            s.min_opt().map(|v| v.to_bits()),
            s.max_opt().map(|v| v.to_bits()),
            null_count,
        )),
        _ => ParquetStatistics::other(null_count),
    }
}

fn row_groups(metadata: &ParquetMetaData) -> Vec<RowGroupMetaData> {
    metadata
        .row_groups()
        .iter()
        .map(|row_group| {
            let columns = row_group
                .columns()
                .iter()
                .map(|column| ColumnChunkMetaData {
                    statistics: column.statistics().map(chunk_statistics),
                })
                .collect();
            RowGroupMetaData::try_new(row_group.num_rows(), row_group.total_byte_size(), columns)
                .expect("negative count")
        })
        .collect()
}

fn fetch_schema(file: &Bytes) -> Result<Schema, FormatError> {
    let reader =
        SerializedFileReader::new(file.clone()).map_err(|e| FormatError::Decode(e.to_string()))?;
    let file_metadata = reader.metadata().file_metadata();
    parquet_to_arrow_schema(file_metadata.schema_descr(), file_metadata.key_value_metadata())
        .map_err(|e| FormatError::Decode(e.to_string()))
}

fn fetch_statistics(file: &Bytes, table_schema: &Schema) -> Result<Statistics, FormatError> {
    let file_schema = fetch_schema(file)?;
    let reader =
        SerializedFileReader::new(file.clone()).map_err(|e| FormatError::Decode(e.to_string()))?;
    ParquetFormat::default()
        .infer_stats(&file_schema, &row_groups(reader.metadata()), table_schema)
        .ok_or_else(|| FormatError::Decode("the counts of the footer do not fit".to_string()))
}

fn merged_files() -> (Vec<Bytes>, Schema) {
    let c1: ArrayRef = Arc::new(StringArray::from(vec![Some("Foo"), None, Some("bar")]));
    let c2: ArrayRef = Arc::new(Int64Array::from(vec![Some(1), Some(2), None]));
    let batch1 = create_batch(vec![("c1", c1)]);
    let batch2 = create_batch(vec![("c2", c2)]);
    let files = vec![
        write_file(&[batch1], WriterProperties::builder().build()),
        write_file(&[batch2], WriterProperties::builder().build()),
    ];
    let schema = ParquetFormat::default()
        .infer_schema(files.iter().map(fetch_schema).collect())
        .expect("Schema inference");
    (files, schema)
}

#[test]
fn schema_of_written_files_is_merged_in_file_order() {
    let (_, schema) = merged_files();
    assert_eq!(
        schema,
        Schema::new(vec![
            ArrowField::new("c1", ArrowType::Utf8, true),
            ArrowField::new("c2", ArrowType::Int64, true),
        ])
    );
}

#[test]
fn statistics_of_written_files_against_the_merged_schema() {
    let (files, table_schema) = merged_files();

    let stats = fetch_statistics(&files[0], &table_schema).unwrap();
    assert_eq!(stats.num_rows, Some(3));
    assert!(stats.is_exact);
    let c1_stats = &stats.column_statistics.as_ref().expect("missing c1 stats")[0];
    let c2_stats = &stats.column_statistics.as_ref().expect("missing c2 stats")[1];
    assert_eq!(c1_stats.null_count, Some(1));
    assert_eq!(c2_stats.null_count, Some(3));
    assert_eq!(c1_stats.max_value, None);
    assert_eq!(c2_stats.max_value, None);

    let stats = fetch_statistics(&files[1], &table_schema).unwrap();
    assert_eq!(stats.num_rows, Some(3));
    let c1_stats = &stats.column_statistics.as_ref().expect("missing c1 stats")[0];
    let c2_stats = &stats.column_statistics.as_ref().expect("missing c2 stats")[1];
    assert_eq!(c1_stats.null_count, Some(3));
    assert_eq!(c2_stats.null_count, Some(1));
    assert_eq!(c2_stats.max_value, Some(ScalarValue::Int64(Some(2))));
    assert_eq!(c2_stats.min_value, Some(ScalarValue::Int64(Some(1))));
}

#[test]
fn written_file_without_statistics_has_no_column_statistics() {
    let ids: ArrayRef = Arc::new(Int32Array::from(vec![4, 5, 6, 7, 2, 3, 0, 1]));
    let batch = create_batch(vec![("id", ids)]);
    let props = WriterProperties::builder()
        .set_statistics_enabled(parquet::file::properties::EnabledStatistics::None)
        .build();
    let file = write_file(&[batch], props);
    let table_schema = fetch_schema(&file).unwrap();
    let stats = fetch_statistics(&file, &table_schema).unwrap();
    assert_eq!(stats.num_rows, Some(8));
    assert!(stats.total_byte_size.unwrap() > 0);
    assert_eq!(stats.column_statistics, None);
    assert!(stats.is_exact);
}

#[test]
fn written_row_groups_are_summed_up() {
    let first: ArrayRef = Arc::new(Int32Array::from(vec![Some(4), Some(5), None]));
    let second: ArrayRef = Arc::new(Int32Array::from(vec![Some(-6), None, None, Some(7), Some(2)]));
    let file = write_file(
        &[create_batch(vec![("id", first)]), create_batch(vec![("id", second)])],
        WriterProperties::builder().build(),
    );
    let table_schema = fetch_schema(&file).unwrap();
    let stats = fetch_statistics(&file, &table_schema).unwrap();
    assert_eq!(stats.num_rows, Some(8));
    let columns = stats.column_statistics.unwrap();
    assert_eq!(columns.len(), 1);
    assert_eq!(columns[0].null_count, Some(3));
    assert_eq!(columns[0].max_value, Some(ScalarValue::Int32(Some(7))));
    assert_eq!(columns[0].min_value, Some(ScalarValue::Int32(Some(-6))));
}

#[test]
fn written_values_of_every_tracked_type_give_bounds() {
    let bools: ArrayRef = Arc::new(BooleanArray::from(vec![true, false, true, false]));
    let ints: ArrayRef = Arc::new(Int32Array::from(vec![4, 5, 6, 7]));
    let longs: ArrayRef = Arc::new(Int64Array::from(vec![0, 10, 0, 10]));
    let floats: ArrayRef = Arc::new(Float32Array::from(vec![0.0, 1.1, 0.0, 1.1]));
    let doubles: ArrayRef = Arc::new(Float64Array::from(vec![0.0, 10.1, -0.5, 10.1]));
    let file = write_file(
        &[create_batch(vec![
            ("bool_col", bools),
            ("int_col", ints),
            ("bigint_col", longs),
            ("float_col", floats),
            ("double_col", doubles),
        ])],
        WriterProperties::builder().build(),
    );
    let table_schema = fetch_schema(&file).unwrap();
    let stats = fetch_statistics(&file, &table_schema).unwrap();
    assert_eq!(stats.num_rows, Some(4));
    let columns = stats.column_statistics.unwrap();
    let bounds: Vec<(Option<ScalarValue>, Option<ScalarValue>)> =
        columns.iter().map(|c| (c.min_value, c.max_value)).collect();
    assert_eq!(
        bounds,
        vec![
            (Some(ScalarValue::Boolean(Some(false))), Some(ScalarValue::Boolean(Some(true)))),
            (Some(ScalarValue::Int32(Some(4))), Some(ScalarValue::Int32(Some(7)))),
            (Some(ScalarValue::Int64(Some(0))), Some(ScalarValue::Int64(Some(10)))),
            (
                Some(ScalarValue::Float32(Some(0.0f32.to_bits()))),
                Some(ScalarValue::Float32(Some(1.1f32.to_bits()))),
            ),
            (
                Some(ScalarValue::Float64(Some((-0.5f64).to_bits()))),
                Some(ScalarValue::Float64(Some(10.1f64.to_bits()))),
            ),
        ]
    );
    for column in columns.iter() {
        assert_eq!(column.null_count, Some(0));
        assert_eq!(column.distinct_count, None);
    }
}

#[test]
fn garbled_file_is_a_decode_error() {
    let file = Bytes::from(vec![0u8; 64]);
    assert!(matches!(fetch_schema(&file), Err(FormatError::Decode(_))));
    let outcome = ParquetFormat::default().infer_schema(vec![fetch_schema(&file)]);
    assert!(matches!(outcome, Err(FormatError::Decode(_))));
}
