use parquet_format::datatypes::{DataType, Field, SchemaAdapter};

fn field(name: &str, data_type: DataType) -> Field {
    Field { name: name.to_string(), data_type, nullable: true }
}

#[test]
fn column_is_found_by_name() {
    let table = vec![field("c1", DataType::Other), field("c2", DataType::Int64)];
    let file = vec![field("c2", DataType::Int64), field("c1", DataType::Other)];
    let adapter = SchemaAdapter::new(&table);
    assert_eq!(adapter.map_column_index(0, &file), Some(1));
    assert_eq!(adapter.map_column_index(1, &file), Some(0));
}

#[test]
fn column_absent_from_file_has_no_position() {
    let table = vec![field("c1", DataType::Other), field("c2", DataType::Int64)];
    let file = vec![field("c1", DataType::Other)];
    let adapter = SchemaAdapter::new(&table);
    assert_eq!(adapter.map_column_index(0, &file), Some(0));
    assert_eq!(adapter.map_column_index(1, &file), None);
}

#[test]
fn column_of_an_empty_file_schema_has_no_position() {
    let table = vec![field("c1", DataType::Other)];
    let adapter = SchemaAdapter::new(&table);
    assert_eq!(adapter.map_column_index(0, &[]), None);
}

#[test]
fn first_field_of_a_repeated_name_is_taken() {
    let table = vec![field("a", DataType::Int32)];
    let file = vec![
        field("b", DataType::Int32),
        field("a", DataType::Int32),
        field("a", DataType::Int64),
    ];
    let adapter = SchemaAdapter::new(&table);
    assert_eq!(adapter.map_column_index(0, &file), Some(1));
}

#[test]
fn column_names_are_compared_exactly() {
    let table = vec![field("Col", DataType::Int32)];
    let file = vec![field("col", DataType::Int32), field("Col ", DataType::Int32)];
    let adapter = SchemaAdapter::new(&table);
    assert_eq!(adapter.map_column_index(0, &file), None);
}

#[test]
fn file_columns_that_the_table_lacks_are_passed_over() {
    let table = vec![field("z", DataType::Int32)];
    let file = vec![
        field("x", DataType::Int32),
        field("y", DataType::Int32),
        field("z", DataType::Int32),
    ];
    let adapter = SchemaAdapter::new(&table);
    assert_eq!(adapter.map_column_index(0, &file), Some(2));
}
