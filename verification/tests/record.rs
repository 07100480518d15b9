use tabularuq::rdb_qry_handler::datatype::{DataType, Float64, Timestamp};
use tabularuq::rdb_qry_handler::{DataRecord, DataRows};

fn sample() -> DataRecord {
    DataRecord::new(vec![
        Some(DataType::I32(42)),
        None,
        Some(DataType::String("name".to_string())),
        Some(DataType::Bytes(vec![0xde, 0xad])),
    ])
}

#[test]
fn cells_are_kept_in_order() {
    let record = sample();
    assert_eq!(record.cells().len(), 4);
    assert_eq!(record.cells()[0], Some(DataType::I32(42)));
    assert_eq!(record.cells()[1], None);
    assert_eq!(record.cells()[2], Some(DataType::String("name".to_string())));
    assert_eq!(record.cells()[3], Some(DataType::Bytes(vec![0xde, 0xad])));
}

#[test]
fn cell_is_absent_for_null_and_past_the_end() {
    let record = sample();
    assert_eq!(record.cell(0), Some(&DataType::I32(42)));
    assert_eq!(record.cell(1), None);
    assert_eq!(record.cell(3), Some(&DataType::Bytes(vec![0xde, 0xad])));
    assert_eq!(record.cell(4), None);
    assert_eq!(record.cell(usize::MAX), None);
}

#[test]
fn cvalue_gives_the_unwrapped_value() {
    let record = sample();
    assert_eq!(record.cvalue::<i32>(0), Some(42));
    assert_eq!(record.cvalue::<String>(2), Some("name".to_string()));
    assert_eq!(record.cvalue::<Vec<u8>>(3), Some(vec![0xde, 0xad]));
}

#[test]
fn cvalue_is_none_out_of_bounds() {
    let record = sample();
    assert_eq!(record.cvalue::<i32>(4), None);
    assert_eq!(record.cvalue::<i32>(100), None);
    assert_eq!(DataRecord::new(Vec::new()).cvalue::<i32>(0), None);
}

#[test]
fn cvalue_is_none_for_null() {
    let record = sample();
    assert_eq!(record.cvalue::<i32>(1), None);
    assert_eq!(record.cvalue::<String>(1), None);
}

#[test]
fn cvalue_is_none_for_another_type() {
    let record = sample();
    assert_eq!(record.cvalue::<i64>(0), None);
    assert_eq!(record.cvalue::<u32>(0), None);
    assert_eq!(record.cvalue::<Vec<u8>>(2), None);
    assert_eq!(record.cvalue::<String>(3), None);
    assert_eq!(record.cvalue::<Float64>(0), None);
    assert_eq!(record.cvalue::<Timestamp>(0), None);
}

#[test]
fn rows_keep_names_and_records() {
    let names = vec!["id".to_string(), "name".to_string()];
    let first = DataRecord::new(vec![Some(DataType::I32(1)), None]);
    let second = DataRecord::new(vec![Some(DataType::I32(2)), Some(DataType::Bool(true))]);
    let rows = DataRows::new(Some(names.clone()), vec![first.clone(), second.clone()]);
    assert_eq!(rows.column_meta(), Some(names.as_slice()));
    assert_eq!(rows.records().len(), 2);
    assert_eq!(rows.records()[0], first);
    assert_eq!(rows.records()[1], second);
}

#[test]
fn rows_without_metadata_have_no_names() {
    let rows = DataRows::new(None, Vec::new());
    assert_eq!(rows.column_meta(), None);
    assert!(rows.records().is_empty());
}

#[test]
fn names_and_cells_agree_in_count_where_the_stream_does() {
    let names = vec!["a".to_string(), "b".to_string()];
    let rows = DataRows::new(
        Some(names),
        vec![DataRecord::new(vec![None, None]), DataRecord::new(vec![Some(DataType::U8(1)), None])],
    );
    let count = rows.column_meta().map(|names| names.len());
    for record in rows.records() {
        assert_eq!(Some(record.cells().len()), count);
    }
}
