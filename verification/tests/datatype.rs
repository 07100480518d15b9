use tabularuq::rdb_qry_handler::datatype::{DataType, Float32, Float64, Timestamp};

#[test]
fn value_of_native_type_is_some() {
    assert_eq!(DataType::I8(-5).value::<i8>(), Some(-5));
    assert_eq!(DataType::I16(-300).value::<i16>(), Some(-300));
    assert_eq!(DataType::I32(70_000).value::<i32>(), Some(70_000));
    assert_eq!(DataType::I64(-5_000_000_000).value::<i64>(), Some(-5_000_000_000));
    assert_eq!(DataType::I128(i128::MIN).value::<i128>(), Some(i128::MIN));
    assert_eq!(DataType::U8(200).value::<u8>(), Some(200));
    assert_eq!(DataType::U16(60_000).value::<u16>(), Some(60_000));
    assert_eq!(DataType::U32(4_000_000_000).value::<u32>(), Some(4_000_000_000));
    assert_eq!(DataType::U64(u64::MAX).value::<u64>(), Some(u64::MAX));
    assert_eq!(DataType::U128(u128::MAX).value::<u128>(), Some(u128::MAX));
    assert_eq!(DataType::Bool(true).value::<bool>(), Some(true));
    assert_eq!(DataType::String("abc".to_string()).value::<String>(), Some("abc".to_string()));
    assert_eq!(DataType::Bytes(vec![1, 2, 3]).value::<Vec<u8>>(), Some(vec![1, 2, 3]));
}

#[test]
fn value_of_float_keeps_the_number() {
    let single = DataType::F32(Float32::from_bits(1.5f32.to_bits()));
    let double = DataType::F64(Float64::from_bits((-2.25f64).to_bits()));
    assert_eq!(single.value::<Float32>().map(|v| f32::from_bits(v.to_bits())), Some(1.5f32));
    assert_eq!(double.value::<Float64>().map(|v| f64::from_bits(v.to_bits())), Some(-2.25f64));
    assert_eq!(single.value::<Float64>(), None);
    assert_eq!(double.value::<Float32>(), None);
}

#[test]
fn value_of_timestamp_keeps_all_fields() {
    let at = Timestamp::new(1_700_000_000, 123_000_000, 3600);
    let cell = DataType::DateTime(at);
    assert_eq!(cell.value::<Timestamp>(), Some(at));
    assert_eq!(cell.value::<i64>(), None);
}

#[test]
fn value_of_other_type_is_none() {
    let cell = DataType::I32(7);
    assert_eq!(cell.value::<i8>(), None);
    assert_eq!(cell.value::<i16>(), None);
    assert_eq!(cell.value::<i64>(), None);
    assert_eq!(cell.value::<i128>(), None);
    assert_eq!(cell.value::<u8>(), None);
    assert_eq!(cell.value::<u16>(), None);
    assert_eq!(cell.value::<u32>(), None);
    assert_eq!(cell.value::<u64>(), None);
    assert_eq!(cell.value::<u128>(), None);
    assert_eq!(cell.value::<Float32>(), None);
    assert_eq!(cell.value::<Float64>(), None);
    assert_eq!(cell.value::<bool>(), None);
    assert_eq!(cell.value::<String>(), None);
    assert_eq!(cell.value::<Vec<u8>>(), None);
    assert_eq!(cell.value::<Timestamp>(), None);
}

#[test]
fn value_does_not_widen_or_narrow() {
    assert_eq!(DataType::U8(1).value::<u16>(), None);
    assert_eq!(DataType::U8(1).value::<i16>(), None);
    assert_eq!(DataType::I64(1).value::<i32>(), None);
    assert_eq!(DataType::U32(1).value::<i64>(), None);
}
