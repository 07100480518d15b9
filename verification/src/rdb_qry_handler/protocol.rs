use vstd::prelude::*;

verus! {

/// A decimal number as the protocol carries it: the digits as one integer and
/// the count of digits behind the decimal point.
#[derive(Debug, Clone, Copy, PartialEq, Eq)]
pub struct Numeric {
    pub value: i128,
    pub scale: u8,
}

/// A date with time of day in the older encoding: days after 1900-01-01 and
/// ticks of 1/300 of a second after midnight.
#[derive(Debug, Clone, Copy, PartialEq, Eq)]
pub struct DateTime {
    pub days: i32,
    pub seconds_fragments: u32,
}

/// A date with time of day in the short encoding: days after 1900-01-01 and
/// minutes after midnight.
#[derive(Debug, Clone, Copy, PartialEq, Eq)]
pub struct SmallDateTime {
    pub days: u16,
    pub seconds_fragments: u16,
}

/// A date: days after 0001-01-01.
#[derive(Debug, Clone, Copy, PartialEq, Eq)]
pub struct Date {
    pub days: u32,
}

/// A time of day: `increments` steps of 10 to the power of minus `scale`
/// seconds after midnight.
#[derive(Debug, Clone, Copy, PartialEq, Eq)]
pub struct Time {
    pub increments: u64,
    pub scale: u8,
}

/// A date with a time of day.
#[derive(Debug, Clone, Copy, PartialEq, Eq)]
pub struct DateTime2 {
    pub date: Date,
    pub time: Time,
}

/// A date with a time of day and the offset from UTC in minutes.
#[derive(Debug, Clone, Copy, PartialEq, Eq)]
pub struct DateTimeOffset {
    pub datetime2: DateTime2,
    pub offset: i16,
}

/// One column value as the protocol delivers it. In every variant an absent
/// payload is SQL NULL.
#[derive(Debug, Clone, PartialEq)]
pub enum ColumnData {
    U8(Option<u8>),
    I16(Option<i16>),
    I32(Option<i32>),
    I64(Option<i64>),
    F32(Option<super::datatype::Float32>),
    F64(Option<super::datatype::Float64>),
    Bit(Option<bool>),
    String(Option<String>),
    /// A unique identifier, as its sixteen bytes in the order in which they
    /// are written out.
    Guid(Option<[u8; 16]>),
    Binary(Option<Vec<u8>>),
    Numeric(Option<Numeric>),
    Xml(Option<String>),
    DateTime(Option<DateTime>),
    SmallDateTime(Option<SmallDateTime>),
    Time(Option<Time>),
    Date(Option<Date>),
    DateTime2(Option<DateTime2>),
    DateTimeOffset(Option<DateTimeOffset>),
}

/// What is known of one column of a result.
#[derive(Debug, Clone, PartialEq, Eq)]
pub struct Column {
    pub name: String,
}

/// The columns of the rows that follow, in the order of their values.
#[derive(Debug, Clone, PartialEq, Eq)]
pub struct ResultMetadata {
    pub columns: Vec<Column>,
}

/// One row: a value for each column, in column order.
#[derive(Debug, Clone, PartialEq)]
pub struct Row {
    pub data: Vec<ColumnData>,
}

/// One item of the stream that answers a statement.
#[derive(Debug, Clone, PartialEq)]
pub enum QueryItem {
    Row(Row),
    Metadata(ResultMetadata),
}

} // verus!
