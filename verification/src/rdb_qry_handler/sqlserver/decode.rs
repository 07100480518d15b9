use vstd::prelude::*;

use crate::rdb_qry_handler::datatype::{cell_view, DataType, DataValue, Timestamp};
use crate::rdb_qry_handler::protocol::{Column, ColumnData, QueryItem, ResultMetadata, Row};
use crate::rdb_qry_handler::{DataRecord, IntoDataRecord};

verus! {

/// 1900-01-01T00:00:00Z in seconds after 1970-01-01T00:00:00Z.
pub const EPOCH_1900_SECS: i64 = -2_208_988_800;

/// The lower-case hexadecimal digit of a number below sixteen.
pub open spec fn hex_digit(nibble: int) -> char {
    seq!['0', '1', '2', '3', '4', '5', '6', '7', '8', '9', 'a', 'b', 'c', 'd', 'e', 'f'][nibble]
}

/// The character at place `i` of the text of a unique identifier: a hyphen
/// at the places 8, 13, 18 and 23, elsewhere the next hexadecimal digit, the
/// higher half of each byte before its lower half.
pub open spec fn uuid_char(bytes: Seq<u8>, i: int) -> char {
    if i == 8 || i == 13 || i == 18 || i == 23 {
        '-'
    } else {
        let digit = if i < 8 {
            i
        } else if i < 13 {
            i - 1
        } else if i < 18 {
            i - 2
        } else if i < 23 {
            i - 3
        } else {
            i - 4
        };
        if digit % 2 == 0 {
            hex_digit(bytes[digit / 2] as int / 16)
        } else {
            hex_digit(bytes[digit / 2] as int % 16)
        }
    }
}

/// The text of the unique identifier with the sixteen bytes `bytes`:
/// thirty-six characters, the bytes in order as two lower-case hexadecimal
/// digits each, in groups of 8, 4, 4, 4 and 12 digits with hyphens between.
pub open spec fn uuid_text(bytes: Seq<u8>) -> Seq<char> {
    Seq::new(36, |i: int| uuid_char(bytes, i))
}

/// `Uuid::from_bytes` of the `uuid` crate, as `tiberius` hands it on, and
/// then the identifier's `to_string`. Nothing here is proved: the contract
/// claims that the text is the hyphenated lower-case form of the sixteen
/// bytes, which is what the crate's `Display` writes.
#[verifier::external_body]
fn guid_text(bytes: &[u8; 16]) -> (text: String)
    ensures
        text@ == uuid_text(bytes@),
{
    tiberius::Uuid::from_bytes(*bytes).to_string()
}

/// The instant that the older date-and-time encoding stands for: `days` days
/// after 1900-01-01T00:00:00Z and then `ticks * 10 / 3` milliseconds, the
/// division rounding down; the offset from UTC is zero.
pub open spec fn legacy_instant(days: i32, ticks: u32) -> Timestamp {
    let millis = ticks * 10 / 3;
    Timestamp {
        secs: (EPOCH_1900_SECS + days * 86_400 + millis / 1000) as i64,
        nanos: ((millis % 1000) * 1_000_000) as u32,
        offset_secs: 0,
    }
}

/// The cell that a column value decodes to. Text and identifiers become
/// strings, a decimal its digits as one integer, a time of day and a date
/// their raw counts, a date with offset only its offset; NULL and the
/// remaining protocol types give no value.
pub open spec fn cell_value(col: ColumnData) -> Option<DataValue> {
    match col {
        ColumnData::U8(Some(v)) => Some(DataValue::U8(v)),
        ColumnData::I16(Some(v)) => Some(DataValue::I16(v)),
        ColumnData::I32(Some(v)) => Some(DataValue::I32(v)),
        ColumnData::I64(Some(v)) => Some(DataValue::I64(v)),
        ColumnData::F32(Some(v)) => Some(DataValue::F32(v)),
        ColumnData::F64(Some(v)) => Some(DataValue::F64(v)),
        ColumnData::Bit(Some(v)) => Some(DataValue::Bool(v)),
        ColumnData::String(Some(v)) => Some(DataValue::String(v@)),
        ColumnData::Guid(Some(v)) => Some(DataValue::String(uuid_text(v@))),
        ColumnData::Binary(Some(v)) => Some(DataValue::Bytes(v@)),
        ColumnData::Numeric(Some(v)) => Some(DataValue::I128(v.value)),
        ColumnData::DateTimeOffset(Some(v)) => Some(DataValue::I16(v.offset)),
        ColumnData::DateTime(Some(v)) => Some(
            DataValue::DateTime(legacy_instant(v.days, v.seconds_fragments)),
        ),
        ColumnData::Time(Some(v)) => Some(DataValue::U64(v.increments)),
        ColumnData::Date(Some(v)) => Some(DataValue::U32(v.days)),
        _ => None,
    }
}

/// Decodes the older date-and-time encoding.
pub fn legacy_timestamp(days: i32, ticks: u32) -> (instant: Timestamp)
    ensures
        instant == legacy_instant(days, ticks),
        instant.well_formed(),
{
    let millis: u64 = (ticks as u64) * 10 / 3;
    let secs: i64 = EPOCH_1900_SECS + (days as i64) * 86_400 + (millis / 1000) as i64;
    let nanos: u32 = ((millis % 1000) as u32) * 1_000_000;
    Timestamp { secs, nanos, offset_secs: 0 }
}

/// Decodes one column value into a cell.
pub fn col_to_cell(col: ColumnData) -> (cell: Option<DataType>)
    ensures
        cell_view(cell) == cell_value(col),
{
    match col {
        ColumnData::U8(Some(v)) => Some(DataType::U8(v)),
        ColumnData::I16(Some(v)) => Some(DataType::I16(v)),
        ColumnData::I32(Some(v)) => Some(DataType::I32(v)),
        ColumnData::I64(Some(v)) => Some(DataType::I64(v)),
        ColumnData::F32(Some(v)) => Some(DataType::F32(v)),
        ColumnData::F64(Some(v)) => Some(DataType::F64(v)),
        ColumnData::Bit(Some(v)) => Some(DataType::Bool(v)),
        ColumnData::String(Some(v)) => Some(DataType::String(v)),
        ColumnData::Guid(Some(v)) => Some(DataType::String(guid_text(&v))),
        ColumnData::Binary(Some(v)) => Some(DataType::Bytes(v)),
        ColumnData::Numeric(Some(v)) => Some(DataType::I128(v.value)),
        ColumnData::DateTimeOffset(Some(v)) => Some(DataType::I16(v.offset)),
        ColumnData::DateTime(Some(v)) => Some(
            DataType::DateTime(legacy_timestamp(v.days, v.seconds_fragments)),
        ),
        ColumnData::Time(Some(v)) => Some(DataType::U64(v.increments)),
        ColumnData::Date(Some(v)) => Some(DataType::U32(v.days)),
        _ => None,
    }
}

/// The cells that a row decodes to, in column order.
pub open spec fn row_values(row: Row) -> Seq<Option<DataValue>> {
    row.data@.map_values(|col: ColumnData| cell_value(col))
}

impl IntoDataRecord for Row {
    open spec fn decoded(self) -> Seq<Option<DataValue>> {
        row_values(self)
    }

    /// Decodes the row, value by value in column order.
    fn into_data_record(self) -> (record: DataRecord) {
        let ghost columns = self.data@;
        let mut cells: Vec<Option<DataType>> = Vec::new();
        for col in it: self.data
            invariant
                it.seq() == columns,
                cells.len() == it.index(),
                forall|j: int|
                    0 <= j < cells.len() ==> cell_view(#[trigger] cells@[j]) == cell_value(
                        columns[j],
                    ),
        {
            cells.push(col_to_cell(col));
        }
        let record = DataRecord::new(cells);
        assert(record.values() =~= row_values(self));
        record
    }
}

/// The names of the columns that a metadata item announces, in column order.
pub open spec fn column_names(meta: ResultMetadata) -> Seq<String> {
    meta.columns@.map_values(|column: Column| column.name)
}

/// The column names of a metadata item, where there is one.
pub fn col_meta(meta: Option<&ResultMetadata>) -> (names: Option<Vec<String>>)
    ensures
        match names {
            Some(names) => meta matches Some(m) && names@ == column_names(*m),
            None => meta.is_none(),
        },
{
    match meta {
        None => None,
        Some(m) => {
            let mut names: Vec<String> = Vec::new();
            let mut i: usize = 0;
            while i < m.columns.len()
                invariant
                    i <= m.columns.len(),
                    names.len() == i,
                    forall|j: int| 0 <= j < i ==> #[trigger] names@[j] == m.columns@[j].name,
                decreases m.columns.len() - i,
            {
                names.push(m.columns[i].name.clone());
                i += 1;
            }
            assert(names@ =~= column_names(*m));
            Some(names)
        },
    }
}

impl QueryItem {
    /// Splits the item into the column names it announces and the record
    /// it carries; exactly one of the two is present.
    pub fn into_meta_rec(self) -> (pair: (Option<Vec<String>>, Option<DataRecord>))
        ensures
            match self {
                QueryItem::Metadata(meta) => {
                    &&& pair.1.is_none()
                    &&& pair.0 matches Some(names) && names@ == column_names(meta)
                },
                QueryItem::Row(row) => {
                    &&& pair.0.is_none()
                    &&& pair.1 matches Some(record) && record.values() == row_values(row)
                },
            },
    {
        match self {
            QueryItem::Metadata(meta) => {
                let names = col_meta(Some(&meta));
                (names, None)
            },
            QueryItem::Row(row) => {
                let record = row.into_data_record();
                (None, Some(record))
            },
        }
    }
}

/// The older date-and-time encoding decodes to 1900-01-01T00:00:00Z plus the
/// day count in days plus the tick count times ten over three, rounded down,
/// in milliseconds, at offset zero.
pub proof fn legacy_instant_is_epoch_plus_days_plus_millis(days: i32, ticks: u32)
    ensures
        legacy_instant(days, ticks).millis() == -2_208_988_800_000 + days * 86_400_000 + (ticks
            * 10) / 3,
        legacy_instant(days, ticks).offset_secs == 0,
        legacy_instant(days, ticks).well_formed(),
{
}

} // verus!
