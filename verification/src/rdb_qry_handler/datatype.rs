use vstd::prelude::*;

verus! {

/// A 32-bit IEEE 754 number, kept as its bit pattern.
#[derive(Debug, Clone, Copy, PartialEq, Eq)]
pub struct Float32 {
    pub bits: u32,
}

/// A 64-bit IEEE 754 number, kept as its bit pattern.
#[derive(Debug, Clone, Copy, PartialEq, Eq)]
pub struct Float64 {
    pub bits: u64,
}

/// An instant together with the offset from UTC under which it was written.
///
/// The instant is `secs` whole seconds after 1970-01-01T00:00:00Z plus `nanos`
/// nanoseconds; `offset_secs` counts seconds east of UTC and does not move the
/// instant.
#[derive(Debug, Clone, Copy, PartialEq, Eq)]
pub struct Timestamp {
    pub secs: i64,
    pub nanos: u32,
    pub offset_secs: i32,
}

impl Float32 {
    pub fn from_bits(bits: u32) -> (r: Float32)
        ensures
            r.bits == bits,
    {
        Float32 { bits }
    }

    pub fn to_bits(&self) -> (r: u32)
        ensures
            r == self.bits,
    {
        self.bits
    }
}

impl Float64 {
    pub fn from_bits(bits: u64) -> (r: Float64)
        ensures
            r.bits == bits,
    {
        Float64 { bits }
    }

    pub fn to_bits(&self) -> (r: u64)
        ensures
            r == self.bits,
    {
        self.bits
    }
}

impl Timestamp {
    /// The instant in whole milliseconds after 1970-01-01T00:00:00Z, rounded
    /// towards the past.
    pub open spec fn millis(self) -> int {
        self.secs * 1000 + self.nanos / 1_000_000
    }

    /// Whether the fields are in their ranges: less than a second of
    /// nanoseconds, and an offset of less than a day to either side.
    pub open spec fn well_formed(self) -> bool {
        &&& self.nanos < 1_000_000_000
        &&& -86_400 < self.offset_secs < 86_400
    }

    pub fn is_well_formed(&self) -> (ok: bool)
        ensures
            ok == self.well_formed(),
    {
        self.nanos < 1_000_000_000 && -86_400 < self.offset_secs && self.offset_secs < 86_400
    }

    pub fn new(secs: i64, nanos: u32, offset_secs: i32) -> (r: Timestamp)
        ensures
            r.secs == secs,
            r.nanos == nanos,
            r.offset_secs == offset_secs,
    {
        Timestamp { secs, nanos, offset_secs }
    }
}

impl View for Float32 {
    type V = Float32;

    open spec fn view(&self) -> Float32 {
        *self
    }
}

impl View for Float64 {
    type V = Float64;

    open spec fn view(&self) -> Float64 {
        *self
    }
}

impl View for Timestamp {
    type V = Timestamp;

    open spec fn view(&self) -> Timestamp {
        *self
    }
}

/// One value of a cell or of a bound parameter. Exactly one variant is
/// active; nothing converts between variants.
#[derive(Debug, Clone, PartialEq)]
pub enum DataType {
    I8(i8),
    I16(i16),
    I32(i32),
    I64(i64),
    I128(i128),
    U8(u8),
    U16(u16),
    U32(u32),
    U64(u64),
    U128(u128),
    F32(Float32),
    F64(Float64),
    Bool(bool),
    String(String),
    Bytes(Vec<u8>),
    DateTime(Timestamp),
}

/// What a `DataType` holds, with text and bytes as sequences.
pub enum DataValue {
    I8(i8),
    I16(i16),
    I32(i32),
    I64(i64),
    I128(i128),
    U8(u8),
    U16(u16),
    U32(u32),
    U64(u64),
    U128(u128),
    F32(Float32),
    F64(Float64),
    Bool(bool),
    String(Seq<char>),
    Bytes(Seq<u8>),
    DateTime(Timestamp),
}

impl View for DataType {
    type V = DataValue;

    open spec fn view(&self) -> DataValue {
        match self {
            DataType::I8(v) => DataValue::I8(*v),
            DataType::I16(v) => DataValue::I16(*v),
            DataType::I32(v) => DataValue::I32(*v),
            DataType::I64(v) => DataValue::I64(*v),
            DataType::I128(v) => DataValue::I128(*v),
            DataType::U8(v) => DataValue::U8(*v),
            DataType::U16(v) => DataValue::U16(*v),
            DataType::U32(v) => DataValue::U32(*v),
            DataType::U64(v) => DataValue::U64(*v),
            DataType::U128(v) => DataValue::U128(*v),
            DataType::F32(v) => DataValue::F32(*v),
            DataType::F64(v) => DataValue::F64(*v),
            DataType::Bool(v) => DataValue::Bool(*v),
            DataType::String(v) => DataValue::String(v@),
            DataType::Bytes(v) => DataValue::Bytes(v@),
            DataType::DateTime(v) => DataValue::DateTime(*v),
        }
    }
}

/// The view of a cell: absent for NULL.
pub open spec fn cell_view(cell: Option<DataType>) -> Option<DataValue> {
    match cell {
        Some(value) => Some(value@),
        None => None,
    }
}

/// The variants of `DataType`, without their payloads.
#[derive(Debug, Clone, Copy, PartialEq, Eq, Structural)]
pub enum DataKind {
    I8,
    I16,
    I32,
    I64,
    I128,
    U8,
    U16,
    U32,
    U64,
    U128,
    F32,
    F64,
    Bool,
    String,
    Bytes,
    DateTime,
}

impl DataType {
    /// The active variant.
    pub open spec fn kind(&self) -> DataKind {
        match self {
            DataType::I8(_) => DataKind::I8,
            DataType::I16(_) => DataKind::I16,
            DataType::I32(_) => DataKind::I32,
            DataType::I64(_) => DataKind::I64,
            DataType::I128(_) => DataKind::I128,
            DataType::U8(_) => DataKind::U8,
            DataType::U16(_) => DataKind::U16,
            DataType::U32(_) => DataKind::U32,
            DataType::U64(_) => DataKind::U64,
            DataType::U128(_) => DataKind::U128,
            DataType::F32(_) => DataKind::F32,
            DataType::F64(_) => DataKind::F64,
            DataType::Bool(_) => DataKind::Bool,
            DataType::String(_) => DataKind::String,
            DataType::Bytes(_) => DataKind::Bytes,
            DataType::DateTime(_) => DataKind::DateTime,
        }
    }

    /// The payload as a `T`: present exactly when `T` is the type of the
    /// active variant, and then equal to the payload. No number is widened or
    /// cut to fit.
    pub fn value<T>(&self) -> (r: Option<T>) where T: FromDataType
        ensures
            r.is_some() <==> self.kind() == T::kind(),
            match r {
                Some(v) => T::payload(self) == Some(v@),
                None => T::payload(self).is_none(),
            },
    {
        T::from_data_type(self)
    }
}

/// A type that is the payload of one variant of `DataType`.
pub trait FromDataType: Sized + View {
    /// The variant whose payload has this type.
    spec fn kind() -> DataKind;

    /// What `data_type` holds when read as this type.
    spec fn payload(data_type: &DataType) -> Option<Self::V>;

    fn from_data_type(data_type: &DataType) -> (r: Option<Self>)
        ensures
            r.is_some() <==> data_type.kind() == Self::kind(),
            match r {
                Some(v) => Self::payload(data_type) == Some(v@),
                None => Self::payload(data_type).is_none(),
            },
    ;
}

impl FromDataType for i8 {
    open spec fn kind() -> DataKind {
        DataKind::I8
    }

    open spec fn payload(data_type: &DataType) -> Option<i8> {
        match data_type {
            DataType::I8(value) => Some(*value),
            _ => None,
        }
    }

    fn from_data_type(data_type: &DataType) -> (r: Option<Self>) {
        if let DataType::I8(value) = data_type {
            Some(*value)
        } else {
            None
        }
    }
}

impl FromDataType for i16 {
    open spec fn kind() -> DataKind {
        DataKind::I16
    }

    open spec fn payload(data_type: &DataType) -> Option<i16> {
        match data_type {
            DataType::I16(value) => Some(*value),
            _ => None,
        }
    }

    fn from_data_type(data_type: &DataType) -> (r: Option<Self>) {
        if let DataType::I16(value) = data_type {
            Some(*value)
        } else {
            None
        }
    }
}

impl FromDataType for i32 {
    open spec fn kind() -> DataKind {
        DataKind::I32
    }

    open spec fn payload(data_type: &DataType) -> Option<i32> {
        match data_type {
            DataType::I32(value) => Some(*value),
            _ => None,
        }
    }

    fn from_data_type(data_type: &DataType) -> (r: Option<Self>) {
        if let DataType::I32(value) = data_type {
            Some(*value)
        } else {
            None
        }
    }
}

impl FromDataType for i64 {
    open spec fn kind() -> DataKind {
        DataKind::I64
    }

    open spec fn payload(data_type: &DataType) -> Option<i64> {
        match data_type {
            DataType::I64(value) => Some(*value),
            _ => None,
        }
    }

    fn from_data_type(data_type: &DataType) -> (r: Option<Self>) {
        if let DataType::I64(value) = data_type {
            Some(*value)
        } else {
            None
        }
    }
}

impl FromDataType for i128 {
    open spec fn kind() -> DataKind {
        DataKind::I128
    }

    open spec fn payload(data_type: &DataType) -> Option<i128> {
        match data_type {
            DataType::I128(value) => Some(*value),
            _ => None,
        }
    }

    fn from_data_type(data_type: &DataType) -> (r: Option<Self>) {
        if let DataType::I128(value) = data_type {
            Some(*value)
        } else {
            None
        }
    }
}

impl FromDataType for u8 {
    open spec fn kind() -> DataKind {
        DataKind::U8
    }

    open spec fn payload(data_type: &DataType) -> Option<u8> {
        match data_type {
            DataType::U8(value) => Some(*value),
            _ => None,
        }
    }

    fn from_data_type(data_type: &DataType) -> (r: Option<Self>) {
        if let DataType::U8(value) = data_type {
            Some(*value)
        } else {
            None
        }
    }
}

impl FromDataType for u16 {
    open spec fn kind() -> DataKind {
        DataKind::U16
    }

    open spec fn payload(data_type: &DataType) -> Option<u16> {
        match data_type {
            DataType::U16(value) => Some(*value),
            _ => None,
        }
    }

    fn from_data_type(data_type: &DataType) -> (r: Option<Self>) {
        if let DataType::U16(value) = data_type {
            Some(*value)
        } else {
            None
        }
    }
}

impl FromDataType for u32 {
    open spec fn kind() -> DataKind {
        DataKind::U32
    }

    open spec fn payload(data_type: &DataType) -> Option<u32> {
        match data_type {
            DataType::U32(value) => Some(*value),
            _ => None,
        }
    }

    fn from_data_type(data_type: &DataType) -> (r: Option<Self>) {
        if let DataType::U32(value) = data_type {
            Some(*value)
        } else {
            None
        }
    }
}

impl FromDataType for u64 {
    open spec fn kind() -> DataKind {
        DataKind::U64
    }

    open spec fn payload(data_type: &DataType) -> Option<u64> {
        match data_type {
            DataType::U64(value) => Some(*value),
            _ => None,
        }
    }

    fn from_data_type(data_type: &DataType) -> (r: Option<Self>) {
        if let DataType::U64(value) = data_type {
            Some(*value)
        } else {
            None
        }
    }
}

impl FromDataType for u128 {
    open spec fn kind() -> DataKind {
        DataKind::U128
    }

    open spec fn payload(data_type: &DataType) -> Option<u128> {
        match data_type {
            DataType::U128(value) => Some(*value),
            _ => None,
        }
    }

    fn from_data_type(data_type: &DataType) -> (r: Option<Self>) {
        if let DataType::U128(value) = data_type {
            Some(*value)
        } else {
            None
        }
    }
}

impl FromDataType for Float32 {
    open spec fn kind() -> DataKind {
        DataKind::F32
    }

    open spec fn payload(data_type: &DataType) -> Option<Float32> {
        match data_type {
            DataType::F32(value) => Some(*value),
            _ => None,
        }
    }

    fn from_data_type(data_type: &DataType) -> (r: Option<Self>) {
        if let DataType::F32(value) = data_type {
            Some(*value)
        } else {
            None
        }
    }
}

impl FromDataType for Float64 {
    open spec fn kind() -> DataKind {
        DataKind::F64
    }

    open spec fn payload(data_type: &DataType) -> Option<Float64> {
        match data_type {
            DataType::F64(value) => Some(*value),
            _ => None,
        }
    }

    fn from_data_type(data_type: &DataType) -> (r: Option<Self>) {
        if let DataType::F64(value) = data_type {
            Some(*value)
        } else {
            None
        }
    }
}

impl FromDataType for bool {
    open spec fn kind() -> DataKind {
        DataKind::Bool
    }

    open spec fn payload(data_type: &DataType) -> Option<bool> {
        match data_type {
            DataType::Bool(value) => Some(*value),
            _ => None,
        }
    }

    fn from_data_type(data_type: &DataType) -> (r: Option<Self>) {
        if let DataType::Bool(value) = data_type {
            Some(*value)
        } else {
            None
        }
    }
}

impl FromDataType for String {
    open spec fn kind() -> DataKind {
        DataKind::String
    }

    open spec fn payload(data_type: &DataType) -> Option<Seq<char>> {
        match data_type {
            DataType::String(value) => Some(value@),
            _ => None,
        }
    }

    fn from_data_type(data_type: &DataType) -> (r: Option<Self>) {
        if let DataType::String(value) = data_type {
            Some(value.clone())
        } else {
            None
        }
    }
}

impl FromDataType for Vec<u8> {
    open spec fn kind() -> DataKind {
        DataKind::Bytes
    }

    open spec fn payload(data_type: &DataType) -> Option<Seq<u8>> {
        match data_type {
            DataType::Bytes(value) => Some(value@),
            _ => None,
        }
    }

    fn from_data_type(data_type: &DataType) -> (r: Option<Self>) {
        if let DataType::Bytes(value) = data_type {
            let copy = value.clone();
            assert(copy@ =~= value@);
            Some(copy)
        } else {
            None
        }
    }
}

impl FromDataType for Timestamp {
    open spec fn kind() -> DataKind {
        DataKind::DateTime
    }

    open spec fn payload(data_type: &DataType) -> Option<Timestamp> {
        match data_type {
            DataType::DateTime(value) => Some(*value),
            _ => None,
        }
    }

    fn from_data_type(data_type: &DataType) -> (r: Option<Self>) {
        if let DataType::DateTime(value) = data_type {
            Some(*value)
        } else {
            None
        }
    }
}

/// Each payload type belongs to the variant of its own name, so that no
/// two of them share a variant and a value is read as one type only.
pub proof fn each_payload_type_has_its_own_variant()
    ensures
        <i8 as FromDataType>::kind() == DataKind::I8,
        <i16 as FromDataType>::kind() == DataKind::I16,
        <i32 as FromDataType>::kind() == DataKind::I32,
        <i64 as FromDataType>::kind() == DataKind::I64,
        <i128 as FromDataType>::kind() == DataKind::I128,
        <u8 as FromDataType>::kind() == DataKind::U8,
        <u16 as FromDataType>::kind() == DataKind::U16,
        <u32 as FromDataType>::kind() == DataKind::U32,
        <u64 as FromDataType>::kind() == DataKind::U64,
        <u128 as FromDataType>::kind() == DataKind::U128,
        <Float32 as FromDataType>::kind() == DataKind::F32,
        <Float64 as FromDataType>::kind() == DataKind::F64,
        <bool as FromDataType>::kind() == DataKind::Bool,
        <String as FromDataType>::kind() == DataKind::String,
        <Vec<u8> as FromDataType>::kind() == DataKind::Bytes,
        <Timestamp as FromDataType>::kind() == DataKind::DateTime,
{
}

} // verus!
