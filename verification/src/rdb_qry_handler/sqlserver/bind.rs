use vstd::prelude::*;
use vstd::string::StringExecFns;

use crate::rdb_qry_handler::datatype::{DataType, DataValue, Float32, Float64, Timestamp};

verus! {

/// A parameter in a form that the protocol can take.
#[derive(Debug, Clone, PartialEq)]
pub enum BindValue {
    U8(u8),
    I16(i16),
    I32(i32),
    I64(i64),
    F32(Float32),
    F64(Float64),
    Bool(bool),
    String(String),
    Bytes(Vec<u8>),
    DateTime(Timestamp),
}

impl View for BindValue {
    type V = DataValue;

    open spec fn view(&self) -> DataValue {
        match self {
            BindValue::U8(v) => DataValue::U8(*v),
            BindValue::I16(v) => DataValue::I16(*v),
            BindValue::I32(v) => DataValue::I32(*v),
            BindValue::I64(v) => DataValue::I64(*v),
            BindValue::F32(v) => DataValue::F32(*v),
            BindValue::F64(v) => DataValue::F64(*v),
            BindValue::Bool(v) => DataValue::Bool(*v),
            BindValue::String(v) => DataValue::String(v@),
            BindValue::Bytes(v) => DataValue::Bytes(v@),
            BindValue::DateTime(v) => DataValue::DateTime(*v),
        }
    }
}

/// A 64-bit unsigned number read as a signed one of the same bits.
pub open spec fn as_signed(v: u64) -> i64 {
    if v <= i64::MAX {
        v as i64
    } else {
        (v - 0x1_0000_0000_0000_0000) as i64
    }
}

/// What is bound for a parameter. The variants that the protocol knows are
/// bound as they are; a 16-bit unsigned number is bound as a 32-bit signed
/// one, a 32-bit or 64-bit unsigned number as a 64-bit signed one; for the
/// remaining variants nothing is bound.
pub open spec fn bind_value(value: DataValue) -> Option<DataValue> {
    match value {
        DataValue::U8(_) => Some(value),
        DataValue::I16(_) => Some(value),
        DataValue::I32(_) => Some(value),
        DataValue::I64(_) => Some(value),
        DataValue::F32(_) => Some(value),
        DataValue::F64(_) => Some(value),
        DataValue::Bool(_) => Some(value),
        DataValue::String(_) => Some(value),
        DataValue::Bytes(_) => Some(value),
        DataValue::DateTime(_) => Some(value),
        DataValue::U16(v) => Some(DataValue::I32(v as i32)),
        DataValue::U32(v) => Some(DataValue::I64(v as i64)),
        DataValue::U64(v) => Some(DataValue::I64(as_signed(v))),
        DataValue::I8(_) => None,
        DataValue::I128(_) => None,
        DataValue::U128(_) => None,
    }
}

/// What is bound for each of `vars` in turn, those left out for which
/// nothing is bound.
pub open spec fn bound_params(vars: Seq<DataType>) -> Seq<DataValue>
    decreases vars.len(),
{
    if vars.len() == 0 {
        Seq::empty()
    } else {
        match bind_value(vars.last()@) {
            Some(param) => bound_params(vars.drop_last()).push(param),
            None => bound_params(vars.drop_last()),
        }
    }
}

/// What each of `params` holds, with text and bytes as sequences.
pub open spec fn param_values(params: Seq<BindValue>) -> Seq<DataValue> {
    params.map_values(|param: BindValue| param@)
}

/// A statement with the parameters bound to it so far, in the order of
/// their placeholders.
#[derive(Debug, Clone, PartialEq)]
pub struct Query {
    sql: String,
    params: Vec<BindValue>,
}

impl Query {
    /// The text of the statement.
    pub closed spec fn spec_sql(&self) -> Seq<char> {
        self.sql@
    }

    /// The parameters bound so far.
    pub closed spec fn spec_params(&self) -> Seq<DataValue> {
        param_values(self.params@)
    }

    pub fn new(sql: &str) -> (query: Query)
        ensures
            query.spec_sql() == sql@,
            query.spec_params() == Seq::<DataValue>::empty(),
    {
        let query = Query { sql: String::from_str(sql), params: Vec::new() };
        assert(query.spec_params() =~= Seq::<DataValue>::empty());
        query
    }

    pub fn sql(&self) -> (sql: &str)
        ensures
            sql@ == self.spec_sql(),
    {
        self.sql.as_str()
    }

    pub fn params(&self) -> (params: &[BindValue])
        ensures
            param_values(params@) == self.spec_params(),
    {
        self.params.as_slice()
    }
}

/// The protocol form of a parameter, where it has one.
pub fn to_bind_value(bind_var: &DataType) -> (param: Option<BindValue>)
    ensures
        match param {
            Some(param) => bind_value(bind_var@) == Some(param@),
            None => bind_value(bind_var@).is_none(),
        },
{
    match bind_var {
        DataType::U8(val) => Some(BindValue::U8(*val)),
        DataType::I16(val) => Some(BindValue::I16(*val)),
        DataType::I32(val) => Some(BindValue::I32(*val)),
        DataType::I64(val) => Some(BindValue::I64(*val)),
        DataType::F32(val) => Some(BindValue::F32(*val)),
        DataType::F64(val) => Some(BindValue::F64(*val)),
        DataType::Bool(val) => Some(BindValue::Bool(*val)),
        DataType::String(val) => Some(BindValue::String(val.clone())),
        DataType::Bytes(val) => {
            let bytes = val.clone();
            assert(bytes@ =~= val@);
            Some(BindValue::Bytes(bytes))
        },
        DataType::DateTime(val) => Some(BindValue::DateTime(*val)),
        DataType::U16(val) => Some(BindValue::I32(*val as i32)),
        DataType::U32(val) => Some(BindValue::I64(*val as i64)),
        DataType::U64(val) => {
            let signed: i64 = if *val <= 0x7fff_ffff_ffff_ffff {
                *val as i64
            } else {
                ((*val - 0x8000_0000_0000_0000) as i64) + i64::MIN
            };
            Some(BindValue::I64(signed))
        },
        _ => None,
    }
}

/// Binds one parameter to the statement, behind those bound before. A
/// variant for which nothing can be bound leaves the statement as it was.
pub fn bind_query(query: &mut Query, bind_var: &DataType)
    ensures
        final(query).spec_sql() == old(query).spec_sql(),
        final(query).spec_params() == match bind_value(bind_var@) {
            Some(param) => old(query).spec_params().push(param),
            None => old(query).spec_params(),
        },
{
    match to_bind_value(bind_var) {
        Some(param) => {
            query.params.push(param);
            assert(query.spec_params() =~= old(query).spec_params().push(param@));
        },
        None => {},
    }
}

/// The statement `sql` with each of `bind_variables` bound in turn.
pub fn statement(sql: &str, bind_variables: Option<&[DataType]>) -> (query: Query)
    ensures
        query.spec_sql() == sql@,
        query.spec_params() == match bind_variables {
            Some(vars) => bound_params(vars@),
            None => Seq::<DataValue>::empty(),
        },
{
    let mut query = Query::new(sql);
    if let Some(vars) = bind_variables {
        let mut i: usize = 0;
        assert(bound_params(vars@.take(0)) =~= Seq::<DataValue>::empty());
        while i < vars.len()
            invariant
                i <= vars.len(),
                query.spec_sql() == sql@,
                query.spec_params() == bound_params(vars@.take(i as int)),
            decreases vars.len() - i,
        {
            assert(vars@.take(i + 1).drop_last() =~= vars@.take(i as int));
            bind_query(&mut query, &vars[i]);
            i += 1;
        }
        assert(vars@.take(vars.len() as int) =~= vars@);
    }
    query
}

/// A 16-bit unsigned number is bound as the 32-bit signed number of the
/// same value, and a 32-bit unsigned number as the 64-bit signed number of
/// the same value: binding the one gives what binding the other gives.
pub proof fn unsigned_binds_as_wider_signed(small: u16, wide: u32)
    ensures
        bind_value(DataValue::U16(small)) == bind_value(DataValue::I32(small as i32)),
        bind_value(DataValue::U32(wide)) == bind_value(DataValue::I64(wide as i64)),
        small as i32 == small,
        wide as i64 == wide,
{
}

} // verus!
