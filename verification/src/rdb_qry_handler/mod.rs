use vstd::prelude::*;
use vstd::string::StringExecFns;

pub mod datatype;
pub mod error;
pub mod protocol;
pub mod sqlserver;

use datatype::{cell_view, DataType, DataValue, FromDataType};
use sqlserver::{SqlServerConnectionConfig, SqlServerHandler};

verus! {

/// One row of a result: its cells in column order, each a value or NULL.
#[derive(Debug, Clone, PartialEq)]
pub struct DataRecord {
    cells: Vec<Option<DataType>>,
}

impl View for DataRecord {
    type V = Seq<Option<DataType>>;

    closed spec fn view(&self) -> Seq<Option<DataType>> {
        self.cells@
    }
}

impl DataRecord {
    /// The cell at `index`: absent past the end of the row and for NULL.
    pub open spec fn spec_cell(&self, index: int) -> Option<DataType> {
        if 0 <= index < self@.len() {
            self@[index]
        } else {
            None
        }
    }

    /// The cells with text and bytes as sequences.
    pub open spec fn values(&self) -> Seq<Option<DataValue>> {
        self@.map_values(|cell: Option<DataType>| cell_view(cell))
    }

    pub fn new(cells: Vec<Option<DataType>>) -> (record: DataRecord)
        ensures
            record@ == cells@,
    {
        DataRecord { cells }
    }

    pub fn cells(&self) -> (cells: &[Option<DataType>])
        ensures
            cells@ == self@,
    {
        self.cells.as_slice()
    }

    /// The value at `index`, absent where the index is past the end or the
    /// cell is NULL.
    pub fn cell(&self, index: usize) -> (cell: Option<&DataType>)
        ensures
            match cell {
                Some(value) => self.spec_cell(index as int) == Some(*value),
                None => self.spec_cell(index as int).is_none(),
            },
    {
        if index < self.cells.len() {
            self.cells[index].as_ref()
        } else {
            None
        }
    }

    /// The value at `index` as a `T`. Absent where the index is past the end,
    /// the cell is NULL or the cell's variant is not the one of `T`; the three
    /// cannot be told apart.
    pub fn cvalue<T>(&self, index: usize) -> (value: Option<T>) where T: FromDataType
        ensures
            value.is_some() <==> (self.spec_cell(index as int) matches Some(cell) && cell.kind()
                == T::kind()),
            match value {
                Some(v) => T::payload(&self.spec_cell(index as int).unwrap()) == Some(v@),
                None => true,
            },
    {
        match self.cell(index) {
            Some(cell) => cell.value::<T>(),
            None => None,
        }
    }
}

/// A row, as some backend delivers it, that can be turned into a record.
pub trait IntoDataRecord: Sized {
    /// The cells that the row decodes to, in column order.
    spec fn decoded(self) -> Seq<Option<DataValue>>;

    fn into_data_record(self) -> (record: DataRecord)
        ensures
            record.values() == self.decoded(),
    ;
}

/// A result set, whole or cut short: the column names, once any were seen,
/// and the rows in the order in which they arrived.
#[derive(Debug, Clone, PartialEq)]
pub struct DataRows {
    column_meta: Option<Vec<String>>,
    records: Vec<DataRecord>,
}

impl DataRows {
    /// The column names, where there are any.
    pub closed spec fn spec_column_meta(&self) -> Option<Seq<String>> {
        match self.column_meta {
            Some(names) => Some(names@),
            None => None,
        }
    }

    /// The rows, first arrived first.
    pub closed spec fn spec_records(&self) -> Seq<DataRecord> {
        self.records@
    }

    pub fn new(column_meta: Option<Vec<String>>, records: Vec<DataRecord>) -> (rows: DataRows)
        ensures
            rows.spec_column_meta() == match column_meta {
                Some(names) => Some(names@),
                None => None,
            },
            rows.spec_records() == records@,
    {
        DataRows { column_meta, records }
    }

    pub fn column_meta(&self) -> (names: Option<&[String]>)
        ensures
            match names {
                Some(names) => self.spec_column_meta() == Some(names@),
                None => self.spec_column_meta().is_none(),
            },
    {
        match &self.column_meta {
            Some(names) => Some(names.as_slice()),
            None => None,
        }
    }

    pub fn records(&self) -> (records: &[DataRecord])
        ensures
            records@ == self.spec_records(),
    {
        self.records.as_slice()
    }
}

/// What a statement without a row stream reports.
pub trait QueryResult {
    /// The count of rows that the statement changed, as it was reported.
    spec fn reported(&self) -> u64;

    fn affected_rows(&self) -> (count: u64)
        ensures
            count == self.reported(),
    ;
}

/// Which backend to use, and the configuration of each backend that has
/// one.
#[derive(Debug, Clone, PartialEq, Eq)]
pub struct DataSourceInform {
    pub driver: String,
    pub sqlserver: Option<SqlServerConnectionConfig>,
}

impl DataSourceInform {
    /// Whether a backend exists for the driver that is named.
    pub open spec fn spec_supported(&self) -> bool {
        self.driver@ == "sqlserver"@
    }

    pub fn new(driver: String, sqlserver: Option<SqlServerConnectionConfig>) -> (inform:
        DataSourceInform)
        ensures
            inform.driver == driver,
            inform.sqlserver == sqlserver,
    {
        DataSourceInform { driver, sqlserver }
    }

    /// Whether a backend exists for the driver that is named.
    pub fn is_supported(&self) -> (supported: bool)
        ensures
            supported == self.spec_supported(),
    {
        self.driver == String::from_str("sqlserver")
    }
}

/// The handler for the backend that `inform` names, not yet connected.
/// There is none where the driver is not `sqlserver`, and none where the
/// configuration of that backend is missing.
pub fn qry_handler_from_dsi<C>(inform: DataSourceInform) -> (handler: Option<SqlServerHandler<C>>)
    ensures
        match handler {
            Some(h) => {
                &&& inform.spec_supported()
                &&& inform.sqlserver matches Some(conn_config) && h == SqlServerHandler::<
                    C,
                >::unconnected(conn_config) && h.spec_config() == conn_config
                &&& !h.spec_connected()
            },
            None => !inform.spec_supported() || inform.sqlserver.is_none(),
        },
{
    if inform.is_supported() {
        match inform.sqlserver {
            Some(conn_config) => match SqlServerHandler::from_config(conn_config) {
                Ok(handler) => Some(handler),
                Err(_) => None,
            },
            None => None,
        }
    } else {
        None
    }
}

} // verus!
