//! Queries against relational data sources: a model of typed values,
//! records and result sets, and the rules of a SQL Server backend for
//! binding parameters, decoding column values, reading a result stream
//! under a continuation, and keeping track of its one connection. Sending
//! and receiving is left to the caller.

pub mod rdb_qry_handler;
pub mod tabular_porter;
