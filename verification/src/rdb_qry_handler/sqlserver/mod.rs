use vstd::prelude::*;
use vstd::string::StringExecFns;

pub mod bind;
pub mod decode;
pub mod stream;

use super::datatype::{DataType, DataValue};
use super::error::QueryHandleError;
use super::QueryResult;
use bind::{bound_params, statement, Query};

verus! {

/// The port that a server listens on where the configuration names none.
pub const DEFAULT_PORT: u16 = 1433;

/// How a SQL Server is reached and who logs in.
#[derive(Debug, Clone, PartialEq, Eq)]
pub struct SqlServerConnectionConfig {
    /// A connection string to start from, where there is one.
    pub ado_string: Option<String>,
    pub host: String,
    pub port: Option<u16>,
    pub database: String,
    pub username: String,
    pub password: String,
}

impl SqlServerConnectionConfig {
    pub fn new(
        ado_string: Option<String>,
        host: String,
        port: Option<u16>,
        database: String,
        username: String,
        password: String,
    ) -> (config: SqlServerConnectionConfig)
        ensures
            config.ado_string == ado_string,
            config.host == host,
            config.port == port,
            config.database == database,
            config.username == username,
            config.password == password,
    {
        SqlServerConnectionConfig { ado_string, host, port, database, username, password }
    }
}

/// Whether the traffic of a connection is encrypted.
#[derive(Debug, Clone, Copy, PartialEq, Eq)]
pub enum EncryptionLevel {
    /// Only the login is encrypted.
    Off,
    /// Everything is encrypted where the server can.
    On,
    /// Nothing is encrypted and no encryption is negotiated.
    NotSupported,
    /// Everything is encrypted, or the connection fails.
    Required,
}

/// The settings of a connection, in the order in which they are applied:
/// the connection string first, where there is one, then each of the other
/// fields over it.
#[derive(Debug, Clone, PartialEq, Eq)]
pub struct Config {
    pub ado_string: Option<String>,
    pub host: String,
    pub port: u16,
    pub database: String,
    pub username: String,
    pub password: String,
    pub encryption: EncryptionLevel,
}

/// The settings for a connection: those of `conn_config`, with the default
/// port where it names none, and with encryption switched off altogether.
pub fn create_config(conn_config: &SqlServerConnectionConfig) -> (config: Config)
    ensures
        config.ado_string == conn_config.ado_string,
        config.host == conn_config.host,
        config.port == match conn_config.port {
            Some(port) => port,
            None => DEFAULT_PORT,
        },
        config.database == conn_config.database,
        config.username == conn_config.username,
        config.password == conn_config.password,
        config.encryption == EncryptionLevel::NotSupported,
{
    let ado_string = match &conn_config.ado_string {
        Some(ado) => Some(ado.clone()),
        None => None,
    };
    let port = match conn_config.port {
        Some(port) => port,
        None => DEFAULT_PORT,
    };
    Config {
        ado_string,
        host: conn_config.host.clone(),
        port,
        database: conn_config.database.clone(),
        username: conn_config.username.clone(),
        password: conn_config.password.clone(),
        encryption: EncryptionLevel::NotSupported,
    }
}

/// The error that refuses a statement for want of a connection.
pub open spec fn not_initialized(error: QueryHandleError) -> bool {
    error matches QueryHandleError::NotInitialized(msg) && msg@ == "Client is not initialized"@
}

/// The error that refuses to close a handler for want of a connection.
pub open spec fn cannot_close(error: QueryHandleError) -> bool {
    error matches QueryHandleError::InvalidCall(msg) && msg@
        == "Client cannot be unwrapped. Ownership might already be moved."@
}

/// A handler for one SQL Server: its configuration and, once connected, the
/// one connection `C` that it owns.
pub struct SqlServerHandler<C> {
    conn_config: SqlServerConnectionConfig,
    client: Option<C>,
}

impl<C> SqlServerHandler<C> {
    /// The configuration that the handler was made from.
    pub closed spec fn spec_config(&self) -> SqlServerConnectionConfig {
        self.conn_config
    }

    /// The connection that the handler owns, where it has one.
    pub closed spec fn spec_client(&self) -> Option<C> {
        self.client
    }

    /// The handler as it is made: with the configuration and no connection.
    pub closed spec fn unconnected(conn_config: SqlServerConnectionConfig) -> Self {
        SqlServerHandler { conn_config, client: None }
    }

    /// Whether the handler owns a connection.
    pub open spec fn spec_connected(&self) -> bool {
        self.spec_client().is_some()
    }

    /// Makes a handler without a connection. Nothing of the configuration
    /// is checked here, so this does not fail.
    pub fn from_config(conn_config: SqlServerConnectionConfig) -> (handler: Result<
        Self,
        QueryHandleError,
    >)
        ensures
            handler matches Ok(h) && h == Self::unconnected(conn_config) && h.spec_config()
                == conn_config && !h.spec_connected(),
    {
        Ok(SqlServerHandler { conn_config, client: None })
    }

    pub fn conn_config(&self) -> (conn_config: &SqlServerConnectionConfig)
        ensures
            *conn_config == self.spec_config(),
    {
        &self.conn_config
    }

    /// Whether the handler owns a connection.
    pub fn is_connected(&self) -> (connected: bool)
        ensures
            connected == self.spec_connected(),
    {
        self.client.is_some()
    }

    /// The handler once it has taken over the connection `client`.
    pub closed spec fn connected_to(self, client: C) -> Self {
        SqlServerHandler { conn_config: self.conn_config, client: Some(client) }
    }

    /// Takes over the connection `client`, which was established with the
    /// settings of `create_config`; a connection held before is dropped.
    pub fn connect(&mut self, client: C)
        ensures
            *final(self) == old(self).connected_to(client),
            final(self).spec_config() == old(self).spec_config(),
            final(self).spec_client() == Some(client),
    {
        self.client = Some(client);
    }

    /// Prepares a statement that answers with rows: hands out the connection
    /// to send it on and the statement with its parameters bound. Without a
    /// connection the statement is refused.
    pub fn query(&mut self, query: &str, bind_variables: Option<&[DataType]>) -> (prepared: Result<
        (&mut C, Query),
        QueryHandleError,
    >)
        ensures
            final(self).spec_config() == old(self).spec_config(),
            prepared.is_ok() <==> old(self).spec_connected(),
            match prepared {
                Ok((client, statement)) => {
                    &&& old(self).spec_client() == Some(*client)
                    &&& final(self).spec_client() == Some(*final(client))
                    &&& statement.spec_sql() == query@
                    &&& statement.spec_params() == match bind_variables {
                        Some(vars) => bound_params(vars@),
                        None => Seq::<DataValue>::empty(),
                    }
                },
                Err(error) => {
                    &&& !old(self).spec_connected()
                    &&& !final(self).spec_connected()
                    &&& not_initialized(error)
                },
            },
    {
        match self.client.as_mut() {
            Some(client) => Ok((client, statement(query, bind_variables))),
            None => Err(
                QueryHandleError::NotInitialized(String::from_str("Client is not initialized")),
            ),
        }
    }

    /// Prepares a statement that answers with a count of rows, as `query`
    /// does one that answers with rows.
    pub fn mutate(&mut self, query: &str, bind_variables: Option<&[DataType]>) -> (prepared:
        Result<(&mut C, Query), QueryHandleError>)
        ensures
            final(self).spec_config() == old(self).spec_config(),
            prepared.is_ok() <==> old(self).spec_connected(),
            match prepared {
                Ok((client, statement)) => {
                    &&& old(self).spec_client() == Some(*client)
                    &&& final(self).spec_client() == Some(*final(client))
                    &&& statement.spec_sql() == query@
                    &&& statement.spec_params() == match bind_variables {
                        Some(vars) => bound_params(vars@),
                        None => Seq::<DataValue>::empty(),
                    }
                },
                Err(error) => {
                    &&& !old(self).spec_connected()
                    &&& !final(self).spec_connected()
                    &&& not_initialized(error)
                },
            },
    {
        match self.client.as_mut() {
            Some(client) => Ok((client, statement(query, bind_variables))),
            None => Err(
                QueryHandleError::NotInitialized(String::from_str("Client is not initialized")),
            ),
        }
    }

    /// Ends the handler and hands out its connection for shutting down. A
    /// handler without a connection cannot be closed.
    pub fn close(self) -> (client: Result<C, QueryHandleError>)
        ensures
            client.is_ok() <==> self.spec_connected(),
            match client {
                Ok(client) => self.spec_client() == Some(client),
                Err(error) => !self.spec_connected() && cannot_close(error),
            },
    {
        match self.client {
            Some(client) => Ok(client),
            None => Err(
                QueryHandleError::InvalidCall(
                    String::from_str(
                        "Client cannot be unwrapped. Ownership might already be moved.",
                    ),
                ),
            ),
        }
    }
}

/// The count of rows that a statement changed.
#[derive(Debug, Clone, Copy, PartialEq, Eq)]
pub struct QueryAffectedRows {
    affected_rows: u64,
}

impl QueryAffectedRows {
    /// The count as the protocol reported it.
    pub closed spec fn spec_affected_rows(&self) -> u64 {
        self.affected_rows
    }

    pub fn new(affected_rows: u64) -> (result: QueryAffectedRows)
        ensures
            result.spec_affected_rows() == affected_rows,
    {
        QueryAffectedRows { affected_rows }
    }
}

impl QueryResult for QueryAffectedRows {
    open spec fn reported(&self) -> u64 {
        self.spec_affected_rows()
    }

    fn affected_rows(&self) -> (count: u64) {
        self.affected_rows
    }
}

/// A handler that was made and not yet connected owns no connection, so
/// that it refuses every statement and cannot be closed; once it has taken
/// over a connection it owns that one.
pub proof fn statements_need_a_connection<C>(conn_config: SqlServerConnectionConfig, client: C)
    ensures
        !SqlServerHandler::<C>::unconnected(conn_config).spec_connected(),
        SqlServerHandler::<C>::unconnected(conn_config).spec_config() == conn_config,
        SqlServerHandler::<C>::unconnected(conn_config).connected_to(client).spec_connected(),
{
}

} // verus!
