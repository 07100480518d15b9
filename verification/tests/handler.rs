use tabularuq::rdb_qry_handler::datatype::DataType;
use tabularuq::rdb_qry_handler::error::QueryHandleError;
use tabularuq::rdb_qry_handler::protocol::{Column, ColumnData, QueryItem, ResultMetadata, Row};
use tabularuq::rdb_qry_handler::sqlserver::bind::BindValue;
use tabularuq::rdb_qry_handler::sqlserver::stream::{collect_rows, default_fetch_more};
use tabularuq::rdb_qry_handler::sqlserver::{
    create_config, EncryptionLevel, QueryAffectedRows, SqlServerConnectionConfig,
    SqlServerHandler, DEFAULT_PORT,
};
use tabularuq::rdb_qry_handler::{
    qry_handler_from_dsi, DataRecord, DataSourceInform, QueryResult,
};

/// Stands for a connection: it remembers what was sent on it and answers
/// every statement with the same stream.
#[derive(Debug, PartialEq)]
struct MockClient {
    sent: Vec<String>,
    answer: Vec<QueryItem>,
}

fn config(port: Option<u16>, ado_string: Option<&str>) -> SqlServerConnectionConfig {
    SqlServerConnectionConfig::new(
        ado_string.map(|ado| ado.to_string()),
        "db.example".to_string(),
        port,
        "sales".to_string(),
        "reader".to_string(),
        "SECRET-REDACTED".to_string(),
    )
}

#[test]
fn config_defaults_the_port_and_switches_encryption_off() {
    let plain = create_config(&config(None, None));
    assert_eq!(plain.ado_string, None);
    assert_eq!(plain.host, "db.example");
    assert_eq!(plain.port, 1433);
    assert_eq!(DEFAULT_PORT, 1433);
    assert_eq!(plain.database, "sales");
    assert_eq!(plain.username, "reader");
    assert_eq!(plain.password, "SECRET-REDACTED");
    assert_eq!(plain.encryption, EncryptionLevel::NotSupported);
}

#[test]
fn config_keeps_a_given_port_and_connection_string() {
    let ado = "server=tcp:other,1500;encrypt=true";
    let made = create_config(&config(Some(14_330), Some(ado)));
    assert_eq!(made.ado_string, Some(ado.to_string()));
    assert_eq!(made.port, 14_330);
    assert_eq!(made.host, "db.example");
    assert_eq!(made.encryption, EncryptionLevel::NotSupported);
    assert_eq!(create_config(&config(Some(0), None)).port, 0);
}

#[test]
fn new_handler_is_not_connected() {
    let handler = SqlServerHandler::<MockClient>::from_config(config(None, None)).unwrap();
    assert!(!handler.is_connected());
    assert_eq!(handler.conn_config(), &config(None, None));
}

#[test]
fn query_before_connect_is_not_initialized() {
    let mut handler = SqlServerHandler::<MockClient>::from_config(config(None, None)).unwrap();
    let refused = handler.query("SELECT 1", None).map(|_| ());
    assert_eq!(
        refused,
        Err(QueryHandleError::NotInitialized("Client is not initialized".to_string()))
    );
    let vars = [DataType::I32(1)];
    let again = handler.query("SELECT @P1", Some(&vars)).map(|_| ());
    assert_eq!(
        again,
        Err(QueryHandleError::NotInitialized("Client is not initialized".to_string()))
    );
    assert!(!handler.is_connected());
}

#[test]
fn mutate_before_connect_is_not_initialized() {
    let mut handler = SqlServerHandler::<MockClient>::from_config(config(None, None)).unwrap();
    let refused = handler.mutate("DELETE FROM t", None).map(|_| ());
    assert_eq!(
        refused,
        Err(QueryHandleError::NotInitialized("Client is not initialized".to_string()))
    );
    assert!(!handler.is_connected());
}

#[test]
fn close_before_connect_is_an_invalid_call() {
    let handler = SqlServerHandler::<MockClient>::from_config(config(None, None)).unwrap();
    assert_eq!(
        handler.close(),
        Err(QueryHandleError::InvalidCall(
            "Client cannot be unwrapped. Ownership might already be moved.".to_string()
        ))
    );
}

#[test]
fn connected_handler_prepares_statements_on_its_connection() {
    let mut handler = SqlServerHandler::from_config(config(None, None)).unwrap();
    handler.connect(MockClient { sent: Vec::new(), answer: Vec::new() });
    assert!(handler.is_connected());
    let vars = [DataType::U32(u32::MAX), DataType::I128(3), DataType::String("x".to_string())];
    {
        let (client, statement) = handler.mutate("INSERT INTO table", Some(&vars)).unwrap();
        assert_eq!(statement.sql(), "INSERT INTO table");
        assert_eq!(
            statement.params(),
            &[BindValue::I64(4_294_967_295), BindValue::String("x".to_string())]
        );
        client.sent.push(statement.sql().to_string());
    }
    {
        let (client, statement) = handler.query("SELECT * FROM table", None).unwrap();
        assert!(statement.params().is_empty());
        client.sent.push(statement.sql().to_string());
    }
    let client = handler.close().unwrap();
    assert_eq!(client.sent, vec!["INSERT INTO table".to_string(), "SELECT * FROM table".to_string()]);
}

#[test]
fn connecting_again_replaces_the_connection() {
    let mut handler = SqlServerHandler::from_config(config(None, None)).unwrap();
    handler.connect(MockClient { sent: vec!["first".to_string()], answer: Vec::new() });
    handler.connect(MockClient { sent: vec!["second".to_string()], answer: Vec::new() });
    assert_eq!(handler.close().unwrap().sent, vec!["second".to_string()]);
}

#[test]
fn handler_with_mocked_backend_runs_from_connect_to_close() {
    let inform = DataSourceInform::new("sqlserver".to_string(), Some(config(None, None)));
    let mut handler = qry_handler_from_dsi::<MockClient>(inform).unwrap();
    handler.connect(MockClient {
        sent: Vec::new(),
        answer: vec![
            QueryItem::Metadata(ResultMetadata { columns: vec![Column { name: "".to_string() }] }),
            QueryItem::Row(Row { data: vec![ColumnData::I32(Some(1))] }),
        ],
    });
    let rows = {
        let (client, statement) = handler.query("SELECT 1", None).unwrap();
        client.sent.push(statement.sql().to_string());
        collect_rows(client.answer.clone(), &default_fetch_more)
    };
    assert_eq!(rows.column_meta(), Some(["".to_string()].as_slice()));
    assert_eq!(rows.records(), &[DataRecord::new(vec![Some(DataType::I32(1))])]);
    assert_eq!(rows.records()[0].cvalue::<i32>(0), Some(1));
    // The connection stays usable after a result was read.
    assert!(handler.query("SELECT 1", None).is_ok());
    let client = handler.close().unwrap();
    assert_eq!(client.sent, vec!["SELECT 1".to_string()]);
}

#[test]
fn early_stop_leaves_the_connection_usable() {
    let mut handler = SqlServerHandler::from_config(config(None, None)).unwrap();
    handler.connect(MockClient {
        sent: Vec::new(),
        answer: vec![
            QueryItem::Row(Row { data: vec![ColumnData::U8(Some(1))] }),
            QueryItem::Row(Row { data: vec![ColumnData::U8(Some(2))] }),
        ],
    });
    let stop = |_: Option<&[String]>, _: Option<&DataRecord>| false;
    let first = {
        let (client, _) = handler.query("SELECT n FROM t", None).unwrap();
        collect_rows(client.answer.clone(), &stop)
    };
    assert_eq!(first.records().len(), 1);
    let second = {
        let (client, _) = handler.query("SELECT n FROM t", None).unwrap();
        collect_rows(client.answer.clone(), &default_fetch_more)
    };
    assert_eq!(second.records().len(), 2);
    assert!(handler.close().is_ok());
}

#[test]
fn affected_rows_are_reported_unchanged() {
    assert_eq!(QueryAffectedRows::new(0).affected_rows(), 0);
    assert_eq!(QueryAffectedRows::new(17).affected_rows(), 17);
    assert_eq!(QueryAffectedRows::new(u64::MAX).affected_rows(), u64::MAX);
}

#[test]
fn sqlserver_driver_with_configuration_gives_a_handler() {
    let inform = DataSourceInform::new("sqlserver".to_string(), Some(config(Some(1), None)));
    assert!(inform.is_supported());
    let handler = qry_handler_from_dsi::<MockClient>(inform).unwrap();
    assert!(!handler.is_connected());
    assert_eq!(handler.conn_config(), &config(Some(1), None));
}

#[test]
fn sqlserver_driver_without_configuration_gives_no_handler() {
    let inform = DataSourceInform::new("sqlserver".to_string(), None);
    assert!(inform.is_supported());
    assert!(qry_handler_from_dsi::<MockClient>(inform).is_none());
}

#[test]
fn other_drivers_give_no_handler() {
    for driver in ["postgres", "", "SQLSERVER", "sqlserver ", "sqlserve"] {
        let inform = DataSourceInform::new(driver.to_string(), Some(config(None, None)));
        assert!(!inform.is_supported());
        assert!(qry_handler_from_dsi::<MockClient>(inform).is_none());
    }
}
