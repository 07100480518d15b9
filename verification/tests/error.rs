use tabularuq::rdb_qry_handler::error::QueryHandleError;
use tabularuq::tabular_porter::error::TabularPortError;

#[test]
fn query_errors_are_described_by_kind_and_message() {
    assert_eq!(
        QueryHandleError::NotInitialized("no client".to_string()).describe(),
        "Not Initialized: no client"
    );
    assert_eq!(
        QueryHandleError::InvalidCall("closed".to_string()).describe(),
        "Invalid Call: closed"
    );
    assert_eq!(QueryHandleError::Unknown("Unknown".to_string()).describe(), "Unknown: Unknown");
    assert_eq!(QueryHandleError::Unknown(String::new()).describe(), "Unknown: ");
}

#[test]
fn query_errors_compare_by_kind_and_message() {
    assert_eq!(
        QueryHandleError::Unknown("Unknown".to_string()),
        QueryHandleError::Unknown("Unknown".to_string())
    );
    assert_ne!(
        QueryHandleError::Unknown("Unknown".to_string()),
        QueryHandleError::InvalidCall("Unknown".to_string())
    );
    assert_ne!(
        QueryHandleError::NotInitialized("a".to_string()),
        QueryHandleError::NotInitialized("b".to_string())
    );
}

#[test]
fn tabular_errors_are_described_by_kind_and_message() {
    assert_eq!(
        TabularPortError::NotInitialized("Cannot get Range Data".to_string()).describe(),
        "Not Initialized: Cannot get Range Data"
    );
    assert_eq!(TabularPortError::Unknown("broken".to_string()).describe(), "Unknown: broken");
    assert_ne!(
        TabularPortError::Unknown("x".to_string()),
        TabularPortError::NotInitialized("x".to_string())
    );
}
