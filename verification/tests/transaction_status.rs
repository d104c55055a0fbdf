use router_api::TransactionStatus;

#[test]
fn test_transaction_status_enum() {
    assert_eq!(
        serde_json::to_string(TransactionStatus::Pending.wire_name()).unwrap(),
        "\"PENDING\""
    );
    assert_eq!(
        serde_json::to_string(TransactionStatus::Submitted.wire_name()).unwrap(),
        "\"SUBMITTED\""
    );
    assert_eq!(
        serde_json::to_string(TransactionStatus::Confirmed.wire_name()).unwrap(),
        "\"CONFIRMED\""
    );
    assert_eq!(
        serde_json::to_string(TransactionStatus::Failed.wire_name()).unwrap(),
        "\"FAILED\""
    );
}

#[test]
fn status_names_read_back() {
    let all = [
        TransactionStatus::Pending,
        TransactionStatus::Submitted,
        TransactionStatus::Confirmed,
        TransactionStatus::Failed,
    ];
    for status in all {
        assert_eq!(TransactionStatus::from_wire_name(status.wire_name()), Some(status));
    }
}

#[test]
fn status_names_are_exact() {
    assert_eq!(
        TransactionStatus::from_wire_name("CONFIRMED"),
        Some(TransactionStatus::Confirmed)
    );
    assert_eq!(TransactionStatus::from_wire_name("pending"), None);
    assert_eq!(TransactionStatus::from_wire_name("Pending"), None);
    assert_eq!(TransactionStatus::from_wire_name(""), None);
    assert_eq!(TransactionStatus::from_wire_name("FAILED "), None);
}
