use serde_json::Value;
use witness_gate::error::{server_error, to_tuple, RpcError};
use witness_gate::wallet::{parse_last_scanned_block, ColumnValue, WalletDbError};

#[test]
fn each_rpc_error_has_its_code_and_message() {
    assert_eq!(
        to_tuple(RpcError::_TxSimulationFail),
        (-32110, "Failed simulating transaction state change".to_string())
    );
    assert_eq!(
        to_tuple(RpcError::_TxBroadcastFail),
        (-32111, "Failed broadcasting transaction".to_string())
    );
    assert_eq!(to_tuple(RpcError::_NotSynced), (-32120, "Blockchain is not synced".to_string()));
    assert_eq!(to_tuple(RpcError::UnknownSlot), (-32121, "Did not find slot".to_string()));
    assert_eq!(to_tuple(RpcError::_ParseError), (-32190, "Parse error".to_string()));
    assert_eq!(
        to_tuple(RpcError::ContractZkasDbNotFound),
        (-32200, "zkas database not found for given contract".to_string())
    );
}

#[test]
fn server_error_prefers_the_callers_message() {
    let with = server_error(RpcError::UnknownSlot, Value::from(7u64), Some("slot 12 is unknown"));
    assert_eq!(with.code, -32121);
    assert_eq!(with.message, "slot 12 is unknown");
    assert_eq!(with.id, Value::from(7u64));
    let without = server_error(RpcError::UnknownSlot, Value::from("abc"), None);
    assert_eq!(without.code, -32121);
    assert_eq!(without.message, "Did not find slot");
    assert_eq!(without.id, Value::from("abc"));
}

#[test]
fn scanned_block_row_is_parsed() {
    let row = vec![ColumnValue::Integer(42), ColumnValue::Text("beef".to_string())];
    assert_eq!(parse_last_scanned_block(&row), Ok((42, "beef".to_string())));
    let first = vec![ColumnValue::Integer(0), ColumnValue::Text("-".to_string())];
    assert_eq!(parse_last_scanned_block(&first), Ok((0, "-".to_string())));
    let top = vec![ColumnValue::Integer(4294967295), ColumnValue::Text("f".to_string())];
    assert_eq!(parse_last_scanned_block(&top), Ok((u32::MAX, "f".to_string())));
}

#[test]
fn scanned_block_row_of_another_shape_is_refused() {
    let err = Err(WalletDbError::ParseColumnValueError);
    let negative = vec![ColumnValue::Integer(-1), ColumnValue::Text("a".to_string())];
    assert_eq!(parse_last_scanned_block(&negative), err);
    let large = vec![ColumnValue::Integer(4294967296), ColumnValue::Text("a".to_string())];
    assert_eq!(parse_last_scanned_block(&large), err);
    let text_height = vec![ColumnValue::Text("1".to_string()), ColumnValue::Text("a".to_string())];
    assert_eq!(parse_last_scanned_block(&text_height), err);
    let blob_hash = vec![ColumnValue::Integer(1), ColumnValue::Blob(vec![1, 2])];
    assert_eq!(parse_last_scanned_block(&blob_hash), err);
    let real_height = vec![ColumnValue::Real, ColumnValue::Text("a".to_string())];
    assert_eq!(parse_last_scanned_block(&real_height), err);
    let null_hash = vec![ColumnValue::Integer(1), ColumnValue::Null];
    assert_eq!(parse_last_scanned_block(&null_hash), err);
}
