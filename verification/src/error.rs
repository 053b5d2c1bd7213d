//! The errors that the node's JSON-RPC server reports under codes of its own.

use vstd::prelude::*;
use vstd::string::StringExecFns;
use serde_json::Value;

verus! {

#[verifier::external_type_specification]
#[verifier::external_body]
pub struct ExValue(serde_json::Value);

/// Custom RPC errors of the node.
#[derive(Clone, Copy, Debug, PartialEq, Eq, Structural)]
pub enum RpcError {
    // Transaction-related errors
    _TxSimulationFail,
    _TxBroadcastFail,
    // State-related errors
    _NotSynced,
    UnknownSlot,
    // Parsing errors
    _ParseError,
    // Contract-related errors
    ContractZkasDbNotFound,
}

impl RpcError {
    /// The code under which the error is reported.
    pub open spec fn code(self) -> int {
        match self {
            RpcError::_TxSimulationFail => -32110,
            RpcError::_TxBroadcastFail => -32111,
            RpcError::_NotSynced => -32120,
            RpcError::UnknownSlot => -32121,
            RpcError::_ParseError => -32190,
            RpcError::ContractZkasDbNotFound => -32200,
        }
    }

    /// The message that goes with the error where the caller gives none.
    pub open spec fn message(self) -> Seq<char> {
        match self {
            RpcError::_TxSimulationFail => "Failed simulating transaction state change"@,
            RpcError::_TxBroadcastFail => "Failed broadcasting transaction"@,
            RpcError::_NotSynced => "Blockchain is not synced"@,
            RpcError::UnknownSlot => "Did not find slot"@,
            RpcError::_ParseError => "Parse error"@,
            RpcError::ContractZkasDbNotFound => "zkas database not found for given contract"@,
        }
    }
}

/// The code of an error and its default message.
pub fn to_tuple(e: RpcError) -> (r: (i64, String))
    ensures
        r.0 == e.code(),
        r.1@ == e.message(),
{
    let msg = match e {
        RpcError::_TxSimulationFail => "Failed simulating transaction state change",
        RpcError::_TxBroadcastFail => "Failed broadcasting transaction",
        RpcError::_NotSynced => "Blockchain is not synced",
        RpcError::UnknownSlot => "Did not find slot",
        RpcError::_ParseError => "Parse error",
        RpcError::ContractZkasDbNotFound => "zkas database not found for given contract",
    };
    let code: i64 = match e {
        RpcError::_TxSimulationFail => -32110,
        RpcError::_TxBroadcastFail => -32111,
        RpcError::_NotSynced => -32120,
        RpcError::UnknownSlot => -32121,
        RpcError::_ParseError => -32190,
        RpcError::ContractZkasDbNotFound => -32200,
    };
    (code, String::from_str(msg))
}

/// A JSON-RPC error reply: the error's code and message, and the id of the
/// request that it answers.
#[derive(Debug)]
pub struct JsonError {
    pub code: i64,
    pub message: String,
    pub id: Value,
}

/// The reply for a server error: the error's code, the caller's message
/// where there is one and the error's own message where there is none, and
/// the request's id as it came.
pub fn server_error(e: RpcError, id: Value, msg: Option<&str>) -> (r: JsonError)
    ensures
        r.code == e.code(),
        r.message@ == match msg {
            Some(message) => message@,
            None => e.message(),
        },
        r.id == id,
{
    let (code, default_msg) = to_tuple(e);
    if let Some(message) = msg {
        return JsonError { code, message: String::from_str(message), id };
    }
    JsonError { code, message: default_msg, id }
}

} // verus!
