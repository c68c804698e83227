//! A transport-agnostic JSON-RPC 2.0 client engine: it builds request
//! envelopes, hands their bytes to a transport, and validates what comes back.
//!
//! A call is made with [`call_method`], or with [`call`] where the id comes
//! from a client's counter. A client for a service is a struct that owns a
//! [`Transport`] and a counter and has one method for each remote method;
//! [`ExampleRpcClient`] is one.
//!
//! JSON is read and written by `serde_json`. What the engine takes on trust
//! about it stands in [`json`]; what holds of the engine as a whole stands
//! in [`laws`].

pub mod client;
pub mod engine;
pub mod envelope;
pub mod error;
pub mod json;
pub mod laws;
pub mod rpc_error;

pub use client::ExampleRpcClient;
pub use engine::{call, call_method, complete_call, Transport};
pub use envelope::{
    check_response_and_get_result, format_request, get_response_as_map, parse_response,
    response_object, result_as_text, result_as_unit, serialize_request,
};
pub use error::{CallError, ErrorCode, ErrorKind, ResponseFault, RpcError};
pub use rpc_error::json_value_to_rpc_error;
