//! One call: a request goes out through a transport, and what comes back is
//! checked.

use crate::envelope::{parse_response, request_text, response_outcome, serialize_request};
use crate::error::{CallError, ErrorKind, ErrorKindView};
use crate::json::{documents, json_of, Json};
use serde_json::Value;
use vstd::prelude::*;

verus! {

/// What carries the bytes of a request to the remote end and brings the
/// bytes of its response back.
///
/// `send` blocks until the response is there or the transport has failed.
/// The engine asks nothing else of a transport and promises nothing about
/// what it answers.
pub trait Transport<E: Send + 'static> {
    fn send(&mut self, json_data: &[u8]) -> Result<Vec<u8>, E>;
}

/// The id under which the next call goes out, where the counter of the
/// client stands at `counter`. The counter then stands at that id.
pub open spec fn next_id(counter: int) -> int {
    counter + 1
}

/// What the result of a call says, as a mathematical value.
pub open spec fn call_outcome_of<E>(r: Result<Value, CallError<E>>) -> Result<Json, ErrorKindView> {
    match r {
        Ok(value) => Ok(json_of(value)),
        Err(error) => Err(error.kind@),
    }
}

/// The outcomes that a call of `method` with `params` under `id` can have,
/// whatever the transport does. Where the request cannot be written, the
/// call fails before the transport is asked. Else the transport fails, or it
/// answers with some text and the outcome is what that text amounts to.
pub open spec fn may_come_of_call(
    outcome: Result<Json, ErrorKindView>,
    id: u64,
    method: Seq<char>,
    params: Seq<Json>,
) -> bool {
    if request_text(id, method, params) is None {
        outcome matches Err(kind) && kind is SerializeError
    } else {
        ||| outcome matches Err(kind) && kind is TransportError
        ||| exists|response: Seq<u8>| outcome == #[trigger] response_outcome(response, id)
    }
}

/// Ends a call with what the transport gave: its failure, kept as the cause,
/// or the outcome of the response that it brought.
pub fn complete_call<E>(reply: Result<Vec<u8>, E>, id: u64) -> (r: Result<Value, CallError<E>>)
    ensures
        r matches Err(error) ==> error.wf(),
        match reply {
            Ok(response) => call_outcome_of(r) == response_outcome(response@, id),
            Err(cause) => r matches Err(error) && error.kind == ErrorKind::TransportError
                && error.cause == Some(cause),
        },
{
    match reply {
        Ok(response) => match parse_response(response.as_slice(), id) {
            Ok(result) => Ok(result),
            Err(kind) => Err(CallError::without_cause(kind)),
        },
        Err(cause) => Err(CallError::transport(cause)),
    }
}

/// Calls `method` with `params` under `id` through `transport`.
///
/// The request is written, handed to the transport once, and the response
/// is checked against `id`. Nothing is tried twice: the first failure is the
/// outcome. A request that cannot be written does not reach the transport.
pub fn call_method<E: Send + 'static, T: Transport<E>>(
    transport: &mut T,
    id: u64,
    method: &str,
    params: Vec<Value>,
) -> (r: Result<Value, CallError<E>>)
    ensures
        r matches Err(error) ==> error.wf(),
        may_come_of_call(call_outcome_of(r), id, method@, documents(params@)),
        request_text(id, method@, documents(params@)) is None
            ==> *final(transport) == *old(transport),
{
    let request_raw = match serialize_request(id, method, params) {
        Ok(text) => text,
        Err(kind) => {
            return Err(CallError::without_cause(kind));
        },
    };
    let reply = transport.send(request_raw.as_slice());
    complete_call(reply, id)
}

/// Makes the next call of a client: takes the next id from the client's
/// counter and calls `method` with `params` under it.
///
/// The counter goes up by one before the request is built and stays there
/// whatever comes of the call, so that no id is used twice.
pub fn call<E: Send + 'static, T: Transport<E>>(
    transport: &mut T,
    id_counter: &mut u64,
    method: &str,
    params: Vec<Value>,
) -> (r: Result<Value, CallError<E>>)
    requires
        *old(id_counter) < u64::MAX,
    ensures
        *final(id_counter) == next_id(*old(id_counter) as int),
        r matches Err(error) ==> error.wf(),
        may_come_of_call(call_outcome_of(r), *final(id_counter), method@, documents(params@)),
        request_text(*final(id_counter), method@, documents(params@)) is None
            ==> *final(transport) == *old(transport),
{
    *id_counter = *id_counter + 1;
    call_method(transport, *id_counter, method, params)
}

} // verus!
