//! What holds of the engine as a whole, stated over the documents and
//! outcomes that the contracts of its functions speak of.

use crate::engine::next_id;
use crate::envelope::{
    checked_result, has_id, has_version_2, members_in, rejected, remote_error,
    request_envelope, request_text, response_outcome,
};
use crate::error::{ErrorCode, ResponseFault};
use crate::json::{no_members, parsed, Json};
use crate::rpc_error::rpc_error_in;
use vstd::prelude::*;

verus! {

/// The name of the method that a request document calls.
pub open spec fn method_in(request: Json) -> Option<Seq<char>> {
    match request {
        Json::Object(members) => match members.get("method"@) {
            Some(Json::Text(method)) => Some(method),
            _ => None,
        },
        _ => None,
    }
}

/// The parameters that a request document carries, in their order.
pub open spec fn params_in(request: Json) -> Option<Seq<Json>> {
    match request {
        Json::Object(members) => match members.get("params"@) {
            Some(Json::Array(params)) => Some(params),
            _ => None,
        },
        _ => None,
    }
}

/// The id that a request document carries.
pub open spec fn id_in(request: Json) -> Option<int> {
    match request {
        Json::Object(members) => match members.get("id"@) {
            Some(Json::Integer(id)) => Some(id),
            _ => None,
        },
        _ => None,
    }
}

/// Where the counter of a client stands after `n` calls, if it stood at
/// `start` before the first.
pub open spec fn counter_after(start: int, n: nat) -> int
    decreases n,
{
    if n == 0 {
        start
    } else {
        next_id(counter_after(start, (n - 1) as nat))
    }
}

/// The ids under which the first `n` calls of a client go out, in call
/// order, if its counter stood at `start` before the first: a call goes out
/// under the id at which it leaves the counter.
pub open spec fn ids_of_calls(start: int, n: nat) -> Seq<int> {
    Seq::new(n, |i: int| counter_after(start, (i + 1) as nat))
}

/// The four keys of a request are four different strings.
proof fn lemma_request_keys_differ()
    ensures
        "jsonrpc"@ != "id"@,
        "jsonrpc"@ != "method"@,
        "jsonrpc"@ != "params"@,
        "id"@ != "method"@,
        "id"@ != "params"@,
        "method"@ != "params"@,
{
    reveal_strlit("jsonrpc");
    reveal_strlit("id");
    reveal_strlit("method");
    reveal_strlit("params");
    assert("jsonrpc"@.len() == 7);
    assert("id"@.len() == 2);
    assert("method"@.len() == 6);
    assert("params"@.len() == 6);
    assert("method"@[0] != "params"@[0]);
}

/// A request envelope holds what it was built from: the version 2.0, the
/// id, the name of the method, and the parameters as an array in the order
/// in which they were given, and no member besides these four.
pub proof fn lemma_envelope_holds_its_parts(id: u64, method: Seq<char>, params: Seq<Json>)
    ensures
        request_envelope(id, method, params) matches Json::Object(members) && has_version_2(
            members,
        ) && has_id(members, id) && members.dom() =~= set![
            "jsonrpc"@,
            "id"@,
            "method"@,
            "params"@,
        ],
        id_in(request_envelope(id, method, params)) == Some(id as int),
        method_in(request_envelope(id, method, params)) == Some(method),
        params_in(request_envelope(id, method, params)) == Some(params),
{
    lemma_request_keys_differ();
}

/// Writing a request and reading the text back gives the method and the
/// parameters that went in, the parameters in their order, wherever the
/// text that `serde_json` writes for the envelope reads back as the
/// envelope.
pub proof fn lemma_request_round_trip(id: u64, method: Seq<char>, params: Seq<Json>)
    requires
        request_text(id, method, params) matches Some(text) && parsed(text) == Some(
            request_envelope(id, method, params),
        ),
    ensures
        request_text(id, method, params) matches Some(text) && parsed(text) matches Some(request)
            && id_in(request) == Some(id as int) && method_in(request) == Some(method)
            && params_in(request) == Some(params),
{
    lemma_envelope_holds_its_parts(id, method, params);
}

/// A response that carries a request envelope back as its result, under
/// the id of the request, is accepted, and the result is that envelope.
pub proof fn lemma_echoed_request_is_the_result(id: u64, method: Seq<char>, params: Seq<Json>)
    ensures
        checked_result(
            no_members().insert("jsonrpc"@, Json::Text("2.0"@)).insert(
                "id"@,
                Json::Integer(id as int),
            ).insert("result"@, request_envelope(id, method, params)),
            id,
        ) matches Ok(result) && result == request_envelope(id, method, params),
{
    reveal_strlit("jsonrpc");
    reveal_strlit("id");
    reveal_strlit("error");
    reveal_strlit("result");
    assert("jsonrpc"@.len() == 7);
    assert("id"@.len() == 2);
    assert("error"@.len() == 5);
    assert("result"@.len() == 6);
}

/// The n-th call of a client that was just made goes out under the id n:
/// the ids of its first `n` calls are 1, 2, ..., n, in call order, and so no
/// id is used twice. A call takes its id before anything can fail, so this
/// holds whatever comes of the calls.
pub proof fn lemma_ids_count_up(n: nat)
    ensures
        ids_of_calls(0, n) =~= Seq::new(n, |i: int| i + 1),
        ids_of_calls(0, n).no_duplicates(),
{
    assert forall|i: int| 0 <= i < n implies #[trigger] ids_of_calls(0, n)[i] == i + 1 by {
        lemma_counter_counts_calls(0, (i + 1) as nat);
    }
}

/// Each call raises the counter by one.
pub proof fn lemma_counter_counts_calls(start: int, n: nat)
    ensures
        counter_after(start, n) == start + n,
    decreases n,
{
    if n > 0 {
        lemma_counter_counts_calls(start, (n - 1) as nat);
    }
}

/// The version is checked before anything else: a response whose `jsonrpc`
/// member is missing, or is not the string `2.0`, fails as one of the wrong
/// version, whatever its `id`, `error` and `result` members are.
pub proof fn lemma_version_is_checked_first(members: Map<Seq<char>, Json>, expected_id: u64)
    requires
        !has_version_2(members),
    ensures
        checked_result(members, expected_id) == rejected(ResponseFault::WrongVersion),
{
}

/// The id is checked second: a response of the right version whose `id`
/// member is missing, or is not the id of the request, fails with an id
/// mismatch, whatever its `error` and `result` members are.
pub proof fn lemma_id_is_checked_second(members: Map<Seq<char>, Json>, expected_id: u64)
    requires
        has_version_2(members),
        !has_id(members, expected_id),
    ensures
        checked_result(members, expected_id) == rejected(ResponseFault::IdMismatch),
{
}

/// The same order holds of a response text: where it is an object without
/// the right version, that is the fault, whatever else the object holds.
pub proof fn lemma_text_without_version_fails(text: Seq<u8>, expected_id: u64)
    requires
        parsed(text) matches Some(document) && members_in(document) matches Ok(members)
            && !has_version_2(members),
    ensures
        response_outcome(text, expected_id) == rejected(ResponseFault::WrongVersion),
{
}

/// An error takes precedence over a result: a response of the right version
/// and id that holds a well-formed `error` ends in that remote error, also
/// where a `result` stands beside it.
pub proof fn lemma_error_takes_precedence(members: Map<Seq<char>, Json>, expected_id: u64)
    requires
        has_version_2(members),
        has_id(members, expected_id),
        members.dom().contains("error"@),
        rpc_error_in(members["error"@]) is Ok,
    ensures
        checked_result(members, expected_id) == remote_error(
            rpc_error_in(members["error"@])->Ok_0,
        ),
{
}

/// No response with an `error` member is a success, well-formed or not.
pub proof fn lemma_no_success_beside_an_error(members: Map<Seq<char>, Json>, expected_id: u64)
    requires
        members.dom().contains("error"@),
    ensures
        checked_result(members, expected_id) is Err,
{
}

/// What a response amounts to is a result, a fault of the response or an
/// error of the remote end: neither the transport nor the writing of the
/// request is ever blamed for a response.
pub proof fn lemma_response_blames_nothing_else(text: Seq<u8>, expected_id: u64)
    ensures
        response_outcome(text, expected_id) matches Err(kind) ==> kind is ResponseError
            || kind is JsonRpcError,
{
}

/// A code goes over the wire as the number that it was read from.
pub proof fn lemma_code_keeps_its_number(number: i64)
    ensures
        ErrorCode::of(number).number() == number,
{
}

} // verus!
