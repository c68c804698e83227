//! A client for a small example service. It has one method for each remote
//! method, and each of them does no more than pack its arguments in the
//! order in which they are declared and hand them to [`call`] under the
//! method's own name.

use crate::engine::{call, call_outcome_of, may_come_of_call, next_id, Transport};
use crate::envelope::{request_text, result_as_text, result_as_unit, text_in, unit_in};
use crate::error::{CallError, ErrorKind, ErrorKindView};
use crate::json::{documents, from_text, from_unsigned, Json};
use serde_json::Value;
use std::marker::PhantomData;
use vstd::prelude::*;

verus! {

/// The outcome of a call of a method that returns a string.
pub open spec fn text_outcome(outcome: Result<Json, ErrorKindView>) -> Result<
    Seq<char>,
    ErrorKindView,
> {
    match outcome {
        Ok(result) => match text_in(result) {
            Ok(text) => Ok(text),
            Err(fault) => Err(ErrorKindView::ResponseError(fault)),
        },
        Err(kind) => Err(kind),
    }
}

/// The outcome of a call of a method that returns nothing.
pub open spec fn unit_outcome(outcome: Result<Json, ErrorKindView>) -> Result<(), ErrorKindView> {
    match outcome {
        Ok(result) => match unit_in(result) {
            Ok(unit) => Ok(unit),
            Err(fault) => Err(ErrorKindView::ResponseError(fault)),
        },
        Err(kind) => Err(kind),
    }
}

/// What the result of a method that returns a string says, as a
/// mathematical value.
pub open spec fn text_result_of<E>(r: Result<String, CallError<E>>) -> Result<
    Seq<char>,
    ErrorKindView,
> {
    match r {
        Ok(text) => Ok(text@),
        Err(error) => Err(error.kind@),
    }
}

/// What the result of a method that returns nothing says, as a mathematical
/// value.
pub open spec fn unit_result_of<E>(r: Result<(), CallError<E>>) -> Result<(), ErrorKindView> {
    match r {
        Ok(unit) => Ok(unit),
        Err(error) => Err(error.kind@),
    }
}

/// The outcomes that a call of a method that returns a string can have.
pub open spec fn may_come_of_text_call(
    outcome: Result<Seq<char>, ErrorKindView>,
    id: u64,
    method: Seq<char>,
    params: Seq<Json>,
) -> bool {
    exists|raw: Result<Json, ErrorKindView>|
        may_come_of_call(raw, id, method, params) && outcome == #[trigger] text_outcome(raw)
}

/// The outcomes that a call of a method that returns nothing can have.
pub open spec fn may_come_of_unit_call(
    outcome: Result<(), ErrorKindView>,
    id: u64,
    method: Seq<char>,
    params: Seq<Json>,
) -> bool {
    exists|raw: Result<Json, ErrorKindView>|
        may_come_of_call(raw, id, method, params) && outcome == #[trigger] unit_outcome(raw)
}

/// Ends a call of a method that returns a string.
fn expect_text<E>(raw: Result<Value, CallError<E>>) -> (r: Result<String, CallError<E>>)
    requires
        raw matches Err(error) ==> error.wf(),
    ensures
        r matches Err(error) ==> error.wf(),
        text_result_of(r) == text_outcome(call_outcome_of(raw)),
{
    match raw {
        Ok(result) => match result_as_text(result) {
            Ok(text) => Ok(text),
            Err(fault) => Err(CallError::without_cause(ErrorKind::ResponseError(fault))),
        },
        Err(error) => Err(error),
    }
}

/// Ends a call of a method that returns nothing.
fn expect_unit<E>(raw: Result<Value, CallError<E>>) -> (r: Result<(), CallError<E>>)
    requires
        raw matches Err(error) ==> error.wf(),
    ensures
        r matches Err(error) ==> error.wf(),
        unit_result_of(r) == unit_outcome(call_outcome_of(raw)),
{
    match raw {
        Ok(result) => match result_as_unit(result) {
            Ok(unit) => Ok(unit),
            Err(fault) => Err(CallError::without_cause(ErrorKind::ResponseError(fault))),
        },
        Err(error) => Err(error),
    }
}

/// A client for an example service with the three methods `nullary`, `echo`
/// and `concat`.
///
/// It owns its transport and a counter of the calls made; the n-th call
/// goes out under the id n.
pub struct ExampleRpcClient<E: Send + 'static, T: Transport<E>> {
    transport: T,
    id: u64,
    _error: PhantomData<E>,
}

impl<E: Send + 'static, T: Transport<E>> ExampleRpcClient<E, T> {
    /// The id of the last call made, 0 before the first.
    pub closed spec fn spec_last_id(&self) -> u64 {
        self.id
    }

    /// The transport that the client owns.
    pub closed spec fn transport(&self) -> T {
        self.transport
    }

    /// Creates a client backed by the given transport. Its first call goes
    /// out under the id 1.
    pub fn new(transport: T) -> (client: Self)
        ensures
            client.last_id() == 0,
            client.transport() == transport,
    {
        ExampleRpcClient { transport, id: 0, _error: PhantomData }
    }

    /// The id of the last call made, 0 before the first.
    #[verifier::when_used_as_spec(spec_last_id)]
    pub fn last_id(&self) -> (id: u64)
        ensures
            id == self.last_id(),
    {
        self.id
    }

    /// Calls `nullary`, which takes no arguments and returns nothing. Its
    /// `params` are the empty array.
    pub fn nullary(&mut self) -> (r: Result<(), CallError<E>>)
        requires
            old(self).last_id() < u64::MAX,
        ensures
            final(self).last_id() == next_id(old(self).last_id() as int),
            r matches Err(error) ==> error.wf(),
            may_come_of_unit_call(
                unit_result_of(r),
                final(self).last_id(),
                "nullary"@,
                Seq::empty(),
            ),
            request_text(final(self).last_id(), "nullary"@, Seq::empty()) is None
                ==> final(self).transport() == old(self).transport(),
    {
        let params: Vec<Value> = Vec::new();
        proof {
            assert(documents(params@) =~= Seq::empty());
        }
        let raw = call(&mut self.transport, &mut self.id, "nullary", params);
        expect_unit(raw)
    }

    /// Calls `echo` with one string, and returns a string.
    pub fn echo(&mut self, input: String) -> (r: Result<String, CallError<E>>)
        requires
            old(self).last_id() < u64::MAX,
        ensures
            final(self).last_id() == next_id(old(self).last_id() as int),
            r matches Err(error) ==> error.wf(),
            may_come_of_text_call(
                text_result_of(r),
                final(self).last_id(),
                "echo"@,
                seq![Json::Text(input@)],
            ),
            request_text(final(self).last_id(), "echo"@, seq![Json::Text(input@)]) is None
                ==> final(self).transport() == old(self).transport(),
    {
        let mut params: Vec<Value> = Vec::new();
        params.push(from_text(input));
        proof {
            assert(documents(params@) =~= seq![Json::Text(input@)]);
        }
        let raw = call(&mut self.transport, &mut self.id, "echo", params);
        expect_text(raw)
    }

    /// Calls `concat` with a string and a number, in that order, and returns
    /// a string.
    pub fn concat(&mut self, arg0: String, arg1: u64) -> (r: Result<String, CallError<E>>)
        requires
            old(self).last_id() < u64::MAX,
        ensures
            final(self).last_id() == next_id(old(self).last_id() as int),
            r matches Err(error) ==> error.wf(),
            may_come_of_text_call(
                text_result_of(r),
                final(self).last_id(),
                "concat"@,
                seq![Json::Text(arg0@), Json::Integer(arg1 as int)],
            ),
            request_text(
                final(self).last_id(),
                "concat"@,
                seq![Json::Text(arg0@), Json::Integer(arg1 as int)],
            ) is None ==> final(self).transport() == old(self).transport(),
    {
        let mut params: Vec<Value> = Vec::new();
        params.push(from_text(arg0));
        params.push(from_unsigned(arg1));
        proof {
            assert(documents(params@) =~= seq![Json::Text(arg0@), Json::Integer(arg1 as int)]);
        }
        let raw = call(&mut self.transport, &mut self.id, "concat", params);
        expect_text(raw)
    }
}

} // verus!
