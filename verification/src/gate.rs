//! The per-request validation state machine: one gated request moves
//! linearly through request validation, forwarding, and response
//! validation, short-circuiting into a rejection as soon as either pass
//! fails.
//!
//! The machine decides; it performs nothing. The surrounding server runs
//! the engine calls and the downstream handler, and feeds each outcome back
//! as an event. That keeps every decision — which pass runs when, which
//! status a rejection carries, and that the candidate response is returned
//! unchanged — verified, while the transport stays outside.

use vstd::prelude::*;
use vstd::string::{StrSliceExecFns, StringExecFns};
use vstd::utf8::encode_utf8;
use crate::errors::ValidationError;
use crate::headers::Header;

verus! {

/// A fully buffered response: status code, headers, and the complete body,
/// materialized so that the response pass can check exactly the bytes that
/// will be re-emitted.
#[derive(Debug, Clone, PartialEq, Eq)]
pub struct ResponseData {
    pub status: u16,
    pub headers: Vec<Header>,
    pub body: Vec<u8>,
}

/// The states of one gated request, in the order they are passed through.
/// `Rejected` and `Completed` are terminal.
#[derive(Debug, Clone, PartialEq, Eq)]
pub enum GateState {
    /// Awaiting the verdict of the request pass.
    RequestValidating,
    /// Request pass succeeded; awaiting the downstream handler's response.
    Forwarding,
    /// Holding the candidate response; awaiting the verdict of the response
    /// pass.
    ResponseValidating(ResponseData),
    /// A pass failed; awaiting the serialized diagnostic, to be returned
    /// with the held status code.
    Rejecting(u16),
    /// Terminal: a validation failure, carrying the diagnostic response.
    Rejected(ResponseData),
    /// Terminal: both passes succeeded, carrying the candidate response
    /// unchanged.
    Completed(ResponseData),
}

/// What the surrounding server reports back into the machine.
#[derive(Debug, PartialEq, Eq)]
pub enum GateEvent {
    /// The engine's verdict on the request pass.
    RequestChecked(Result<(), ValidationError>),
    /// The downstream handler produced this candidate response.
    DownstreamResponded(ResponseData),
    /// The engine's verdict on the response pass.
    ResponseChecked(Result<(), ValidationError>),
    /// The engine rendered the rejected pass's diagnostic in the requested
    /// notation.
    ErrorSerialized(String),
}

/// What the surrounding server must do next.
#[derive(Debug, Clone, PartialEq, Eq)]
pub enum GateAction {
    /// Run the downstream handler.
    InvokeDownstream,
    /// Run the response pass on the candidate response.
    ValidateResponse,
    /// Have the engine serialize this diagnostic.
    SerializeError(ValidationError),
    /// The machine is terminal: emit the response it holds.
    Respond,
}

/// The event that each non-terminal state awaits.
pub open spec fn event_fits(state: GateState, event: GateEvent) -> bool {
    match (state, event) {
        (GateState::RequestValidating, GateEvent::RequestChecked(_)) => true,
        (GateState::Forwarding, GateEvent::DownstreamResponded(_)) => true,
        (GateState::ResponseValidating(_), GateEvent::ResponseChecked(_)) => true,
        (GateState::Rejecting(_), GateEvent::ErrorSerialized(_)) => true,
        _ => false,
    }
}

/// The state every gated request starts in.
pub fn initial_state() -> (r: GateState)
    ensures
        r is RequestValidating,
{
    GateState::RequestValidating
}

/// One transition of the machine. Request validation strictly precedes
/// forwarding, which strictly precedes response validation; a failed
/// request pass rejects with status 400 and a failed response pass with
/// status 500, in both cases with the serialized diagnostic as the body; a
/// candidate response that passes is completed unchanged. The downstream
/// handler is invoked exactly on a successful request pass — never after a
/// failure.
pub fn gate_step(state: GateState, event: GateEvent) -> (r: (GateState, GateAction))
    requires
        event_fits(state, event),
    ensures
        r.1 is InvokeDownstream <==> (state is RequestValidating && event is RequestChecked
            && event->RequestChecked_0 is Ok),
        (state is RequestValidating && event is RequestChecked) ==> (if event->RequestChecked_0
            is Ok {
            r.0 is Forwarding
        } else {
            r.0 == GateState::Rejecting(400u16) && r.1 == GateAction::SerializeError(
                event->RequestChecked_0->Err_0,
            )
        }),
        (state is Forwarding && event is DownstreamResponded) ==> r.0
            == GateState::ResponseValidating(event->DownstreamResponded_0) && r.1
            is ValidateResponse,
        (state is ResponseValidating && event is ResponseChecked) ==> (if event->ResponseChecked_0
            is Ok {
            r.0 == GateState::Completed(state->ResponseValidating_0) && r.1 is Respond
        } else {
            r.0 == GateState::Rejecting(500u16) && r.1 == GateAction::SerializeError(
                event->ResponseChecked_0->Err_0,
            )
        }),
        (state is Rejecting && event is ErrorSerialized) ==> {
            &&& r.0 is Rejected
            &&& r.1 is Respond
            &&& r.0->Rejected_0.status == state->Rejecting_0
            &&& r.0->Rejected_0.headers@.len() == 0
            &&& r.0->Rejected_0.body@ == encode_utf8(event->ErrorSerialized_0@)
        },
{
    match (state, event) {
        (GateState::RequestValidating, GateEvent::RequestChecked(verdict)) => match verdict {
            Ok(()) => (GateState::Forwarding, GateAction::InvokeDownstream),
            Err(e) => (GateState::Rejecting(400), GateAction::SerializeError(e)),
        },
        (GateState::Forwarding, GateEvent::DownstreamResponded(resp)) => (
            GateState::ResponseValidating(resp),
            GateAction::ValidateResponse,
        ),
        (GateState::ResponseValidating(resp), GateEvent::ResponseChecked(verdict)) => match verdict {
            Ok(()) => (GateState::Completed(resp), GateAction::Respond),
            Err(e) => (GateState::Rejecting(500), GateAction::SerializeError(e)),
        },
        (GateState::Rejecting(status), GateEvent::ErrorSerialized(body)) => {
            let out = ResponseData {
                status,
                headers: Vec::new(),
                body: body.as_str().as_bytes_vec(),
            };
            (GateState::Rejected(out), GateAction::Respond)
        },
        _ => {
            proof {
                assert(false);
            }
            (GateState::RequestValidating, GateAction::Respond)
        },
    }
}

/// The method tokens the contract engine models.
pub open spec fn known_method(m: Seq<char>) -> bool {
    m == "GET"@ || m == "POST"@ || m == "PUT"@ || m == "PATCH"@ || m == "DELETE"@
}

/// The token handed to the engine for a method `m`: a modeled method passes
/// through unchanged, anything else degrades to the explicit sentinel.
pub open spec fn normalized_method(m: Seq<char>) -> Seq<char> {
    if known_method(m) {
        m
    } else {
        "UNKNOWN"@
    }
}

/// Map an HTTP method to the exact literal token the contract engine
/// expects, degrading methods outside the modeled set to the sentinel
/// rather than failing.
pub fn normalize_method(m: &str) -> (r: String)
    ensures
        r@ == normalized_method(m@),
{
    let owned = m.to_owned();
    if owned == String::from_str("GET") || owned == String::from_str("POST") || owned
        == String::from_str("PUT") || owned == String::from_str("PATCH") || owned
        == String::from_str("DELETE") {
        owned
    } else {
        String::from_str("UNKNOWN")
    }
}

} // verus!
