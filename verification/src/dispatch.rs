//! The dispatch step: one inbound bus notification, parsed into an envelope
//! by the surrounding runtime, is routed to the correlation store or to the
//! event router. The runtime drains its notification queue strictly in
//! arrival order and runs this step to completion per message, so store
//! mutations and authorization checks never interleave.

use vstd::prelude::*;

use crate::error::{ErrorKind, GatewayError};
use crate::event::{route, OutgoingMessage, State};
use crate::identity::AccountId;
use crate::store::{resolve_found, resolve_result, InFlightRequests};
use crate::value::Value;

verus! {

/// An inbound bus notification, discriminated by what it carries: a response
/// to an earlier request, an event published by an upstream account (with
/// the sender identity from its delivery metadata), or something the gateway
/// does not support.
#[derive(Debug)]
pub enum ParsedEnvelope {
    Response { correlation_id: u128, payload: Value },
    Event { payload: Value, source: AccountId },
    Other,
}

/// What the dispatch step decided for one notification: a response was
/// matched against the correlation store (and whether a waiting request was
/// found), an event became a webhook delivery task, or the message is
/// dropped with the failure to log. A dropped message never stops the loop.
#[derive(Debug)]
pub enum DispatchOutcome {
    Resolved(bool),
    Forward(OutgoingMessage),
    Dropped(GatewayError),
}

/// Routes one parsed notification. A response resolves its correlation id in
/// the store; an event is authorized and converted by the router, leaving
/// the store untouched; an envelope that could not be parsed (`None`) or is
/// of an unsupported kind is dropped with a parse failure.
pub fn handle_message(
    router: &State,
    store: &mut InFlightRequests,
    topic: &str,
    envelope: Option<ParsedEnvelope>,
) -> (r: DispatchOutcome)
    ensures
        match envelope {
            Option::Some(ParsedEnvelope::Response { correlation_id, payload }) => {
                &&& final(store)@ == resolve_result(old(store)@, correlation_id, payload)
                &&& r == DispatchOutcome::Resolved(resolve_found(old(store)@, correlation_id))
            },
            Option::Some(ParsedEnvelope::Event { payload, source }) => {
                &&& final(store)@ == old(store)@
                &&& match r {
                    DispatchOutcome::Forward(m) => route(router.config(), topic@, &source, payload)
                        == Ok::<(Value, Seq<char>), ErrorKind>((m.payload, m.destination@)),
                    DispatchOutcome::Dropped(e) => route(router.config(), topic@, &source, payload)
                        == Err::<(Value, Seq<char>), ErrorKind>(e.kind),
                    DispatchOutcome::Resolved(_) => false,
                }
            },
            Option::Some(ParsedEnvelope::Other) => {
                &&& final(store)@ == old(store)@
                &&& (r matches DispatchOutcome::Dropped(e) && e.kind == ErrorKind::Parse
                    && e.detail@ == "unsupported message type"@)
            },
            Option::None => {
                &&& final(store)@ == old(store)@
                &&& (r matches DispatchOutcome::Dropped(e) && e.kind == ErrorKind::Parse
                    && e.detail@ == "failed to parse incoming envelope"@)
            },
        },
{
    match envelope {
        Option::Some(ParsedEnvelope::Response { correlation_id, payload }) => {
            let found = store.finish_request(correlation_id, payload);
            DispatchOutcome::Resolved(found)
        },
        Option::Some(ParsedEnvelope::Event { payload, source }) => {
            match router.handle(topic, payload, &source) {
                Ok(m) => DispatchOutcome::Forward(m),
                Err(e) => DispatchOutcome::Dropped(e),
            }
        },
        Option::Some(ParsedEnvelope::Other) => {
            DispatchOutcome::Dropped(
                GatewayError::new(
                    ErrorKind::Parse,
                    String::from_str("unsupported message type"),
                ),
            )
        },
        Option::None => {
            DispatchOutcome::Dropped(
                GatewayError::new(
                    ErrorKind::Parse,
                    String::from_str("failed to parse incoming envelope"),
                ),
            )
        },
    }
}

} // verus!
