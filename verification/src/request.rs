//! The HTTP-facing request path: building a bus request out of a validated
//! HTTP body and registering its correlation id with the correlation store.
//!
//! The surrounding runtime serializes "build, publish, register" under the
//! one lock guarding the outbound publish handle, then awaits the
//! registered slot with a bounded timeout. On publish failure or timeout it
//! reclaims the slot through the functions here, so an abandoned request
//! never leaks a store entry and a late response for it is a no-op.

use vstd::prelude::*;

use crate::error::{ErrorKind, GatewayError};
use crate::identity::{account_key, account_text, AccountId, AgentId};
use crate::store::{InFlightRequests, Slot};
use crate::topic::{response_topic, response_topic_text};
use crate::value::Value;

verus! {

/// The text of the failure for a request body whose derived account
/// identity differs from the verified caller, carrying both identities.
pub open spec fn identity_mismatch_detail(caller: Seq<char>, me: Seq<char>) -> Seq<char> {
    "account id = '"@ + caller + "' from the access token doesn't match the one in the payload = '"@
        + me + "'"@
}

/// The body of an HTTP request: the sender's agent identity, the remote
/// account the request goes to, the payload to carry, and the method name.
#[derive(Debug)]
pub struct RequestData {
    pub me: AgentId,
    pub destination: AccountId,
    pub payload: Value,
    pub method: String,
}

/// An outgoing bus request, ready to publish.
#[derive(Debug)]
pub struct BusRequest {
    pub method: String,
    pub destination: AccountId,
    pub payload: Value,
    pub response_topic: String,
    pub correlation_id: u128,
    pub sender: AgentId,
}

/// Relies on `uuid::Uuid::new_v4` for a fresh random 128-bit correlation
/// id; nothing is assumed of the value it returns.
#[verifier::external_body]
fn generate_correlation_id() -> u128 {
    uuid::Uuid::new_v4().as_u128()
}

/// Builds the bus request for a validated body under a given correlation
/// id, and registers the id with the correlation store. The caller identity
/// must match the body's derived account identity, or the request is
/// forbidden; a correlation id that is already registered is an internal
/// invariant violation. In either failure the store is unchanged.
pub fn prepare_request(
    req: RequestData,
    caller: &AccountId,
    correlation_id: u128,
    store: &mut InFlightRequests,
) -> (r: Result<BusRequest, GatewayError>)
    ensures
        ({
            let matched = account_key(&req.me.account) == account_key(caller);
            match r {
                Ok(bus) => {
                    &&& matched
                    &&& !old(store)@.contains_key(correlation_id)
                    &&& final(store)@ == old(store)@.insert(correlation_id, None::<Value>)
                    &&& bus.correlation_id == correlation_id
                    &&& bus.method@ == req.method@
                    &&& bus.payload == req.payload
                    &&& bus.destination == req.destination
                    &&& bus.sender == req.me
                    &&& bus.response_topic@ == response_topic_text(&req.me, &req.destination)
                },
                Err(e) => {
                    &&& final(store)@ == old(store)@
                    &&& (if matched {
                        old(store)@.contains_key(correlation_id) && e.kind == ErrorKind::Internal
                    } else {
                        e.kind == ErrorKind::Validation && e.detail@ == identity_mismatch_detail(
                            account_text(caller),
                            account_text(&req.me.account),
                        )
                    })
                },
            }
        }),
{
    if !req.me.as_account_id().same_account(caller) {
        let mut detail = String::from_str("account id = '");
        detail.append(caller.to_text().as_str());
        detail.append("' from the access token doesn't match the one in the payload = '");
        detail.append(req.me.as_account_id().to_text().as_str());
        detail.append("'");
        return Err(GatewayError::new(ErrorKind::Validation, detail));
    }
    let topic = response_topic(&req.me, &req.destination);
    match store.save_request(correlation_id) {
        Ok(()) => Ok(
            BusRequest {
                method: req.method,
                destination: req.destination,
                payload: req.payload,
                response_topic: topic,
                correlation_id,
                sender: req.me,
            },
        ),
        Err(e) => Err(e),
    }
}

/// The request gateway's shared state: the correlation store. The runtime
/// guards it (together with the publish handle) by its exclusive lock.
pub struct RequestResource {
    pub in_flight_requests: InFlightRequests,
}

impl RequestResource {
    /// Builds the resource around its correlation store.
    pub fn new(in_flight_requests: InFlightRequests) -> (r: RequestResource)
        ensures
            r.in_flight_requests@ == in_flight_requests@,
    {
        RequestResource { in_flight_requests }
    }

    /// Validates one HTTP request body against the verified caller
    /// identity, draws a fresh correlation id, and builds and registers the
    /// bus request. An identity mismatch is forbidden and leaves the store
    /// unchanged; a collision of the drawn id with a registered one is an
    /// internal failure and also leaves the store unchanged — and on an
    /// empty store no drawn id can collide, so a matched caller is then
    /// owed success.
    pub fn request_sync(&mut self, req: RequestData, caller: &AccountId) -> (r: Result<
        BusRequest,
        GatewayError,
    >)
        ensures
            account_key(&req.me.account) == account_key(caller)
                && old(self).in_flight_requests@ == Map::<u128, Slot>::empty() ==> r is Ok,
            ({
                let matched = account_key(&req.me.account) == account_key(caller);
                match r {
                    Ok(bus) => {
                        &&& matched
                        &&& !old(self).in_flight_requests@.contains_key(bus.correlation_id)
                        &&& final(self).in_flight_requests@ == old(
                            self,
                        ).in_flight_requests@.insert(bus.correlation_id, None::<Value>)
                        &&& bus.method@ == req.method@
                        &&& bus.payload == req.payload
                        &&& bus.destination == req.destination
                        &&& bus.sender == req.me
                        &&& bus.response_topic@ == response_topic_text(&req.me, &req.destination)
                    },
                    Err(e) => {
                        &&& final(self).in_flight_requests@ == old(self).in_flight_requests@
                        &&& (matched ==> e.kind == ErrorKind::Internal)
                        &&& (!matched ==> e.kind == ErrorKind::Validation && e.detail@
                            == identity_mismatch_detail(
                            account_text(caller),
                            account_text(&req.me.account),
                        ))
                    },
                }
            }),
    {
        let correlation_id = generate_correlation_id();
        prepare_request(req, caller, correlation_id, &mut self.in_flight_requests)
    }

    /// Reclaims the slot of a request whose wait expired, and reports the
    /// gateway-timeout failure to answer the caller with. A response
    /// arriving after this is a no-op on the store.
    pub fn on_timeout(&mut self, correlation_id: u128) -> (r: GatewayError)
        ensures
            final(self).in_flight_requests@ == old(self).in_flight_requests@.remove(
                correlation_id,
            ),
            r.kind == ErrorKind::Timeout,
            r.detail@ == "timeout on an outgoing HTTP response"@,
    {
        self.in_flight_requests.remove_request(correlation_id);
        GatewayError::new(
            ErrorKind::Timeout,
            String::from_str("timeout on an outgoing HTTP response"),
        )
    }

    /// Reclaims the slot of a request whose publish call failed, and
    /// reports the unprocessable failure to answer the caller with.
    pub fn on_publish_failure(&mut self, correlation_id: u128, detail: String) -> (r:
        GatewayError)
        ensures
            final(self).in_flight_requests@ == old(self).in_flight_requests@.remove(
                correlation_id,
            ),
            r.kind == ErrorKind::Publish,
            r.detail@ == detail@,
    {
        self.in_flight_requests.remove_request(correlation_id);
        GatewayError::new(ErrorKind::Publish, detail)
    }
}

/// A timed-out request cannot be answered late: once its slot is reclaimed,
/// resolving its correlation id finds nothing and changes nothing.
pub proof fn lemma_timeout_then_response_is_noop(
    m: Map<u128, Slot>,
    correlation_id: u128,
    response: Value,
)
    ensures
        !crate::store::resolve_found(m.remove(correlation_id), correlation_id),
        crate::store::resolve_result(m.remove(correlation_id), correlation_id, response)
            == m.remove(correlation_id),
{
}

} // verus!
