//! Core of a gateway bridging a topic-addressed publish/subscribe bus and a
//! synchronous HTTP API: correlation of asynchronous bus responses to waiting
//! HTTP callers, authorization and routing of inbound bus events to configured
//! webhooks, and the single-consumer dispatch step that demultiplexes inbound
//! bus traffic.

pub mod dispatch;
pub mod error;
pub mod event;
pub mod identity;
pub mod request;
pub mod store;
pub mod topic;
pub mod value;

pub use dispatch::{DispatchOutcome, ParsedEnvelope};
pub use error::{ErrorKind, GatewayError};
pub use identity::{AccountId, AgentId};
pub use request::{BusRequest, RequestData, RequestResource};
pub use store::InFlightRequests;
pub use topic::extract_audience;
pub use value::Value;
