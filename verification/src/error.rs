//! Error taxonomy of the gateway core.
//!
//! HTTP-facing failures carry a status code: identity validation failures are
//! rejected as forbidden, publish and lock failures as unprocessable, and
//! expired waits as a gateway timeout. Parse and authorization failures arise
//! inside the dispatch loop, where no HTTP caller is waiting; they carry no
//! status and are only logged by the surrounding runtime.

use vstd::prelude::*;

verus! {

/// The kind of a gateway failure, deciding how (and whether) it surfaces to
/// an HTTP caller.
#[derive(Clone, Copy, Debug, PartialEq, Eq, Structural)]
pub enum ErrorKind {
    /// The request body's sender identity does not match the verified caller.
    Validation,
    /// The bus transport refused or failed the publish call.
    Publish,
    /// The exclusive-access primitive around the publish handle failed.
    Lock,
    /// No matching response arrived within the configured wait.
    Timeout,
    /// An inbound notification or topic could not be understood.
    Parse,
    /// An inbound event was not permitted for its audience and source.
    Authorization,
    /// An internal invariant was violated (a correlation id collision).
    Internal,
}

/// A structured gateway failure: a machine-readable kind and a
/// human-readable detail string.
#[derive(Debug)]
pub struct GatewayError {
    pub kind: ErrorKind,
    pub detail: String,
}

impl GatewayError {
    /// Builds a failure of the given kind with the given detail text.
    pub fn new(kind: ErrorKind, detail: String) -> (r: GatewayError)
        ensures
            r.kind == kind,
            r.detail@ == detail@,
    {
        GatewayError { kind, detail }
    }

    /// The kind of this failure.
    pub fn kind(&self) -> (r: ErrorKind)
        ensures
            r == self.kind,
    {
        self.kind
    }

    /// The detail text of this failure.
    pub fn detail(&self) -> (r: &String)
        ensures
            r@ == self.detail@,
    {
        &self.detail
    }

    /// The HTTP status under which this failure surfaces to a caller, or
    /// `None` for failures that arise inside the dispatch loop, where no
    /// caller is waiting.
    pub fn http_status(&self) -> (r: Option<u16>)
        ensures
            r == spec_http_status(self.kind),
    {
        match self.kind {
            ErrorKind::Validation => Some(403u16),
            ErrorKind::Publish => Some(422u16),
            ErrorKind::Lock => Some(422u16),
            ErrorKind::Internal => Some(422u16),
            ErrorKind::Timeout => Some(504u16),
            ErrorKind::Parse => None,
            ErrorKind::Authorization => None,
        }
    }
}

/// The status mapping: validation failures are forbidden (403), publish,
/// lock and internal failures are unprocessable (422), expired waits are a
/// gateway timeout (504); dispatch-internal failures have no HTTP status.
pub open spec fn spec_http_status(kind: ErrorKind) -> Option<u16> {
    match kind {
        ErrorKind::Validation => Some(403u16),
        ErrorKind::Publish => Some(422u16),
        ErrorKind::Lock => Some(422u16),
        ErrorKind::Internal => Some(422u16),
        ErrorKind::Timeout => Some(504u16),
        ErrorKind::Parse => None,
        ErrorKind::Authorization => None,
    }
}

} // verus!
