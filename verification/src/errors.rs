//! Error kinds surfaced by the bridge, one per failure class.

use vstd::prelude::*;

verus! {

/// Which class of failure occurred. Contracts throughout the crate pin down
/// exactly which kind each operation returns, and on which inputs.
#[derive(Clone, Copy, Debug, PartialEq, Eq, Structural)]
pub enum ErrorKind {
    /// The request method is not a valid HTTP token.
    BadMethod,
    /// The underlying HTTP client could not be constructed.
    ClientBuild,
    /// No transport is registered under the given id.
    TransportNotFound,
    /// No session is registered under the given id.
    SessionNotFound,
    /// No streaming body is registered under the given handle.
    BodyHandleNotFound,
    /// The request was cancelled before it completed.
    RequestAborted,
    /// The transport failed while sending or while reading the body.
    SendFailed,
    /// A redirect was attempted while redirects were disabled.
    RedirectDisabled,
    /// The WebSocket upgrade handshake failed.
    WsUpgradeFailed,
    /// A WebSocket send failed.
    WsSendFailed,
    /// A WebSocket close failed.
    WsCloseFailed,
}

/// An error value: the kind plus free-form detail text supplied by the
/// failing operation (the underlying cause's message, an offending name).
#[derive(Clone, Debug)]
pub struct BridgeError {
    pub kind: ErrorKind,
    pub detail: String,
}

impl BridgeError {
    /// Build an error of the given kind with the given detail text.
    pub fn new(kind: ErrorKind, detail: String) -> (r: BridgeError)
        ensures
            r.kind == kind,
            r.detail == detail,
    {
        BridgeError { kind, detail }
    }

    pub fn kind(&self) -> (k: ErrorKind)
        ensures
            k == self.kind,
    {
        self.kind
    }
}

} // verus!
