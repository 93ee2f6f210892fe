use vstd::prelude::*;

verus! {

/// The error taxonomy of the session layer. Permission and parse failures
/// surface before any resource is allocated; handshake and stream-open
/// failures surface with no session registered; receive-path transport
/// errors are reported as an error-tagged event instead (see the ops).
#[derive(Debug, Clone, PartialEq, Eq)]
pub enum WtError {
    /// The caller is not authorized to contact the target URL.
    PermissionDenied,
    /// The URL is malformed, unparsable, or lacks a host.
    InvalidUrl,
    /// The target host and port resolved to no usable socket address.
    AddressResolutionFailure,
    /// The secure-transport client configuration could not be built.
    TlsConfigError,
    /// The secure handshake against the resolved address failed.
    HandshakeFailure,
    /// The eager bidirectional stream open on the new connection failed.
    StreamOpenFailure,
    /// The transport rejected a datagram; carries the underlying reason.
    SendFailure(String),
    /// A pending receive was interrupted by its cancellation token.
    CancelledRead,
    /// The handle is not registered, or names a resource of the wrong kind.
    UnknownResource,
}

/// An error value carrying a plain message, exposed to hosts that only
/// distinguish this layer's errors by class.
#[derive(Debug)]
pub struct WebTransportError {
    pub msg: String,
}

impl WebTransportError {
    pub fn new(msg: &str) -> (r: Self)
        ensures
            r.msg@ == msg@,
    {
        WebTransportError { msg: String::from_str(msg) }
    }
}

/// The class name under which hosts report this layer's errors.
pub fn error_class_name(_e: &WebTransportError) -> (r: &'static str)
    ensures
        r@ == "WebTransportError"@,
{
    "WebTransportError"
}

} // verus!
