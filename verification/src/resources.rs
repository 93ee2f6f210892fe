use vstd::prelude::*;

verus! {

/// Model of one established session: the connection and its eagerly opened
/// stream pair are populated at construction and never replaced, only
/// closed; the session also owns the cancellation token that a pending
/// receive is raced against. The host-side connection object itself lives
/// outside this state machine; this resource records what the session
/// logic decides on: whether the connection is still open and whether the
/// session's cancellation token has fired.
#[derive(Debug, Clone, Copy, PartialEq, Eq)]
pub struct WebTransportStreamResource {
    /// True until the connection is closed by `abort` or disposal.
    pub connection_open: bool,
    /// True once the session's cancellation token has fired.
    pub cancelled: bool,
}

/// A session may hand a datagram to the transport only while its
/// connection is open.
pub open spec fn send_allowed(s: WebTransportStreamResource) -> bool {
    s.connection_open
}

/// The state a session is left in by `abort`: the connection is closed,
/// everything else is untouched.
pub open spec fn aborted(s: WebTransportStreamResource) -> WebTransportStreamResource {
    WebTransportStreamResource { connection_open: false, ..s }
}

impl WebTransportStreamResource {
    /// A session as `create` registers it: connection open, token unfired.
    pub fn new() -> (r: Self)
        ensures
            r.connection_open,
            !r.cancelled,
    {
        WebTransportStreamResource { connection_open: true, cancelled: false }
    }

    /// Closes the connection with a zero application-error code and empty
    /// reason. Idempotent: closing an already-closed connection changes
    /// nothing further.
    pub fn abort(&mut self)
        ensures
            *final(self) == aborted(*old(self)),
    {
        self.connection_open = false;
    }

    /// Fires the session's own cancellation token, interrupting a pending
    /// receive that is racing it. Idempotent.
    pub fn cancel(&mut self)
        ensures
            final(self).cancelled,
            final(self).connection_open == old(self).connection_open,
    {
        self.cancelled = true;
    }

    pub fn name(&self) -> (r: &'static str)
        ensures
            r@ == "webTransportConnection"@,
    {
        "webTransportConnection"
    }
}

/// Model of a standalone cancellation scope: a token obtainable before any
/// session exists, so that an in-flight creation can be aborted externally.
/// It is cancelled at most meaningfully once; later cancellations are
/// no-ops.
#[derive(Debug, Clone, Copy, PartialEq, Eq)]
pub struct WebTransportCancelResource {
    pub cancelled: bool,
}

impl WebTransportCancelResource {
    pub fn new() -> (r: Self)
        ensures
            !r.cancelled,
    {
        WebTransportCancelResource { cancelled: false }
    }

    /// Signals cancellation to whatever operation is awaiting this token.
    /// Idempotent.
    pub fn cancel(&mut self)
        ensures
            final(self).cancelled,
    {
        self.cancelled = true;
    }

    /// Disposal of the scope also cancels it: cancellation-on-drop.
    pub fn close(&mut self)
        ensures
            final(self).cancelled,
    {
        self.cancel();
    }

    pub fn name(&self) -> (r: &'static str)
        ensures
            r@ == "webTransportCancel"@,
    {
        "webTransportCancel"
    }
}

} // verus!
