use vstd::prelude::*;
use crate::errors::WtError;
use crate::registry::ResourceEntry;
use crate::registry::SessionRegistry;
use crate::resources::WebTransportCancelResource;
use crate::resources::WebTransportStreamResource;
use crate::resources::aborted;
use crate::resources::send_allowed;
use crate::target::parse_uri;
use crate::target::parse_url_ok;
use crate::target::uri_parse_of;
use crate::target::url_ok_of;
use crate::Unstable;
use crate::WebTransportCertificateFingerprint;

verus! {

/// The outcome of the permission gate's check of one URL, as the host
/// observed it before calling into this layer.
#[derive(Debug, Clone, Copy, PartialEq, Eq)]
pub enum PermissionDecision {
    Granted,
    Denied,
}

/// The default port when the URL names none.
pub const DEFAULT_PORT: u16 = 443;

/// Non-negotiable idle-timeout policy for every connection, in
/// milliseconds; not caller-configurable, to bound idle-resource lifetime.
pub const IDLE_TIMEOUT_MS: u32 = 30000;

/// Non-negotiable keep-alive interval for every connection, in
/// milliseconds.
pub const KEEP_ALIVE_INTERVAL_MS: u32 = 1000;

/// The fixed application-layer protocol identifier the handshake must
/// negotiate: the bytes of "h3".
pub fn alpn_http3() -> (r: Vec<u8>)
    ensures
        r@ == seq![104u8, 51u8],
{
    let mut v: Vec<u8> = Vec::new();
    v.push(104);
    v.push(51);
    proof {
        assert(v@ =~= seq![104u8, 51u8]);
    }
    v
}

/// Everything the connection establisher needs to perform the handshake:
/// the parsed target plus the fixed transport policy. The host resolves
/// `host:port` to one socket address (first result, no fallback), builds
/// the secure-transport configuration, and performs the handshake.
pub struct ConnectPlan {
    pub host: String,
    pub port: u16,
    pub alpn: Vec<u8>,
    pub idle_timeout_ms: u32,
    pub keep_alive_interval_ms: u32,
}

/// A fresh handle for a newly created session.
#[derive(Debug, Clone, Copy, PartialEq, Eq)]
pub struct CreateResponse {
    pub rid: u64,
}

/// How the asynchronous establish phase ended, reported by the host that
/// drove the handshake: each failure names the step that failed, and
/// `Cancelled` reports that the creation's cancellation token fired first.
#[derive(Debug, Clone, PartialEq, Eq)]
pub enum EstablishOutcome {
    Established,
    ResolutionFailed,
    TlsConfigFailed,
    HandshakeFailed,
    StreamOpenFailed,
    Cancelled,
}

/// How the transport answered one datagram submission.
#[derive(Debug, Clone, PartialEq, Eq)]
pub enum SendOutcome {
    Sent,
    Rejected(String),
}

/// How a pending receive resolved: a datagram arrived, the session's
/// cancellation token fired first, or the connection errored while
/// waiting.
#[derive(Debug, Clone, PartialEq, Eq)]
pub enum RecvOutcome {
    Data(Vec<u8>),
    Cancelled,
    TransportError(String),
}

/// The single ordered event stream a session's consumer observes.
#[derive(Debug, Clone, PartialEq, Eq)]
pub enum NextEventResponse {
    Binary(Vec<u8>),
    Close { code: u16, reason: String },
    Error(String),
    Closed,
}

/// What disposal of a handle obliges the host to do to the underlying
/// resource: close a session's connection, or fire a scope's token.
#[derive(Debug, Clone, Copy, PartialEq, Eq)]
pub enum DisposeAction {
    AbortSession,
    CancelScope,
}

/// A send is refused without touching the transport exactly when the
/// handle names a session whose connection is already closed.
pub open spec fn send_refused_as_closed(l: Option<ResourceEntry>) -> bool {
    l matches Some(ResourceEntry::Stream(s)) && !send_allowed(s)
}

/// Law: once a session is aborted, a send on its handle is refused as a
/// transport-closed failure: the aborted state never allows a send, so the
/// decision answers at once and the call cannot hang.
pub proof fn lemma_abort_then_send_refused(s: WebTransportStreamResource)
    ensures
        send_refused_as_closed(Some(ResourceEntry::Stream(aborted(s)))),
{
}

/// Synchronous pre-check of the two-phase creation protocol: validates the
/// URL and the permission gate's verdict before any resource is allocated,
/// and, on request, registers a fresh cancellation scope with which the
/// caller can abort the asynchronous phase. Fails fast: a denied URL
/// allocates no handle.
pub fn op_wt_check_permission_and_cancel_handle(
    registry: &mut SessionRegistry,
    url: &str,
    permission: PermissionDecision,
    cancel_handle: bool,
) -> (r: Result<Option<u64>, WtError>)
    requires
        old(registry).wf(),
        old(registry).next_handle() < u64::MAX,
    ensures
        final(registry).wf(),
        !url_ok_of(url@) ==> r == Err::<Option<u64>, WtError>(WtError::InvalidUrl) && *final(registry) == *old(registry),
        url_ok_of(url@) && permission is Denied ==> r == Err::<Option<u64>, WtError>(
            WtError::PermissionDenied,
        ) && *final(registry) == *old(registry),
        url_ok_of(url@) && permission is Granted && !cancel_handle ==> r == Ok::<
            Option<u64>,
            WtError,
        >(None) && *final(registry) == *old(registry),
        url_ok_of(url@) && permission is Granted && cancel_handle ==> (r matches Ok(Some(rid)) && {
            &&& old(registry).spec_lookup(rid) is None
            &&& final(registry).spec_lookup(rid) == Some(
                ResourceEntry::Cancel(WebTransportCancelResource { cancelled: false }),
            )
            &&& forall|r2: u64|
                r2 != rid ==> #[trigger] final(registry).spec_lookup(r2) == old(registry).spec_lookup(r2)
            &&& final(registry).count() == old(registry).count() + 1
        }),
{
    if !parse_url_ok(url) {
        return Err(WtError::InvalidUrl);
    }
    match permission {
        PermissionDecision::Denied => Err(WtError::PermissionDenied),
        PermissionDecision::Granted => {
            if cancel_handle {
                let rid = registry.add(
                    ResourceEntry::Cancel(WebTransportCancelResource::new()),
                );
                Ok(Some(rid))
            } else {
                Ok(None)
            }
        },
    }
}

/// Plans the asynchronous establish phase: re-asserts the unstable-API
/// gate and the permission verdict (both must already have been checked,
/// so their failure here would be an internal invariant violation, not a
/// user-facing error), parses the URL, extracts host and port (default
/// port when absent), and fixes the transport policy. The fingerprint list
/// is accepted as structured input but not validated here; pinning is
/// deferred entirely to the TLS collaborator.
pub fn op_wt_create_plan(
    unstable: &Unstable,
    permission: PermissionDecision,
    url: &str,
    _fingerprints: &Vec<WebTransportCertificateFingerprint>,
) -> (r: Result<ConnectPlan, WtError>)
    requires
        unstable.0,
        permission is Granted,
    ensures
        uri_parse_of(url@) is None ==> r == Err::<ConnectPlan, WtError>(WtError::InvalidUrl),
        uri_parse_of(url@) matches Some(hp) ==> {
            &&& hp.0 is None ==> r == Err::<ConnectPlan, WtError>(WtError::InvalidUrl)
            &&& hp.0 matches Some(h) ==> (r matches Ok(plan) && {
                &&& plan.host@ == h
                &&& (hp.1 matches Some(p) ==> plan.port == p)
                &&& (hp.1 is None ==> plan.port == DEFAULT_PORT)
                &&& plan.alpn@ == seq![104u8, 51u8]
                &&& plan.idle_timeout_ms == IDLE_TIMEOUT_MS
                &&& plan.keep_alive_interval_ms == KEEP_ALIVE_INTERVAL_MS
            })
        },
{
    let parsed = parse_uri(url);
    match parsed {
        None => Err(WtError::InvalidUrl),
        Some((host_opt, port_opt)) => match host_opt {
            None => Err(WtError::InvalidUrl),
            Some(host) => {
                let port: u16 = match port_opt {
                    Some(p) => p,
                    None => DEFAULT_PORT,
                };
                Ok(
                    ConnectPlan {
                        host,
                        port,
                        alpn: alpn_http3(),
                        idle_timeout_ms: IDLE_TIMEOUT_MS,
                        keep_alive_interval_ms: KEEP_ALIVE_INTERVAL_MS,
                    },
                )
            },
        },
    }
}

/// Finishes the creation protocol once the host reports how the establish
/// phase ended. Success registers exactly one fresh session handle, its
/// connection and stream pair populated; every failure, cancellation
/// included, registers nothing at all — there is no partial registration.
pub fn op_wt_create_finish(registry: &mut SessionRegistry, outcome: EstablishOutcome) -> (r: Result<
    CreateResponse,
    WtError,
>)
    requires
        old(registry).wf(),
        old(registry).next_handle() < u64::MAX,
    ensures
        final(registry).wf(),
        outcome is Established ==> (r matches Ok(resp) && {
            &&& old(registry).spec_lookup(resp.rid) is None
            &&& final(registry).spec_lookup(resp.rid) == Some(
                ResourceEntry::Stream(
                    WebTransportStreamResource { connection_open: true, cancelled: false },
                ),
            )
            &&& forall|r2: u64|
                r2 != resp.rid ==> #[trigger] final(registry).spec_lookup(r2) == old(registry).spec_lookup(r2)
            &&& final(registry).count() == old(registry).count() + 1
        }),
        outcome is Cancelled ==> r == Err::<CreateResponse, WtError>(WtError::CancelledRead)
            && *final(registry) == *old(registry),
        outcome is ResolutionFailed ==> r == Err::<CreateResponse, WtError>(
            WtError::AddressResolutionFailure,
        ) && *final(registry) == *old(registry),
        outcome is TlsConfigFailed ==> r == Err::<CreateResponse, WtError>(WtError::TlsConfigError)
            && *final(registry) == *old(registry),
        outcome is HandshakeFailed ==> r == Err::<CreateResponse, WtError>(
            WtError::HandshakeFailure,
        ) && *final(registry) == *old(registry),
        outcome is StreamOpenFailed ==> r == Err::<CreateResponse, WtError>(
            WtError::StreamOpenFailure,
        ) && *final(registry) == *old(registry),
{
    match outcome {
        EstablishOutcome::Established => {
            let rid = registry.add(ResourceEntry::Stream(WebTransportStreamResource::new()));
            Ok(CreateResponse { rid })
        },
        EstablishOutcome::ResolutionFailed => Err(WtError::AddressResolutionFailure),
        EstablishOutcome::TlsConfigFailed => Err(WtError::TlsConfigError),
        EstablishOutcome::HandshakeFailed => Err(WtError::HandshakeFailure),
        EstablishOutcome::StreamOpenFailed => Err(WtError::StreamOpenFailure),
        EstablishOutcome::Cancelled => Err(WtError::CancelledRead),
    }
}

/// Decides whether a datagram may be handed to the transport for this
/// handle: the handle must name a session, and the session's connection
/// must still be open. An unknown or wrong-kind handle is an error, never
/// a panic; a closed connection is refused as transport-closed without
/// touching the transport, so the call can never hang.
pub fn op_wt_send_begin(registry: &SessionRegistry, rid: u64) -> (r: Result<(), WtError>)
    requires
        registry.wf(),
    ensures
        registry.spec_lookup(rid) is None ==> r == Err::<(), WtError>(WtError::UnknownResource),
        registry.spec_lookup(rid) matches Some(ResourceEntry::Cancel(_)) ==> r == Err::<
            (),
            WtError,
        >(WtError::UnknownResource),
        registry.spec_lookup(rid) matches Some(ResourceEntry::Stream(s)) && send_allowed(s) ==> r
            == Ok::<(), WtError>(()),
        send_refused_as_closed(registry.spec_lookup(rid)) ==> (r matches Err(e) && e matches
            WtError::SendFailure(m) && m@ == "connection is closed"@),
{
    match registry.get(rid) {
        None => Err(WtError::UnknownResource),
        Some(ResourceEntry::Cancel(_)) => Err(WtError::UnknownResource),
        Some(ResourceEntry::Stream(s)) => {
            if s.connection_open {
                Ok(())
            } else {
                Err(WtError::SendFailure(String::from_str("connection is closed")))
            }
        },
    }
}

/// Maps the transport's answer to one datagram submission onto the send
/// call's result: a rejection surfaces as a send failure carrying the
/// underlying reason.
pub fn op_wt_send_finish(outcome: SendOutcome) -> (r: Result<(), WtError>)
    ensures
        outcome is Sent ==> r == Ok::<(), WtError>(()),
        outcome matches SendOutcome::Rejected(m) ==> r == Err::<(), WtError>(
            WtError::SendFailure(m),
        ),
{
    match outcome {
        SendOutcome::Sent => Ok(()),
        SendOutcome::Rejected(m) => Err(WtError::SendFailure(m)),
    }
}

/// Decides whether a receive may be started for this handle: it must name
/// a session. Unknown or wrong-kind handles are an error, never a panic.
pub fn op_wt_next_event_begin(registry: &SessionRegistry, rid: u64) -> (r: Result<(), WtError>)
    requires
        registry.wf(),
    ensures
        registry.spec_lookup(rid) matches Some(ResourceEntry::Stream(_)) ==> r == Ok::<
            (),
            WtError,
        >(()),
        registry.spec_lookup(rid) is None ==> r == Err::<(), WtError>(WtError::UnknownResource),
        registry.spec_lookup(rid) matches Some(ResourceEntry::Cancel(_)) ==> r == Err::<
            (),
            WtError,
        >(WtError::UnknownResource),
{
    match registry.get(rid) {
        Some(ResourceEntry::Stream(_)) => Ok(()),
        Some(ResourceEntry::Cancel(_)) => Err(WtError::UnknownResource),
        None => Err(WtError::UnknownResource),
    }
}

/// Maps how the pending receive resolved onto the event the consumer sees.
/// A datagram becomes a binary event; the cancellation token winning the
/// race is the one call failure, so no datagram is consumed; a transport
/// error while waiting is reported as a successful call carrying an
/// error-tagged event, so the caller's polling loop can keep going.
pub fn op_wt_next_event_finish(outcome: RecvOutcome) -> (r: Result<NextEventResponse, WtError>)
    ensures
        outcome matches RecvOutcome::Data(b) ==> r == Ok::<NextEventResponse, WtError>(
            NextEventResponse::Binary(b),
        ),
        outcome is Cancelled ==> r == Err::<NextEventResponse, WtError>(WtError::CancelledRead),
        outcome matches RecvOutcome::TransportError(m) ==> r == Ok::<NextEventResponse, WtError>(
            NextEventResponse::Error(m),
        ),
{
    match outcome {
        RecvOutcome::Data(b) => Ok(NextEventResponse::Binary(b)),
        RecvOutcome::Cancelled => Err(WtError::CancelledRead),
        RecvOutcome::TransportError(m) => Ok(NextEventResponse::Error(m)),
    }
}

/// Closes a session's connection with a zero application-error code and
/// empty reason. Idempotent in effect; the handle stays registered, since
/// disposal is a separate step.
pub fn op_wt_abort(registry: &mut SessionRegistry, rid: u64) -> (r: Result<(), WtError>)
    requires
        old(registry).wf(),
    ensures
        final(registry).wf(),
        old(registry).spec_lookup(rid) is None ==> r == Err::<(), WtError>(
            WtError::UnknownResource,
        ) && *final(registry) == *old(registry),
        old(registry).spec_lookup(rid) matches Some(ResourceEntry::Cancel(_)) ==> r == Err::<
            (),
            WtError,
        >(WtError::UnknownResource) && *final(registry) == *old(registry),
        old(registry).spec_lookup(rid) matches Some(ResourceEntry::Stream(s)) ==> r == Ok::<
            (),
            WtError,
        >(()) && final(registry).spec_lookup(rid) == Some(ResourceEntry::Stream(aborted(s))),
        forall|r2: u64|
            r2 != rid ==> #[trigger] final(registry).spec_lookup(r2) == old(registry).spec_lookup(
                r2,
            ),
        final(registry).count() == old(registry).count(),
        final(registry).next_handle() == old(registry).next_handle(),
{
    match registry.get(rid) {
        None => Err(WtError::UnknownResource),
        Some(ResourceEntry::Cancel(_)) => Err(WtError::UnknownResource),
        Some(ResourceEntry::Stream(s)) => {
            let mut updated = s;
            updated.abort();
            let _ = registry.replace(rid, ResourceEntry::Stream(updated));
            Ok(())
        },
    }
}

/// Fires the cancellation token behind a handle: a scope's own token, or a
/// session's receive-cancellation token. Idempotent; cancelling an already
/// cancelled token changes nothing further.
pub fn op_wt_cancel(registry: &mut SessionRegistry, rid: u64) -> (r: Result<(), WtError>)
    requires
        old(registry).wf(),
    ensures
        final(registry).wf(),
        old(registry).spec_lookup(rid) is None ==> r == Err::<(), WtError>(
            WtError::UnknownResource,
        ) && *final(registry) == *old(registry),
        old(registry).spec_lookup(rid) matches Some(ResourceEntry::Cancel(c)) ==> r == Ok::<
            (),
            WtError,
        >(()) && final(registry).spec_lookup(rid) == Some(
            ResourceEntry::Cancel(WebTransportCancelResource { cancelled: true }),
        ),
        old(registry).spec_lookup(rid) matches Some(ResourceEntry::Stream(s)) ==> r == Ok::<
            (),
            WtError,
        >(()) && final(registry).spec_lookup(rid) == Some(
            ResourceEntry::Stream(
                WebTransportStreamResource { connection_open: s.connection_open, cancelled: true },
            ),
        ),
        forall|r2: u64|
            r2 != rid ==> #[trigger] final(registry).spec_lookup(r2) == old(registry).spec_lookup(
                r2,
            ),
        final(registry).count() == old(registry).count(),
        final(registry).next_handle() == old(registry).next_handle(),
{
    match registry.get(rid) {
        None => Err(WtError::UnknownResource),
        Some(ResourceEntry::Cancel(c)) => {
            let mut updated = c;
            updated.cancel();
            let _ = registry.replace(rid, ResourceEntry::Cancel(updated));
            Ok(())
        },
        Some(ResourceEntry::Stream(s)) => {
            let mut updated = s;
            updated.cancel();
            let _ = registry.replace(rid, ResourceEntry::Stream(updated));
            Ok(())
        },
    }
}

/// Disposes a handle: removes it from the table and tells the host which
/// close hook to run — a session's connection is aborted, a scope's token
/// is cancelled (cancellation-on-drop). The handle is never handed out
/// again.
pub fn op_wt_close(registry: &mut SessionRegistry, rid: u64) -> (r: Result<DisposeAction, WtError>)
    requires
        old(registry).wf(),
    ensures
        final(registry).wf(),
        old(registry).spec_lookup(rid) is None ==> r == Err::<DisposeAction, WtError>(
            WtError::UnknownResource,
        ) && *final(registry) == *old(registry),
        old(registry).spec_lookup(rid) matches Some(ResourceEntry::Stream(_)) ==> r == Ok::<
            DisposeAction,
            WtError,
        >(DisposeAction::AbortSession),
        old(registry).spec_lookup(rid) matches Some(ResourceEntry::Cancel(_)) ==> r == Ok::<
            DisposeAction,
            WtError,
        >(DisposeAction::CancelScope),
        old(registry).spec_lookup(rid) is Some ==> final(registry).spec_lookup(rid) is None
            && final(registry).count() == old(registry).count() - 1,
        forall|r2: u64|
            r2 != rid ==> #[trigger] final(registry).spec_lookup(r2) == old(registry).spec_lookup(
                r2,
            ),
        final(registry).next_handle() == old(registry).next_handle(),
{
    match registry.remove(rid) {
        None => Err(WtError::UnknownResource),
        Some(ResourceEntry::Stream(_)) => Ok(DisposeAction::AbortSession),
        Some(ResourceEntry::Cancel(_)) => Ok(DisposeAction::CancelScope),
    }
}

} // verus!
