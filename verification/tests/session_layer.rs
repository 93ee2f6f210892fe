use webtransport::check_unstable;
use webtransport::errors::WebTransportError;
use webtransport::errors::WtError;
use webtransport::errors::error_class_name;
use webtransport::get_declaration;
use webtransport::ops::CreateResponse;
use webtransport::ops::DisposeAction;
use webtransport::ops::EstablishOutcome;
use webtransport::ops::NextEventResponse;
use webtransport::ops::PermissionDecision;
use webtransport::ops::RecvOutcome;
use webtransport::ops::SendOutcome;
use webtransport::ops::alpn_http3;
use webtransport::ops::op_wt_abort;
use webtransport::ops::op_wt_cancel;
use webtransport::ops::op_wt_check_permission_and_cancel_handle;
use webtransport::ops::op_wt_close;
use webtransport::ops::op_wt_create_finish;
use webtransport::ops::op_wt_create_plan;
use webtransport::ops::op_wt_next_event_begin;
use webtransport::ops::op_wt_next_event_finish;
use webtransport::ops::op_wt_send_begin;
use webtransport::ops::op_wt_send_finish;
use webtransport::registry::SessionRegistry;
use webtransport::Unstable;
use webtransport::WebTransportCertificateFingerprint;

fn established_session(registry: &mut SessionRegistry) -> CreateResponse {
    op_wt_create_finish(registry, EstablishOutcome::Established).expect("establish")
}

#[test]
fn denied_permission_fails_and_allocates_no_handle() {
    let mut registry = SessionRegistry::new();
    let r = op_wt_check_permission_and_cancel_handle(
        &mut registry,
        "https://example.com/",
        PermissionDecision::Denied,
        true,
    );
    assert_eq!(r, Err(WtError::PermissionDenied));
    // Nothing was registered: the handle the registry would have used next
    // is unknown to every operation.
    assert_eq!(op_wt_send_begin(&registry, 0), Err(WtError::UnknownResource));
}

#[test]
fn invalid_url_fails_before_permission() {
    let mut registry = SessionRegistry::new();
    let r = op_wt_check_permission_and_cancel_handle(
        &mut registry,
        "not a url",
        PermissionDecision::Granted,
        true,
    );
    assert_eq!(r, Err(WtError::InvalidUrl));
}

#[test]
fn granted_without_cancel_handle_returns_none() {
    let mut registry = SessionRegistry::new();
    let r = op_wt_check_permission_and_cancel_handle(
        &mut registry,
        "https://example.com/",
        PermissionDecision::Granted,
        false,
    );
    assert_eq!(r, Ok(None));
}

#[test]
fn granted_with_cancel_handle_registers_scope() {
    let mut registry = SessionRegistry::new();
    let r = op_wt_check_permission_and_cancel_handle(
        &mut registry,
        "https://example.com/",
        PermissionDecision::Granted,
        true,
    );
    let rid = r.expect("granted").expect("handle");
    // The scope is live and cancellable, idempotently.
    assert_eq!(op_wt_cancel(&mut registry, rid), Ok(()));
    assert_eq!(op_wt_cancel(&mut registry, rid), Ok(()));
}

#[test]
fn create_plan_reads_host_and_explicit_port() {
    let unstable = Unstable(true);
    let plan = op_wt_create_plan(
        &unstable,
        PermissionDecision::Granted,
        "https://example.com:4433/session",
        &Vec::new(),
    )
    .expect("plan");
    assert_eq!(plan.host, "example.com");
    assert_eq!(plan.port, 4433);
    assert_eq!(plan.alpn, vec![104u8, 51u8]);
    assert_eq!(plan.idle_timeout_ms, 30000);
    assert_eq!(plan.keep_alive_interval_ms, 1000);
}

#[test]
fn create_plan_defaults_the_port() {
    let unstable = Unstable(true);
    let plan = op_wt_create_plan(
        &unstable,
        PermissionDecision::Granted,
        "https://example.com/",
        &Vec::new(),
    )
    .expect("plan");
    assert_eq!(plan.port, 443);
}

#[test]
fn create_plan_rejects_unparsable_url() {
    let unstable = Unstable(true);
    let r = op_wt_create_plan(
        &unstable,
        PermissionDecision::Granted,
        "https://exa mple.com/",
        &Vec::new(),
    );
    assert_eq!(r.err(), Some(WtError::InvalidUrl));
}

#[test]
fn create_plan_rejects_hostless_url() {
    let unstable = Unstable(true);
    let r = op_wt_create_plan(
        &unstable,
        PermissionDecision::Granted,
        "/relative/path",
        &Vec::new(),
    );
    assert_eq!(r.err(), Some(WtError::InvalidUrl));
}

#[test]
fn create_plan_accepts_unvalidated_fingerprints() {
    let unstable = Unstable(true);
    let fingerprints = vec![WebTransportCertificateFingerprint {
        algorithm: String::from("sha-256"),
        fingerprint: String::from("00:11:22"),
    }];
    let plan = op_wt_create_plan(
        &unstable,
        PermissionDecision::Granted,
        "https://example.com/",
        &fingerprints,
    );
    assert!(plan.is_ok());
}

#[test]
fn successful_create_registers_exactly_one_live_session() {
    let mut registry = SessionRegistry::new();
    let resp = established_session(&mut registry);
    // The new handle names a session ready to send and receive.
    assert_eq!(op_wt_send_begin(&registry, resp.rid), Ok(()));
    assert_eq!(op_wt_next_event_begin(&registry, resp.rid), Ok(()));
    // And only that handle was allocated.
    assert_eq!(
        op_wt_send_begin(&registry, resp.rid + 1),
        Err(WtError::UnknownResource)
    );
}

#[test]
fn cancelled_create_registers_nothing() {
    let mut registry = SessionRegistry::new();
    let r = op_wt_create_finish(&mut registry, EstablishOutcome::Cancelled);
    assert_eq!(r, Err(WtError::CancelledRead));
    assert_eq!(op_wt_send_begin(&registry, 0), Err(WtError::UnknownResource));
}

#[test]
fn each_establish_failure_maps_to_its_error() {
    let mut registry = SessionRegistry::new();
    assert_eq!(
        op_wt_create_finish(&mut registry, EstablishOutcome::ResolutionFailed),
        Err(WtError::AddressResolutionFailure)
    );
    assert_eq!(
        op_wt_create_finish(&mut registry, EstablishOutcome::TlsConfigFailed),
        Err(WtError::TlsConfigError)
    );
    assert_eq!(
        op_wt_create_finish(&mut registry, EstablishOutcome::HandshakeFailed),
        Err(WtError::HandshakeFailure)
    );
    assert_eq!(
        op_wt_create_finish(&mut registry, EstablishOutcome::StreamOpenFailed),
        Err(WtError::StreamOpenFailure)
    );
    // No partial registration happened along the way.
    assert_eq!(op_wt_abort(&mut registry, 0), Err(WtError::UnknownResource));
}

#[test]
fn abort_then_send_fails_as_transport_closed() {
    let mut registry = SessionRegistry::new();
    let resp = established_session(&mut registry);
    assert_eq!(op_wt_abort(&mut registry, resp.rid), Ok(()));
    // Abort is idempotent in effect.
    assert_eq!(op_wt_abort(&mut registry, resp.rid), Ok(()));
    match op_wt_send_begin(&registry, resp.rid) {
        Err(WtError::SendFailure(m)) => assert_eq!(m, "connection is closed"),
        other => panic!("expected a transport-closed failure, got {:?}", other),
    }
}

#[test]
fn unknown_handle_is_an_error_in_every_operation() {
    let mut registry = SessionRegistry::new();
    let rid = 12345u64;
    assert_eq!(op_wt_send_begin(&registry, rid), Err(WtError::UnknownResource));
    assert_eq!(
        op_wt_next_event_begin(&registry, rid),
        Err(WtError::UnknownResource)
    );
    assert_eq!(op_wt_abort(&mut registry, rid), Err(WtError::UnknownResource));
    assert_eq!(op_wt_cancel(&mut registry, rid), Err(WtError::UnknownResource));
    assert_eq!(op_wt_close(&mut registry, rid), Err(WtError::UnknownResource));
}

#[test]
fn wrong_kind_handle_is_unknown_to_session_operations() {
    let mut registry = SessionRegistry::new();
    let rid = op_wt_check_permission_and_cancel_handle(
        &mut registry,
        "https://example.com/",
        PermissionDecision::Granted,
        true,
    )
    .expect("granted")
    .expect("handle");
    assert_eq!(op_wt_send_begin(&registry, rid), Err(WtError::UnknownResource));
    assert_eq!(
        op_wt_next_event_begin(&registry, rid),
        Err(WtError::UnknownResource)
    );
    assert_eq!(op_wt_abort(&mut registry, rid), Err(WtError::UnknownResource));
}

#[test]
fn disposal_runs_the_right_close_hook_and_frees_the_handle() {
    let mut registry = SessionRegistry::new();
    let session = established_session(&mut registry);
    let scope = op_wt_check_permission_and_cancel_handle(
        &mut registry,
        "https://example.com/",
        PermissionDecision::Granted,
        true,
    )
    .expect("granted")
    .expect("handle");
    assert_eq!(
        op_wt_close(&mut registry, session.rid),
        Ok(DisposeAction::AbortSession)
    );
    assert_eq!(op_wt_close(&mut registry, scope), Ok(DisposeAction::CancelScope));
    assert_eq!(
        op_wt_close(&mut registry, session.rid),
        Err(WtError::UnknownResource)
    );
}

#[test]
fn handles_are_never_reused() {
    let mut registry = SessionRegistry::new();
    let first = established_session(&mut registry);
    assert_eq!(
        op_wt_close(&mut registry, first.rid),
        Ok(DisposeAction::AbortSession)
    );
    let second = established_session(&mut registry);
    assert_ne!(first.rid, second.rid);
}

#[test]
fn cancelling_a_session_token_leaves_the_connection_usable() {
    let mut registry = SessionRegistry::new();
    let resp = established_session(&mut registry);
    assert_eq!(op_wt_cancel(&mut registry, resp.rid), Ok(()));
    assert_eq!(op_wt_cancel(&mut registry, resp.rid), Ok(()));
    // Cancellation interrupts a pending receive; it does not close the
    // connection, so sending is still allowed.
    assert_eq!(op_wt_send_begin(&registry, resp.rid), Ok(()));
}

#[test]
fn send_finish_maps_the_transport_answer() {
    assert_eq!(op_wt_send_finish(SendOutcome::Sent), Ok(()));
    assert_eq!(
        op_wt_send_finish(SendOutcome::Rejected(String::from("datagram too large"))),
        Err(WtError::SendFailure(String::from("datagram too large")))
    );
}

#[test]
fn next_event_finish_maps_each_receive_outcome() {
    assert_eq!(
        op_wt_next_event_finish(RecvOutcome::Data(vec![7, 8, 9])),
        Ok(NextEventResponse::Binary(vec![7, 8, 9]))
    );
    assert_eq!(
        op_wt_next_event_finish(RecvOutcome::Cancelled),
        Err(WtError::CancelledRead)
    );
    assert_eq!(
        op_wt_next_event_finish(RecvOutcome::TransportError(String::from("reset"))),
        Ok(NextEventResponse::Error(String::from("reset")))
    );
}

#[test]
fn error_carries_its_message_and_class() {
    let e = WebTransportError::new("handshake refused");
    assert_eq!(e.msg, "handshake refused");
    assert_eq!(error_class_name(&e), "WebTransportError");
}

#[test]
fn declaration_and_unstable_gate() {
    assert_eq!(get_declaration(), "lib.deno_webtransport.d.ts");
    assert!(check_unstable(&Unstable(true)));
    assert!(!check_unstable(&Unstable(false)));
}

#[test]
fn alpn_is_h3() {
    assert_eq!(alpn_http3(), b"h3".to_vec());
}
