use vstd::prelude::*;
use crate::errors::WtError;
use crate::ops::NextEventResponse;
use crate::resources::WebTransportStreamResource;
use crate::resources::aborted;
use crate::resources::send_allowed;

verus! {

/// What a send does to the in-flight datagrams between two peers: the new
/// datagram joins them. The transport itself promises neither delivery nor
/// order; this model delivers in submission order, which is one allowed
/// behaviour, and the round-trip law below claims only content
/// preservation.
pub open spec fn send_effect(inflight: Seq<Vec<u8>>, datagram: Vec<u8>) -> Seq<Vec<u8>> {
    inflight.push(datagram)
}

/// The datagram a receive delivers: one of those in flight.
pub open spec fn receive_front(inflight: Seq<Vec<u8>>) -> Vec<u8>
    recommends
        inflight.len() > 0,
{
    inflight[0]
}

/// What a successful receive leaves in flight.
pub open spec fn receive_rest(inflight: Seq<Vec<u8>>) -> Seq<Vec<u8>>
    recommends
        inflight.len() > 0,
{
    inflight.subrange(1, inflight.len() as int)
}

/// An in-memory pair of peer sessions joined back to back: what the client
/// sends is what the server's event stream sees. This is the model against
/// which the content-preservation and cancellation laws of the session
/// layer are stated and tested; the real transport differs from it only in
/// promising neither delivery nor order.
pub struct LoopbackPair {
    pub client: WebTransportStreamResource,
    pub server: WebTransportStreamResource,
    /// Datagrams sent by the client and not yet seen by the server.
    pub inflight: Vec<Vec<u8>>,
}

impl LoopbackPair {
    pub fn new() -> (r: Self)
        ensures
            r.client.connection_open,
            !r.client.cancelled,
            r.server.connection_open,
            !r.server.cancelled,
            r.inflight@.len() == 0,
    {
        LoopbackPair {
            client: WebTransportStreamResource::new(),
            server: WebTransportStreamResource::new(),
            inflight: Vec::new(),
        }
    }

    /// Closes the client's connection, as `abort` on its handle would.
    pub fn abort_client(&mut self)
        ensures
            final(self).client == aborted(old(self).client),
            final(self).server == old(self).server,
            final(self).inflight@ == old(self).inflight@,
    {
        self.client.abort();
    }

    /// Fires the server session's cancellation token mid-wait.
    pub fn cancel_server(&mut self)
        ensures
            final(self).server.cancelled,
            final(self).server.connection_open == old(self).server.connection_open,
            final(self).client == old(self).client,
            final(self).inflight@ == old(self).inflight@,
    {
        self.server.cancel();
    }

    /// The client hands one datagram to the transport. Refused as
    /// transport-closed when the client's connection is closed; otherwise
    /// the datagram joins the in-flight set unchanged, byte for byte.
    pub fn send(&mut self, datagram: Vec<u8>) -> (r: Result<(), WtError>)
        ensures
            final(self).client == old(self).client,
            final(self).server == old(self).server,
            !send_allowed(old(self).client) ==> (r matches Err(e) && e matches WtError::SendFailure(
                m,
            ) && m@ == "connection is closed"@ && final(self).inflight@ == old(self).inflight@),
            send_allowed(old(self).client) ==> r == Ok::<(), WtError>(()) && final(self).inflight@
                == send_effect(old(self).inflight@, datagram),
    {
        if self.client.connection_open {
            self.inflight.push(datagram);
            Ok(())
        } else {
            Err(WtError::SendFailure(String::from_str("connection is closed")))
        }
    }

    /// The server awaits its next event, racing the pending receive
    /// against its own cancellation token. If the token has fired, the
    /// call resolves promptly as a cancelled read and consumes nothing: a
    /// later receive still sees every in-flight datagram. Otherwise a
    /// pending datagram is delivered exactly as sent; with nothing in
    /// flight and the peer gone, the transport error is reported as an
    /// error-tagged event, not a call failure. A receive that would wait
    /// forever (nothing in flight, peer still open, token unfired) is
    /// outside this model.
    pub fn next_event(&mut self) -> (r: Result<NextEventResponse, WtError>)
        requires
            old(self).server.cancelled || old(self).inflight@.len() > 0 || !old(self).client.connection_open,
        ensures
            final(self).client == old(self).client,
            final(self).server == old(self).server,
            old(self).server.cancelled ==> r == Err::<NextEventResponse, WtError>(
                WtError::CancelledRead,
            ) && final(self).inflight@ == old(self).inflight@,
            !old(self).server.cancelled && old(self).inflight@.len() > 0 ==> r == Ok::<
                NextEventResponse,
                WtError,
            >(NextEventResponse::Binary(receive_front(old(self).inflight@))) && final(self).inflight@ == receive_rest(old(self).inflight@),
            !old(self).server.cancelled && old(self).inflight@.len() == 0 ==> (r matches Ok(ev)
                && ev matches NextEventResponse::Error(m) && m@ == "connection lost"@ && final(self).inflight@ == old(self).inflight@),
    {
        if self.server.cancelled {
            Err(WtError::CancelledRead)
        } else if self.inflight.len() > 0 {
            let datagram = self.inflight.remove(0);
            Ok(NextEventResponse::Binary(datagram))
        } else {
            Ok(NextEventResponse::Error(String::from_str("connection lost")))
        }
    }
}

/// Law: a datagram sent onto an empty in-flight set is exactly what the
/// next receive delivers — the byte sequence round-trips unchanged — and
/// that receive consumes only it.
pub proof fn lemma_send_then_receive_round_trips(inflight: Seq<Vec<u8>>, datagram: Vec<u8>)
    requires
        inflight.len() == 0,
    ensures
        receive_front(send_effect(inflight, datagram)) == datagram,
        receive_rest(send_effect(inflight, datagram)) =~= inflight,
{
}

} // verus!
