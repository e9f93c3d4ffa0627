use vstd::prelude::*;

use crate::error::SnxError;
use crate::hex::{decode_from_hex, hex_decoded, hex_input_valid};
use crate::model::{
    hello_reply_name, is_keepalive_ack, keepalive_name, ClientHello, ControlPayload, HelloReply,
    KeepaliveRequest, OfficeMode, OptionalRequest, SnxPacket,
};
use crate::numeric::{dec_value, parse_u64, parses_to_u64};
use crate::text::{lossy_utf8_of, utf8_lossy};

verus! {

/// Seconds of safety leeway subtracted from the server-declared credential
/// lifetime when computing the reauthentication deadline.
pub const REAUTH_LEEWAY_SECS: u64 = 60;

/// The reauthentication deadline a server-declared lifetime yields: the
/// lifetime minus the fixed leeway, floored at zero.
pub open spec fn spec_auth_timeout(server_secs: int) -> int {
    if server_secs >= REAUTH_LEEWAY_SECS {
        server_secs - REAUTH_LEEWAY_SECS
    } else {
        0
    }
}

/// The deadline before which reauthentication must complete, from the
/// server-declared credential lifetime.  A lifetime at or below the leeway
/// yields zero rather than underflowing.
pub fn auth_timeout_secs(server_secs: u64) -> (r: u64)
    ensures
        r == spec_auth_timeout(server_secs as int),
{
    if server_secs >= REAUTH_LEEWAY_SECS {
        server_secs - REAUTH_LEEWAY_SECS
    } else {
        0
    }
}

/// Static configuration supplied by the caller.
#[derive(Debug, PartialEq, Eq)]
pub struct TunnelParams {
    /// The gateway to connect to.
    pub server_name: String,
    /// Whether the run loop refreshes credentials before they expire.
    pub reauth: bool,
}

impl Clone for TunnelParams {
    fn clone(&self) -> (r: Self)
        ensures
            r == *self,
    {
        TunnelParams { server_name: self.server_name.clone(), reauth: self.reauth }
    }
}

/// What the external authenticator answered: the literal status string, the
/// hex-encoded key on success, and the server-assigned session id.
#[derive(Clone, Debug)]
pub struct AuthResponse {
    pub is_authenticated: String,
    pub active_key: Option<String>,
    pub session_id: Option<String>,
}

/// Where a session stands: transport up but timing and address unknown, or
/// handshake completed.
#[derive(Clone, Copy, Debug, PartialEq, Eq, Structural)]
pub enum SessionState {
    Connected,
    Established,
}

/// A stateless factory for tunnel sessions.
pub struct SnxClient(pub TunnelParams);

/// The stateful core of a session: identity, credentials, negotiated
/// timing, assigned address and liveness-tracking state.
pub struct SnxTunnel {
    pub params: TunnelParams,
    pub cookie: String,
    pub session_id: String,
    /// Seconds before which reauthentication must complete; zero until the
    /// handshake reply is received.
    pub auth_timeout: u64,
    /// Seconds between keepalive probes; zero until the handshake reply is
    /// received.
    pub keepalive: u64,
    /// The assigned address; the unassigned sentinel requests a fresh lease.
    pub ip_address: String,
    /// Keepalive probes sent without an acknowledgment or any other inbound
    /// traffic.
    pub keepalive_counter: u64,
    pub state: SessionState,
}

/// Holds of a request built from session state `t`: fixed version and
/// client-type identifiers, the session's current address and cookie, and
/// the requested address-retention flag.
pub open spec fn hello_request_matches(h: ClientHello, t: SnxTunnel, keep_address: bool) -> bool {
    &&& h.client_version@ == "1"@
    &&& h.protocol_version@ == "1"@
    &&& h.protocol_minor_version@ == "1"@
    &&& h.office_mode.ipaddr@ == t.ip_address@
    &&& h.office_mode.keep_address matches Some(k) && k@ == (if keep_address {
        "true"@
    } else {
        "false"@
    })
    &&& h.office_mode.dns_servers is None
    &&& h.office_mode.dns_suffix is None
    &&& h.optional matches Some(o) && o.client_type@ == "4"@
    &&& h.cookie@ == t.cookie@
}

/// Holds of an awaited handshake reply that the session accepts: a control
/// message named as a handshake reply, carrying a reply payload whose two
/// timeout fields are decimal numbers.
pub open spec fn hello_reply_accepted(reply: Option<SnxPacket>) -> bool {
    reply matches Some(SnxPacket::Control(n, ControlPayload::Reply(h)))
        && n@ == "hello_reply"@
        && parses_to_u64(h.timeouts.authentication@)
        && parses_to_u64(h.timeouts.keepalive@)
}

/// The reply payload of an accepted handshake reply.
pub open spec fn reply_of(reply: Option<SnxPacket>) -> HelloReply
    recommends
        hello_reply_accepted(reply),
{
    reply->0->Control_1->Reply_0
}

/// The error with which the handshake fails on a reply it does not accept.
pub open spec fn hello_reply_error(reply: Option<SnxPacket>) -> SnxError
    recommends
        !hello_reply_accepted(reply),
{
    match reply {
        None => SnxError::ChannelClosed,
        Some(p) => match p {
            SnxPacket::Data(_) => SnxError::UnexpectedReply,
            SnxPacket::Control(n, pl) => if n@ != "hello_reply"@ {
                SnxError::UnexpectedReply
            } else {
                match pl {
                    ControlPayload::Reply(h) => if !parses_to_u64(h.timeouts.authentication@) {
                        SnxError::InvalidAuthTimeout
                    } else {
                        SnxError::InvalidKeepaliveTimeout
                    },
                    _ => SnxError::MalformedReply,
                }
            },
        },
    }
}

/// Holds of the keepalive probe message: named as a keepalive, with the
/// fixed identifier payload.
pub open spec fn is_keepalive_probe(p: SnxPacket) -> bool {
    p matches SnxPacket::Control(n, ControlPayload::Keepalive(k)) && n@ == "keepalive"@ && k.id@
        == "0"@
}

/// The liveness counter after one inbound message: any data packet resets
/// it, a keepalive acknowledgment decrements it (floored at zero), any
/// other control message leaves it alone.
pub open spec fn counter_after_inbound(c: u64, p: SnxPacket) -> u64 {
    match p {
        SnxPacket::Data(_) => 0,
        SnxPacket::Control(n, _) => if n@ == "keepalive"@ {
            if c > 0 {
                (c - 1) as u64
            } else {
                0
            }
        } else {
            c
        },
    }
}

/// The liveness counter after a sequence of inbound messages.
pub open spec fn counter_after_inbound_seq(c: u64, ps: Seq<SnxPacket>) -> u64
    decreases ps.len(),
{
    if ps.len() == 0 {
        c
    } else {
        counter_after_inbound(counter_after_inbound_seq(c, ps.drop_last()), ps.last())
    }
}

/// What the inbound-handling task does with one message: forward a data
/// payload to the virtual interface, or nothing.
#[derive(Clone, Debug, PartialEq, Eq)]
pub enum InboundAction {
    WriteTun(Vec<u8>),
    Ignore,
}

/// The inbound-handling task's decision on one message, as a function of
/// the shared liveness counter: the counter's new value, and the data to
/// hand to the virtual interface if the message carried any.
pub fn process_inbound(counter: u64, packet: SnxPacket) -> (r: (u64, InboundAction))
    ensures
        r.0 == counter_after_inbound(counter, packet),
        packet matches SnxPacket::Data(d) ==> r.1 == InboundAction::WriteTun(d),
        packet is Control ==> r.1 is Ignore,
{
    match packet {
        SnxPacket::Control(name, _payload) => {
            let c = if name == keepalive_name().to_owned() {
                if counter > 0 {
                    counter - 1
                } else {
                    0
                }
            } else {
                counter
            };
            (c, InboundAction::Ignore)
        },
        SnxPacket::Data(data) => (0, InboundAction::WriteTun(data)),
    }
}

/// What the main loop observed: the keepalive timer fired, the virtual
/// interface produced a packet, or its packet stream ended.
#[derive(Clone, Debug, PartialEq, Eq)]
pub enum LoopEvent {
    TimerFired,
    TunPacket(Vec<u8>),
    TunClosed,
}

/// What the main loop must do next: send a message on the outbound queue,
/// or exit cleanly.
#[derive(Clone, Debug, PartialEq, Eq)]
pub enum StepAction {
    Send(SnxPacket),
    Finish,
}

impl SnxClient {
    pub fn new(params: &TunnelParams) -> (c: Self)
        ensures
            c.0 == *params,
    {
        SnxClient(params.clone())
    }

    /// Interprets the external authenticator's answer: only the literal
    /// status `"true"` with a present key counts as success; the key is
    /// hex-decoded and read as UTF-8, lossily, to yield the cookie.
    pub fn authenticate(&self, response: AuthResponse) -> (r: Result<(String, String), SnxError>)
        ensures
            r is Ok <==> (response.is_authenticated@ == "true"@ && response.active_key is Some
                && hex_input_valid(response.active_key->0@)),
            r matches Ok(sc) ==> sc.0@ == (if response.session_id is Some {
                response.session_id->0@
            } else {
                Seq::<char>::empty()
            }),
            r matches Ok(sc) ==> sc.1@ == lossy_utf8_of(hex_decoded(response.active_key->0@)),
            r matches Err(e) ==> e == (if response.is_authenticated@ == "true"@
                && response.active_key is Some {
                SnxError::InvalidHex
            } else {
                SnxError::AuthenticationFailed
            }),
    {
        if !(response.is_authenticated == "true".to_owned()) {
            return Err(SnxError::AuthenticationFailed);
        }
        let key = match response.active_key {
            Some(k) => k,
            None => {
                return Err(SnxError::AuthenticationFailed);
            },
        };
        let session_id = match response.session_id {
            Some(s) => s,
            None => String::new(),
        };
        let bytes = match decode_from_hex(key.as_str()) {
            Ok(b) => b,
            Err(e) => {
                return Err(e);
            },
        };
        let cookie = utf8_lossy(&bytes);
        Ok((session_id, cookie))
    }

    /// Builds a fresh session around the given credentials: timing zeroed,
    /// address unassigned, liveness counter at zero, handshake not yet run.
    /// Opening the transport that the session will speak over is the
    /// caller's side of this step.
    pub fn create_tunnel(&self, session_id: String, cookie: String) -> (t: SnxTunnel)
        ensures
            t.params == self.0,
            t.cookie == cookie,
            t.session_id == session_id,
            t.auth_timeout == 0,
            t.keepalive == 0,
            t.ip_address@ == "0.0.0.0"@,
            t.keepalive_counter == 0,
            t.state is Connected,
    {
        SnxTunnel {
            params: self.0.clone(),
            cookie,
            session_id,
            auth_timeout: 0,
            keepalive: 0,
            ip_address: "0.0.0.0".to_owned(),
            keepalive_counter: 0,
            state: SessionState::Connected,
        }
    }
}

impl SnxTunnel {
    /// Builds the handshake request from the session's current cookie and
    /// address, asking either for a fresh lease or for the current address
    /// to be kept.
    pub fn new_hello_request(&self, keep_address: bool) -> (h: ClientHello)
        ensures
            hello_request_matches(h, *self, keep_address),
    {
        ClientHello {
            client_version: "1".to_owned(),
            protocol_version: "1".to_owned(),
            protocol_minor_version: "1".to_owned(),
            office_mode: OfficeMode {
                ipaddr: self.ip_address.clone(),
                keep_address: Some(
                    if keep_address {
                        "true".to_owned()
                    } else {
                        "false".to_owned()
                    },
                ),
                dns_servers: None,
                dns_suffix: None,
            },
            optional: Some(OptionalRequest { client_type: "4".to_owned() }),
            cookie: self.cookie.clone(),
        }
    }

    /// Digests the one message awaited after the handshake request was
    /// sent.  On an accepted reply the assigned address and both timing
    /// parameters are taken over, the authentication timeout shortened by
    /// the reauthentication leeway; on anything else the session is left
    /// exactly as it was.
    pub fn client_hello(&mut self, reply: Option<SnxPacket>) -> (r: Result<HelloReply, SnxError>)
        ensures
            r is Ok <==> hello_reply_accepted(reply),
            r matches Ok(h) ==> h == reply_of(reply),
            r is Ok ==> final(self).ip_address@ == reply_of(reply).office_mode.ipaddr@,
            r is Ok ==> final(self).auth_timeout == spec_auth_timeout(
                dec_value(reply_of(reply).timeouts.authentication@),
            ),
            r is Ok ==> final(self).keepalive == dec_value(reply_of(reply).timeouts.keepalive@),
            r is Ok ==> final(self).state is Established,
            r is Ok ==> final(self).cookie == old(self).cookie,
            r is Ok ==> final(self).session_id == old(self).session_id,
            r is Ok ==> final(self).keepalive_counter == old(self).keepalive_counter,
            r is Ok ==> final(self).params == old(self).params,
            r is Err ==> *final(self) == *old(self),
            r matches Err(e) ==> e == hello_reply_error(reply),
    {
        let packet = match reply {
            Some(p) => p,
            None => {
                return Err(SnxError::ChannelClosed);
            },
        };
        let (name, payload) = match packet {
            SnxPacket::Control(n, pl) => (n, pl),
            SnxPacket::Data(_) => {
                return Err(SnxError::UnexpectedReply);
            },
        };
        if !(name == hello_reply_name().to_owned()) {
            return Err(SnxError::UnexpectedReply);
        }
        let h = match payload {
            ControlPayload::Reply(h) => h,
            _ => {
                return Err(SnxError::MalformedReply);
            },
        };
        let auth = match parse_u64(h.timeouts.authentication.as_str()) {
            Some(v) => v,
            None => {
                return Err(SnxError::InvalidAuthTimeout);
            },
        };
        let ka = match parse_u64(h.timeouts.keepalive.as_str()) {
            Some(v) => v,
            None => {
                return Err(SnxError::InvalidKeepaliveTimeout);
            },
        };
        self.ip_address = h.office_mode.ipaddr.clone();
        self.auth_timeout = auth_timeout_secs(auth);
        self.keepalive = ka;
        self.state = SessionState::Established;
        Ok(h)
    }

    /// Produces the next keepalive probe to send, or fails without touching
    /// anything once three probes are already unanswered: the tunnel is
    /// then considered dead and the caller must end the session.
    pub fn send_keepalive(&mut self) -> (r: Result<SnxPacket, SnxError>)
        ensures
            r is Ok <==> old(self).keepalive_counter < 3,
            old(self).keepalive_counter >= 3 ==> *final(self) == *old(self),
            r matches Err(e) ==> e == SnxError::TunnelStuck,
            r is Ok ==> final(self).keepalive_counter == old(self).keepalive_counter + 1,
            r matches Ok(p) ==> is_keepalive_probe(p),
            final(self).cookie == old(self).cookie,
            final(self).session_id == old(self).session_id,
            final(self).auth_timeout == old(self).auth_timeout,
            final(self).keepalive == old(self).keepalive,
            final(self).ip_address == old(self).ip_address,
            final(self).params == old(self).params,
            final(self).state == old(self).state,
    {
        if self.keepalive_counter >= 3 {
            return Err(SnxError::TunnelStuck);
        }
        self.keepalive_counter = self.keepalive_counter + 1;
        let req = KeepaliveRequest { id: "0".to_owned() };
        Ok(req.into_packet())
    }

    /// Digests one inbound message on behalf of the inbound-handling task:
    /// a data packet resets the liveness counter and is handed on to the
    /// virtual interface; a keepalive acknowledgment decrements the
    /// counter; any other control message changes nothing.
    pub fn handle_inbound(&mut self, packet: SnxPacket) -> (act: InboundAction)
        ensures
            final(self).keepalive_counter == counter_after_inbound(old(self).keepalive_counter, packet),
            packet matches SnxPacket::Data(d) ==> act == InboundAction::WriteTun(d),
            packet is Control ==> act is Ignore,
            final(self).cookie == old(self).cookie,
            final(self).session_id == old(self).session_id,
            final(self).auth_timeout == old(self).auth_timeout,
            final(self).keepalive == old(self).keepalive,
            final(self).ip_address == old(self).ip_address,
            final(self).params == old(self).params,
            final(self).state == old(self).state,
    {
        let (counter, action) = process_inbound(self.keepalive_counter, packet);
        self.keepalive_counter = counter;
        action
    }

    /// Replaces the session's credentials — both together, never one alone —
    /// and builds the follow-up handshake request that asks the gateway to
    /// keep the current address.
    pub fn apply_reauth(&mut self, session_id: String, cookie: String) -> (h: ClientHello)
        ensures
            final(self).session_id == session_id,
            final(self).cookie == cookie,
            final(self).auth_timeout == old(self).auth_timeout,
            final(self).keepalive == old(self).keepalive,
            final(self).ip_address == old(self).ip_address,
            final(self).keepalive_counter == old(self).keepalive_counter,
            final(self).params == old(self).params,
            final(self).state == old(self).state,
            hello_request_matches(h, *final(self), true),
    {
        self.session_id = session_id;
        self.cookie = cookie;
        self.new_hello_request(true)
    }

    /// Whether the credential deadline has passed and reauthentication is
    /// configured, so the run loop must refresh now.
    pub fn needs_reauth(&self, elapsed_secs: u64) -> (b: bool)
        ensures
            b == (self.params.reauth && elapsed_secs >= self.auth_timeout),
    {
        self.params.reauth && elapsed_secs >= self.auth_timeout
    }

    /// One decision of the steady-state main loop, reachable only once the
    /// handshake has completed: the keepalive timer firing triggers a
    /// probe, an outbound packet from the virtual interface is wrapped as
    /// data to send, and the end of the interface's stream finishes the
    /// loop cleanly.
    pub fn run_step(&mut self, event: LoopEvent) -> (r: Result<StepAction, SnxError>)
        requires
            old(self).state is Established,
        ensures
            event is TimerFired ==> (r is Ok <==> old(self).keepalive_counter < 3),
            event is TimerFired && old(self).keepalive_counter >= 3 ==> *final(self) == *old(self) && (
            r matches Err(e) && e == SnxError::TunnelStuck),
            event is TimerFired && r is Ok ==> final(self).keepalive_counter == old(
                self,
            ).keepalive_counter + 1 && (r matches Ok(a) && a matches StepAction::Send(p)
                && is_keepalive_probe(p)),
            event matches LoopEvent::TunPacket(d) ==> *final(self) == *old(self) && r
                == Ok::<StepAction, SnxError>(StepAction::Send(SnxPacket::Data(d))),
            event is TunClosed ==> *final(self) == *old(self) && r == Ok::<StepAction, SnxError>(
                StepAction::Finish,
            ),
            final(self).state is Established,
            final(self).cookie == old(self).cookie,
            final(self).session_id == old(self).session_id,
            final(self).auth_timeout == old(self).auth_timeout,
            final(self).keepalive == old(self).keepalive,
            final(self).ip_address == old(self).ip_address,
            final(self).params == old(self).params,
    {
        match event {
            LoopEvent::TimerFired => match self.send_keepalive() {
                Ok(p) => Ok(StepAction::Send(p)),
                Err(e) => Err(e),
            },
            LoopEvent::TunPacket(d) => Ok(StepAction::Send(SnxPacket::Data(d))),
            LoopEvent::TunClosed => Ok(StepAction::Finish),
        }
    }
}

/// Law: whatever its prior value, the liveness counter is zero immediately
/// after a sequence of inbound messages whose last one is a data packet.
pub proof fn lemma_data_resets_counter(c: u64, ps: Seq<SnxPacket>)
    requires
        ps.len() > 0,
        ps.last() is Data,
    ensures
        counter_after_inbound_seq(c, ps) == 0,
{
}

/// Acknowledgments decrement the counter one by one for as long as it has
/// room to fall without hitting the floor.
proof fn lemma_acks_decrement(c: u64, ps: Seq<SnxPacket>)
    requires
        forall|i: int| 0 <= i < ps.len() ==> is_keepalive_ack(#[trigger] ps[i]),
        c >= ps.len(),
    ensures
        counter_after_inbound_seq(c, ps) == c - ps.len(),
    decreases ps.len(),
{
    if ps.len() > 0 {
        assert(forall|i: int|
            0 <= i < ps.drop_last().len() ==> is_keepalive_ack(#[trigger] ps.drop_last()[i]))
            by {
            assert(forall|i: int|
                0 <= i < ps.drop_last().len() ==> ps.drop_last()[i] == #[trigger] ps[i]);
        }
        lemma_acks_decrement(c, ps.drop_last());
        assert(is_keepalive_ack(ps.last()));
    }
}

/// Law: after N keepalive probes that all succeeded — each one requires
/// fewer than three outstanding probes, so the counter rose from its prior
/// value c to c + N — a sequence of N keepalive acknowledgments returns the
/// counter to exactly c.
pub proof fn lemma_acks_restore_counter(c: u64, acks: Seq<SnxPacket>)
    requires
        c + acks.len() <= 3,
        forall|i: int| 0 <= i < acks.len() ==> is_keepalive_ack(#[trigger] acks[i]),
    ensures
        counter_after_inbound_seq((c + acks.len()) as u64, acks) == c,
{
    lemma_acks_decrement((c + acks.len()) as u64, acks);
}

} // verus!
