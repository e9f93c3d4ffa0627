use vstd::prelude::*;

verus! {

/// Office-mode parameters carried both in the handshake request (the address
/// the client wants to keep) and in the reply (the address the server
/// assigned).
#[derive(Clone, Debug, PartialEq, Eq)]
pub struct OfficeMode {
    pub ipaddr: String,
    pub keep_address: Option<String>,
    pub dns_servers: Option<Vec<String>>,
    pub dns_suffix: Option<String>,
}

/// Optional extras of the handshake request.
#[derive(Clone, Debug, PartialEq, Eq)]
pub struct OptionalRequest {
    pub client_type: String,
}

/// The handshake request sent right after the transport is up, and again,
/// fire-and-forget, after every reauthentication.
#[derive(Clone, Debug, PartialEq, Eq)]
pub struct ClientHello {
    pub client_version: String,
    pub protocol_version: String,
    pub protocol_minor_version: String,
    pub office_mode: OfficeMode,
    pub optional: Option<OptionalRequest>,
    pub cookie: String,
}

/// The timing parameters of the handshake reply, as the decimal-seconds
/// strings the gateway sends.
#[derive(Clone, Debug, PartialEq, Eq)]
pub struct ReplyTimeouts {
    pub authentication: String,
    pub keepalive: String,
}

/// The handshake reply: the assigned address and the negotiated timing.
#[derive(Clone, Debug, PartialEq, Eq)]
pub struct HelloReply {
    pub office_mode: OfficeMode,
    pub timeouts: ReplyTimeouts,
}

/// The periodic liveness probe.
#[derive(Clone, Debug, PartialEq, Eq)]
pub struct KeepaliveRequest {
    pub id: String,
}

/// The structured payload of a control message, already decoded from the
/// wire representation by the codec.
#[derive(Clone, Debug, PartialEq, Eq)]
pub enum ControlPayload {
    Hello(ClientHello),
    Reply(HelloReply),
    Keepalive(KeepaliveRequest),
    Empty,
}

/// A protocol message: either a control message, dispatched by its name,
/// or a raw IP packet.
#[derive(Clone, Debug, PartialEq, Eq)]
pub enum SnxPacket {
    Control(String, ControlPayload),
    Data(Vec<u8>),
}

/// The protocol name of the handshake request.
pub fn client_hello_name() -> (r: &'static str)
    ensures
        r@ == "client_hello"@,
{
    "client_hello"
}

/// The protocol name of the handshake reply.
pub fn hello_reply_name() -> (r: &'static str)
    ensures
        r@ == "hello_reply"@,
{
    "hello_reply"
}

/// The protocol name shared by the keepalive probe and its acknowledgment.
pub fn keepalive_name() -> (r: &'static str)
    ensures
        r@ == "keepalive"@,
{
    "keepalive"
}

impl ClientHello {
    /// Wraps the request as a named control message.
    pub fn into_packet(self) -> (p: SnxPacket)
        ensures
            (p matches SnxPacket::Control(n, pl)
                && n@ == "client_hello"@
                && pl == ControlPayload::Hello(self)),
    {
        SnxPacket::Control(client_hello_name().to_owned(), ControlPayload::Hello(self))
    }
}

impl KeepaliveRequest {
    /// Wraps the probe as a named control message.
    pub fn into_packet(self) -> (p: SnxPacket)
        ensures
            (p matches SnxPacket::Control(n, pl)
                && n@ == "keepalive"@
                && pl == ControlPayload::Keepalive(self)),
    {
        SnxPacket::Control(keepalive_name().to_owned(), ControlPayload::Keepalive(self))
    }
}

/// Holds of a control message that acknowledges a keepalive probe: the
/// dispatch goes by the message name alone, the payload is not interpreted.
pub open spec fn is_keepalive_ack(p: SnxPacket) -> bool {
    p matches SnxPacket::Control(n, _) && n@ == "keepalive"@
}

} // verus!
