use vstd::prelude::*;

verus! {

/// The fatal conditions a session can report.  Every operation of the
/// library that can fail returns one of these; the run loop treats each of
/// them as session-ending.
#[derive(Clone, Copy, Debug, PartialEq, Eq, Structural)]
pub enum SnxError {
    /// The server denied the request or returned malformed credentials.
    AuthenticationFailed,
    /// The authenticator's key was not a valid hex string.
    InvalidHex,
    /// The handshake reply's authentication timeout was not a decimal number.
    InvalidAuthTimeout,
    /// The handshake reply's keepalive timeout was not a decimal number.
    InvalidKeepaliveTimeout,
    /// A message other than a handshake reply arrived while one was awaited.
    UnexpectedReply,
    /// A handshake reply arrived whose payload was not a well-formed reply.
    MalformedReply,
    /// The packet channel closed before the awaited message arrived.
    ChannelClosed,
    /// Three keepalive probes went unanswered: the tunnel is considered dead.
    TunnelStuck,
}

impl SnxError {
    /// The human-readable description of the condition.
    pub fn message(&self) -> (r: String)
        ensures
            *self is AuthenticationFailed ==> r@ == "Authentication failed!"@,
            *self is InvalidHex ==> r@ == "Invalid hex string!"@,
            *self is InvalidAuthTimeout ==> r@ == "Invalid auth timeout!"@,
            *self is InvalidKeepaliveTimeout ==> r@ == "Invalid keepalive timeout!"@,
            *self is UnexpectedReply ==> r@ == "Unexpected reply"@,
            *self is MalformedReply ==> r@ == "Malformed reply"@,
            *self is ChannelClosed ==> r@ == "Channel closed!"@,
            *self is TunnelStuck ==> r@ == "No response for keepalive packets, tunnel appears stuck"@,
    {
        match self {
            SnxError::AuthenticationFailed => "Authentication failed!".to_owned(),
            SnxError::InvalidHex => "Invalid hex string!".to_owned(),
            SnxError::InvalidAuthTimeout => "Invalid auth timeout!".to_owned(),
            SnxError::InvalidKeepaliveTimeout => "Invalid keepalive timeout!".to_owned(),
            SnxError::UnexpectedReply => "Unexpected reply".to_owned(),
            SnxError::MalformedReply => "Malformed reply".to_owned(),
            SnxError::ChannelClosed => "Channel closed!".to_owned(),
            SnxError::TunnelStuck => "No response for keepalive packets, tunnel appears stuck".to_owned(),
        }
    }
}

} // verus!
