pub mod error;
pub mod hex;
pub mod model;
pub mod numeric;
pub mod text;
pub mod tunnel;

pub use error::SnxError;
pub use tunnel::{
    auth_timeout_secs, process_inbound, AuthResponse, InboundAction, LoopEvent, SessionState, SnxClient, SnxTunnel, StepAction,
    TunnelParams,
};
pub use model::{
    ClientHello, ControlPayload, HelloReply, KeepaliveRequest, OfficeMode, OptionalRequest,
    ReplyTimeouts, SnxPacket,
};
