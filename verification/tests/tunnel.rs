use snx_tunnel::{
    AuthResponse, ClientHello, ControlPayload, HelloReply, InboundAction, LoopEvent, OfficeMode,
    ReplyTimeouts, SnxClient, SnxError, SnxPacket, StepAction, TunnelParams,
};

fn params() -> TunnelParams {
    TunnelParams { server_name: "gw.example.com".to_string(), reauth: true }
}

fn fresh_tunnel() -> snx_tunnel::SnxTunnel {
    let client = SnxClient::new(&params());
    client.create_tunnel("sess1".to_string(), "cookie1".to_string())
}

fn hello_reply_packet(ip: &str, auth: &str, ka: &str) -> SnxPacket {
    SnxPacket::Control(
        "hello_reply".to_string(),
        ControlPayload::Reply(HelloReply {
            office_mode: OfficeMode {
                ipaddr: ip.to_string(),
                keep_address: None,
                dns_servers: None,
                dns_suffix: None,
            },
            timeouts: ReplyTimeouts {
                authentication: auth.to_string(),
                keepalive: ka.to_string(),
            },
        }),
    )
}

fn established_tunnel() -> snx_tunnel::SnxTunnel {
    let mut t = fresh_tunnel();
    t.client_hello(Some(hello_reply_packet("10.0.0.5", "120", "30")))
        .unwrap();
    t
}

fn ack_packet() -> SnxPacket {
    SnxPacket::Control("keepalive".to_string(), ControlPayload::Empty)
}

#[test]
fn create_tunnel_defaults() {
    let t = fresh_tunnel();
    assert_eq!(t.session_id, "sess1");
    assert_eq!(t.cookie, "cookie1");
    assert_eq!(t.auth_timeout, 0);
    assert_eq!(t.keepalive, 0);
    assert_eq!(t.ip_address, "0.0.0.0");
    assert_eq!(t.keepalive_counter, 0);
    assert_eq!(t.params.server_name, "gw.example.com");
}

#[test]
fn hello_reply_sets_parameters() {
    let mut t = fresh_tunnel();
    let reply = t
        .client_hello(Some(hello_reply_packet("10.0.0.5", "120", "30")))
        .unwrap();
    assert_eq!(t.ip_address, "10.0.0.5");
    assert_eq!(t.auth_timeout, 60);
    assert_eq!(t.keepalive, 30);
    assert_eq!(reply.office_mode.ipaddr, "10.0.0.5");
}

#[test]
fn auth_timeout_leeway() {
    let mut t = fresh_tunnel();
    t.client_hello(Some(hello_reply_packet("10.0.0.5", "90", "30")))
        .unwrap();
    assert_eq!(t.auth_timeout, 30);
}

#[test]
fn auth_timeout_at_or_below_leeway_is_zero() {
    let mut t = fresh_tunnel();
    t.client_hello(Some(hello_reply_packet("10.0.0.5", "60", "30")))
        .unwrap();
    assert_eq!(t.auth_timeout, 0);

    let mut t = fresh_tunnel();
    t.client_hello(Some(hello_reply_packet("10.0.0.5", "45", "30")))
        .unwrap();
    assert_eq!(t.auth_timeout, 0);
}

#[test]
fn auth_timeout_largest_value() {
    let mut t = fresh_tunnel();
    t.client_hello(Some(hello_reply_packet(
        "10.0.0.5",
        "18446744073709551615",
        "30",
    )))
    .unwrap();
    assert_eq!(t.auth_timeout, u64::MAX - 60);
}

#[test]
fn non_numeric_auth_timeout_rejected() {
    let mut t = fresh_tunnel();
    let r = t.client_hello(Some(hello_reply_packet("10.0.0.5", "abc", "30")));
    assert_eq!(r, Err(SnxError::InvalidAuthTimeout));
    assert_eq!(t.ip_address, "0.0.0.0");
    assert_eq!(t.auth_timeout, 0);
    assert_eq!(t.keepalive, 0);
}

#[test]
fn non_numeric_keepalive_timeout_rejected() {
    let mut t = fresh_tunnel();
    let r = t.client_hello(Some(hello_reply_packet("10.0.0.5", "120", "3s")));
    assert_eq!(r, Err(SnxError::InvalidKeepaliveTimeout));
    assert_eq!(t.ip_address, "0.0.0.0");
}

#[test]
fn overflowing_auth_timeout_rejected() {
    let mut t = fresh_tunnel();
    let r = t.client_hello(Some(hello_reply_packet(
        "10.0.0.5",
        "18446744073709551616",
        "30",
    )));
    assert_eq!(r, Err(SnxError::InvalidAuthTimeout));
}

#[test]
fn empty_timeout_rejected() {
    let mut t = fresh_tunnel();
    let r = t.client_hello(Some(hello_reply_packet("10.0.0.5", "", "30")));
    assert_eq!(r, Err(SnxError::InvalidAuthTimeout));
}

#[test]
fn channel_closed_before_reply() {
    let mut t = fresh_tunnel();
    let r = t.client_hello(None);
    assert_eq!(r, Err(SnxError::ChannelClosed));
    assert_eq!(SnxError::ChannelClosed.message(), "Channel closed!");
}

#[test]
fn data_packet_is_unexpected_reply() {
    let mut t = fresh_tunnel();
    let r = t.client_hello(Some(SnxPacket::Data(vec![1, 2, 3])));
    assert_eq!(r, Err(SnxError::UnexpectedReply));
}

#[test]
fn other_control_is_unexpected_reply() {
    let mut t = fresh_tunnel();
    let r = t.client_hello(Some(SnxPacket::Control(
        "disconnect".to_string(),
        ControlPayload::Empty,
    )));
    assert_eq!(r, Err(SnxError::UnexpectedReply));
}

#[test]
fn wrong_payload_is_malformed_reply() {
    let mut t = fresh_tunnel();
    let r = t.client_hello(Some(SnxPacket::Control(
        "hello_reply".to_string(),
        ControlPayload::Empty,
    )));
    assert_eq!(r, Err(SnxError::MalformedReply));
}

#[test]
fn authenticate_success() {
    let client = SnxClient::new(&params());
    let response = AuthResponse {
        is_authenticated: "true".to_string(),
        active_key: Some("636f6f6b6965313233".to_string()),
        session_id: Some("sess1".to_string()),
    };
    let (session_id, cookie) = client.authenticate(response).unwrap();
    assert_eq!(session_id, "sess1");
    assert_eq!(cookie, "cookie123");
}

#[test]
fn authenticate_denied() {
    let client = SnxClient::new(&params());
    let response = AuthResponse {
        is_authenticated: "false".to_string(),
        active_key: Some("00".to_string()),
        session_id: Some("sess1".to_string()),
    };
    let r = client.authenticate(response);
    assert_eq!(r, Err(SnxError::AuthenticationFailed));
    assert_eq!(
        SnxError::AuthenticationFailed.message(),
        "Authentication failed!"
    );
}

#[test]
fn authenticate_missing_key_denied() {
    let client = SnxClient::new(&params());
    let response = AuthResponse {
        is_authenticated: "true".to_string(),
        active_key: None,
        session_id: Some("sess1".to_string()),
    };
    assert_eq!(
        client.authenticate(response),
        Err(SnxError::AuthenticationFailed)
    );
}

#[test]
fn authenticate_bad_hex_key() {
    let client = SnxClient::new(&params());
    let response = AuthResponse {
        is_authenticated: "true".to_string(),
        active_key: Some("zz".to_string()),
        session_id: None,
    };
    assert_eq!(client.authenticate(response), Err(SnxError::InvalidHex));

    let odd = AuthResponse {
        is_authenticated: "true".to_string(),
        active_key: Some("abc".to_string()),
        session_id: None,
    };
    assert_eq!(client.authenticate(odd), Err(SnxError::InvalidHex));
}

#[test]
fn authenticate_missing_session_id_defaults_empty() {
    let client = SnxClient::new(&params());
    let response = AuthResponse {
        is_authenticated: "true".to_string(),
        active_key: Some("61".to_string()),
        session_id: None,
    };
    let (session_id, cookie) = client.authenticate(response).unwrap();
    assert_eq!(session_id, "");
    assert_eq!(cookie, "a");
}

#[test]
fn authenticate_decodes_utf8_lossily() {
    let client = SnxClient::new(&params());
    let valid = AuthResponse {
        is_authenticated: "true".to_string(),
        active_key: Some("c3a9".to_string()),
        session_id: None,
    };
    assert_eq!(client.authenticate(valid).unwrap().1, "\u{e9}");

    let invalid = AuthResponse {
        is_authenticated: "true".to_string(),
        active_key: Some("ff".to_string()),
        session_id: None,
    };
    assert_eq!(client.authenticate(invalid).unwrap().1, "\u{fffd}");
}

#[test]
fn keepalive_increments_counter() {
    let mut t = established_tunnel();
    let p = t.send_keepalive().unwrap();
    assert_eq!(t.keepalive_counter, 1);
    match p {
        SnxPacket::Control(name, ControlPayload::Keepalive(k)) => {
            assert_eq!(name, "keepalive");
            assert_eq!(k.id, "0");
        }
        other => panic!("not a keepalive probe: {:?}", other),
    }
}

#[test]
fn keepalive_fails_once_stuck() {
    let mut t = established_tunnel();
    t.send_keepalive().unwrap();
    t.send_keepalive().unwrap();
    t.send_keepalive().unwrap();
    assert_eq!(t.keepalive_counter, 3);
    let r = t.send_keepalive();
    assert_eq!(r, Err(SnxError::TunnelStuck));
    assert_eq!(t.keepalive_counter, 3);
    assert_eq!(
        SnxError::TunnelStuck.message(),
        "No response for keepalive packets, tunnel appears stuck"
    );
}

#[test]
fn data_resets_counter() {
    let mut t = established_tunnel();
    t.send_keepalive().unwrap();
    t.send_keepalive().unwrap();
    assert_eq!(t.keepalive_counter, 2);
    let act = t.handle_inbound(SnxPacket::Data(vec![9, 9]));
    assert_eq!(t.keepalive_counter, 0);
    assert_eq!(act, InboundAction::WriteTun(vec![9, 9]));
}

#[test]
fn data_resets_counter_after_mixed_sequence() {
    let mut t = established_tunnel();
    t.send_keepalive().unwrap();
    t.send_keepalive().unwrap();
    t.send_keepalive().unwrap();
    t.handle_inbound(SnxPacket::Control(
        "disconnect".to_string(),
        ControlPayload::Empty,
    ));
    t.handle_inbound(ack_packet());
    let act = t.handle_inbound(SnxPacket::Data(vec![1]));
    assert_eq!(t.keepalive_counter, 0);
    assert_eq!(act, InboundAction::WriteTun(vec![1]));
}

#[test]
fn acks_restore_counter() {
    let mut t = established_tunnel();
    t.send_keepalive().unwrap();
    assert_eq!(t.keepalive_counter, 1);
    t.send_keepalive().unwrap();
    t.send_keepalive().unwrap();
    t.handle_inbound(ack_packet());
    t.handle_inbound(ack_packet());
    assert_eq!(t.keepalive_counter, 1);
}

#[test]
fn ack_at_zero_stays_at_zero() {
    let mut t = established_tunnel();
    assert_eq!(t.keepalive_counter, 0);
    let act = t.handle_inbound(ack_packet());
    assert_eq!(t.keepalive_counter, 0);
    assert_eq!(act, InboundAction::Ignore);
}

#[test]
fn other_control_leaves_counter() {
    let mut t = established_tunnel();
    t.send_keepalive().unwrap();
    let act = t.handle_inbound(SnxPacket::Control(
        "disconnect".to_string(),
        ControlPayload::Empty,
    ));
    assert_eq!(t.keepalive_counter, 1);
    assert_eq!(act, InboundAction::Ignore);
}

#[test]
fn hello_request_fields() {
    let t = fresh_tunnel();
    let h = t.new_hello_request(false);
    assert_eq!(h.client_version, "1");
    assert_eq!(h.protocol_version, "1");
    assert_eq!(h.protocol_minor_version, "1");
    assert_eq!(h.office_mode.ipaddr, "0.0.0.0");
    assert_eq!(h.office_mode.keep_address, Some("false".to_string()));
    assert_eq!(h.office_mode.dns_servers, None);
    assert_eq!(h.office_mode.dns_suffix, None);
    assert_eq!(h.optional.unwrap().client_type, "4");
    assert_eq!(h.cookie, "cookie1");
}

#[test]
fn apply_reauth_replaces_credentials_together() {
    let mut t = established_tunnel();
    let h = t.apply_reauth("sess2".to_string(), "cookie2".to_string());
    assert_eq!(t.session_id, "sess2");
    assert_eq!(t.cookie, "cookie2");
    assert_eq!(t.ip_address, "10.0.0.5");
    assert_eq!(h.office_mode.keep_address, Some("true".to_string()));
    assert_eq!(h.office_mode.ipaddr, "10.0.0.5");
    assert_eq!(h.cookie, "cookie2");
}

#[test]
fn needs_reauth_checks_flag_and_deadline() {
    let t = established_tunnel();
    assert_eq!(t.auth_timeout, 60);
    assert!(t.needs_reauth(60));
    assert!(t.needs_reauth(61));
    assert!(!t.needs_reauth(59));

    let mut off = SnxClient::new(&TunnelParams {
        server_name: "gw.example.com".to_string(),
        reauth: false,
    })
    .create_tunnel("s".to_string(), "c".to_string());
    off.client_hello(Some(hello_reply_packet("10.0.0.5", "120", "30")))
        .unwrap();
    assert!(!off.needs_reauth(1000));
}

#[test]
fn run_step_forwards_tun_packet() {
    let mut t = established_tunnel();
    let a = t.run_step(LoopEvent::TunPacket(vec![4, 5])).unwrap();
    assert_eq!(a, StepAction::Send(SnxPacket::Data(vec![4, 5])));
    assert_eq!(t.keepalive_counter, 0);
}

#[test]
fn run_step_finishes_on_tun_close() {
    let mut t = established_tunnel();
    let a = t.run_step(LoopEvent::TunClosed).unwrap();
    assert_eq!(a, StepAction::Finish);
}

#[test]
fn run_step_timer_sends_probe_or_fails_stuck() {
    let mut t = established_tunnel();
    match t.run_step(LoopEvent::TimerFired).unwrap() {
        StepAction::Send(SnxPacket::Control(name, _)) => assert_eq!(name, "keepalive"),
        other => panic!("not a probe: {:?}", other),
    }
    t.run_step(LoopEvent::TimerFired).unwrap();
    t.run_step(LoopEvent::TimerFired).unwrap();
    let r = t.run_step(LoopEvent::TimerFired);
    assert_eq!(r, Err(SnxError::TunnelStuck));
    assert_eq!(t.keepalive_counter, 3);
}

#[test]
fn auth_timeout_formula() {
    assert_eq!(snx_tunnel::auth_timeout_secs(90), 30);
    assert_eq!(snx_tunnel::auth_timeout_secs(61), 1);
    assert_eq!(snx_tunnel::auth_timeout_secs(60), 0);
    assert_eq!(snx_tunnel::auth_timeout_secs(0), 0);
    assert_eq!(snx_tunnel::auth_timeout_secs(u64::MAX), u64::MAX - 60);
}

#[test]
fn error_messages_cover_every_condition() {
    assert_eq!(SnxError::InvalidHex.message(), "Invalid hex string!");
    assert_eq!(SnxError::InvalidAuthTimeout.message(), "Invalid auth timeout!");
    assert_eq!(
        SnxError::InvalidKeepaliveTimeout.message(),
        "Invalid keepalive timeout!"
    );
    assert_eq!(SnxError::UnexpectedReply.message(), "Unexpected reply");
    assert_eq!(SnxError::MalformedReply.message(), "Malformed reply");
}

#[test]
fn process_inbound_decisions() {
    let (c, act) = snx_tunnel::process_inbound(2, SnxPacket::Data(vec![7]));
    assert_eq!(c, 0);
    assert_eq!(act, InboundAction::WriteTun(vec![7]));

    let (c, act) = snx_tunnel::process_inbound(2, ack_packet());
    assert_eq!(c, 1);
    assert_eq!(act, InboundAction::Ignore);

    let (c, _) = snx_tunnel::process_inbound(
        2,
        SnxPacket::Control("disconnect".to_string(), ControlPayload::Empty),
    );
    assert_eq!(c, 2);
}
