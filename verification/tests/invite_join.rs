use std::str::FromStr;

use paired_node::{
    accept_host_reply, check_invite_target, control_connect_addr, invite_outcome, parse_relay_url,
    plan_join, relay_mode_changed, AccessState, HostReply, InviteAttempt, InviteError, InviteReply,
    JoinError, PairedDeviceRecord, PeerId, PeerInfo,
};

fn key(seed: u8) -> (String, PeerId) {
    let public = iroh::SecretKey::from_bytes(&[seed; 32]).public();
    (public.to_string(), PeerId::from_bytes(*public.as_bytes()))
}

fn info(seed: u8) -> PeerInfo {
    PeerInfo {
        endpoint_id: key(seed).0,
        display_name: "host".to_string(),
        device_type: "desktop".to_string(),
        os: "macos".to_string(),
    }
}

#[test]
fn invite_target_must_parse_and_be_paired() {
    let mut access = AccessState::new();
    let (text, peer) = key(1);
    match check_invite_target(&access, "bogus") {
        Err(InviteError::InvalidEndpointId(e)) => {
            let expected = iroh::EndpointId::from_str("bogus").unwrap_err();
            assert_eq!(e.to_string(), expected.to_string());
        }
        other => panic!("expected the parser's error, got {other:?}"),
    }
    assert!(matches!(check_invite_target(&access, &text), Err(InviteError::UnknownPairedDevice)));
    access.allow_peer(peer);
    let target = check_invite_target(&access, &text).expect("paired");
    assert!(target.same(&peer));
    access.forget_endpoint(&text);
    assert!(matches!(check_invite_target(&access, &text), Err(InviteError::UnknownPairedDevice)));
}

#[test]
fn invite_outcomes() {
    assert!(!invite_outcome(InviteAttempt::ConnectFailed));
    assert!(!invite_outcome(InviteAttempt::ConnectTimedOut));
    assert!(!invite_outcome(InviteAttempt::StreamOpenFailed));
    assert!(!invite_outcome(InviteAttempt::WriteFailed));
    assert!(invite_outcome(InviteAttempt::Answered(InviteReply::Delivered)));
    assert!(invite_outcome(InviteAttempt::Answered(InviteReply::Accepted)));
    assert!(!invite_outcome(InviteAttempt::Answered(InviteReply::OtherResponse)));
    assert!(!invite_outcome(InviteAttempt::Answered(InviteReply::OtherMessage)));
    assert!(invite_outcome(InviteAttempt::NoAnswer));
}

#[test]
fn relay_url_is_parsed_and_normalized() {
    assert_eq!(parse_relay_url("https://example.com").as_deref(), Some("https://example.com/"));
    assert_eq!(
        parse_relay_url("https://relay.example.org./").as_deref(),
        Some("https://relay.example.org./")
    );
    assert_eq!(parse_relay_url("not a url"), None);
}

#[test]
fn connect_addr_lists_each_relay_once() {
    let (_, peer) = key(2);
    let addr = control_connect_addr(peer, Some("https://a.example"), Some("https://b.example/".to_string()));
    assert!(addr.peer.same(&peer));
    assert_eq!(addr.relays, vec!["https://a.example/".to_string(), "https://b.example/".to_string()]);

    let addr = control_connect_addr(peer, Some("https://a.example"), Some("https://a.example/".to_string()));
    assert_eq!(addr.relays, vec!["https://a.example/".to_string()]);

    let addr = control_connect_addr(peer, Some("::bad"), Some("https://b.example/".to_string()));
    assert_eq!(addr.relays, vec!["https://b.example/".to_string()]);

    let addr = control_connect_addr(peer, None, None);
    assert!(addr.relays.is_empty());
}

#[test]
fn join_plan_needs_a_parsable_ticket_id() {
    let err = plan_join("nope", None).unwrap_err();
    assert_eq!(err.to_string(), iroh::EndpointId::from_str("nope").unwrap_err().to_string());
    let (text, peer) = key(3);
    let plan = plan_join(&text, Some("https://relay.example")).expect("valid");
    assert!(plan.peer.same(&peer));
    assert_eq!(plan.relays, vec!["https://relay.example/".to_string()]);
    let plan = plan_join(&text, Some("bad relay")).expect("valid");
    assert!(plan.relays.is_empty());
}

#[test]
fn host_reply_must_be_signed_pairing_info() {
    assert_eq!(
        accept_host_reply(HostReply::Other, 5, None).unwrap_err(),
        JoinError::ExpectedHostPairingInfo
    );
    let mut bad = info(4);
    bad.endpoint_id = "bad".to_string();
    assert_eq!(
        accept_host_reply(HostReply::PairingInfo { info: bad, signature_valid: true }, 5, None).unwrap_err(),
        JoinError::InvalidHostEndpointId
    );
    assert_eq!(
        accept_host_reply(HostReply::PairingInfo { info: info(4), signature_valid: false }, 5, None)
            .unwrap_err(),
        JoinError::HostSignatureInvalid
    );
    let joined = accept_host_reply(
        HostReply::PairingInfo { info: info(4), signature_valid: true },
        1234,
        Some("https://relay.example".to_string()),
    )
    .expect("accepted");
    assert!(joined.host.same(&key(4).1));
    assert_eq!(joined.device.endpoint_id, key(4).0);
    assert_eq!(joined.device.display_name, "host");
    assert_eq!(joined.device.device_type, "desktop");
    assert_eq!(joined.device.os, "macos");
    assert_eq!(joined.device.paired_at, 1234);
    assert_eq!(joined.device.last_seen_at, 1234);
    assert_eq!(joined.device.relay_url.as_deref(), Some("https://relay.example"));
}

#[test]
fn joined_host_is_then_admitted() {
    let mut access = AccessState::new();
    let joined = accept_host_reply(HostReply::PairingInfo { info: info(5), signature_valid: true }, 1, None)
        .expect("accepted");
    access.allow_peer(joined.host);
    assert!(access.is_allowed(&key(5).1));
    assert!(check_invite_target(&access, &key(5).0).is_ok());
}

#[test]
fn join_error_messages() {
    assert_eq!(JoinError::ExpectedHostPairingInfo.message(), "expected host PairingInfo");
    assert_eq!(JoinError::InvalidHostEndpointId.message(), "invalid host endpoint id");
    assert_eq!(JoinError::HostSignatureInvalid.message(), "host PairingInfo signature invalid");
}

#[test]
fn device_record_from_info() {
    let record = PairedDeviceRecord::new(info(6), 77, None);
    assert_eq!(record.endpoint_id, key(6).0);
    assert_eq!(record.paired_at, 77);
    assert_eq!(record.last_seen_at, 77);
    assert!(record.relay_url.is_none());
}

#[test]
fn relay_mode_change_detection() {
    assert!(!relay_mode_changed(&"Default".to_string(), &"Default".to_string()));
    assert!(relay_mode_changed(&"Default".to_string(), &"Disabled".to_string()));
}
