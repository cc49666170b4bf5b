use paired_node::{
    AccessState, ControlSession, InviteOffer, OutgoingMessage, PeerId, PeerInfo, SessionAction,
    SessionEvent, SessionPhase,
};

fn key(seed: u8) -> (String, PeerId) {
    let public = iroh::SecretKey::from_bytes(&[seed; 32]).public();
    (public.to_string(), PeerId::from_bytes(*public.as_bytes()))
}

fn info(seed: u8) -> PeerInfo {
    PeerInfo {
        endpoint_id: key(seed).0,
        display_name: format!("device {seed}"),
        device_type: "laptop".to_string(),
        os: "linux".to_string(),
    }
}

fn offer() -> InviteOffer {
    InviteOffer {
        blob_ticket: "blobticket".to_string(),
        file_count: 3,
        total_size: 4096,
        sender_name: "sender".to_string(),
    }
}

#[test]
fn stranger_pairs_with_info_then_vote() {
    let mut access = AccessState::new();
    access.open_pairing_host();
    let (_, remote) = key(1);
    let session = ControlSession::open(&access, remote, "sid-1".to_string());
    assert!(session.introduces_itself());
    assert_eq!(session.phase(), SessionPhase::Reading);

    let (session, action) = session.step(
        &mut access,
        SessionEvent::PairingInfo { info: info(1), signature_valid: true },
    );
    assert!(matches!(action, SessionAction::ReadNext));
    assert!(!access.is_allowed(&remote));

    let (session, action) = session.step(&mut access, SessionEvent::RememberVote { remember: true });
    assert_eq!(session.phase(), SessionPhase::Finished);
    match action {
        SessionAction::Finish(outcome) => {
            let remembered = outcome.remembered.expect("device remembered");
            assert_eq!(remembered.endpoint_id, key(1).0);
            assert_eq!(remembered.display_name, "device 1");
            match outcome.reply {
                Some(OutgoingMessage::RememberVote { session_id }) => assert_eq!(session_id, "sid-1"),
                other => panic!("expected a vote, got {other:?}"),
            }
            assert!(outcome.pairing_host_closed);
        }
        other => panic!("expected finish, got {other:?}"),
    }
    assert!(access.is_allowed(&remote));
    assert!(!access.pairing_host_open());
    assert!(!session.accepts(&SessionEvent::StreamEnded));
}

#[test]
fn vote_before_info_also_pairs() {
    let mut access = AccessState::new();
    let (_, remote) = key(2);
    let session = ControlSession::open(&access, remote, "sid-2".to_string());
    let (session, action) = session.step(&mut access, SessionEvent::RememberVote { remember: true });
    assert!(matches!(action, SessionAction::ReadNext));
    let (_, action) = session.step(
        &mut access,
        SessionEvent::PairingInfo { info: info(2), signature_valid: true },
    );
    assert!(matches!(action, SessionAction::Finish(ref o) if o.remembered.is_some()));
    assert!(access.is_allowed(&remote));
}

#[test]
fn allowed_remote_is_the_connection_not_the_named_id() {
    let mut access = AccessState::new();
    let (_, remote) = key(3);
    let session = ControlSession::open(&access, remote, "sid".to_string());
    let (session, _) = session.step(
        &mut access,
        SessionEvent::PairingInfo { info: info(9), signature_valid: true },
    );
    let (_, _) = session.step(&mut access, SessionEvent::RememberVote { remember: true });
    assert!(access.is_allowed(&remote));
    assert!(!access.is_allowed(&key(9).1));
}

#[test]
fn unverified_or_unparsable_info_is_ignored() {
    let mut access = AccessState::new();
    let (_, remote) = key(4);
    let session = ControlSession::open(&access, remote, "sid".to_string());
    let (session, action) = session.step(
        &mut access,
        SessionEvent::PairingInfo { info: info(4), signature_valid: false },
    );
    assert!(matches!(action, SessionAction::ReadNext));
    let mut bad = info(4);
    bad.endpoint_id = "not a key".to_string();
    let (session, action) =
        session.step(&mut access, SessionEvent::PairingInfo { info: bad, signature_valid: true });
    assert!(matches!(action, SessionAction::ReadNext));
    let (session, action) = session.step(&mut access, SessionEvent::RememberVote { remember: true });
    assert!(matches!(action, SessionAction::ReadNext));
    // the stream ends: nothing learned, so no vote is sent
    let (_, action) = session.step(&mut access, SessionEvent::StreamEnded);
    match action {
        SessionAction::Finish(o) => {
            assert!(o.remembered.is_none());
            assert!(o.reply.is_none());
            assert!(!o.pairing_host_closed);
        }
        other => panic!("expected finish, got {other:?}"),
    }
    assert!(!access.is_allowed(&remote));
}

#[test]
fn forget_vote_does_not_pair_but_vote_is_sent_back() {
    let mut access = AccessState::new();
    let (_, remote) = key(5);
    let session = ControlSession::open(&access, remote, "sid-5".to_string());
    let (session, _) = session.step(
        &mut access,
        SessionEvent::PairingInfo { info: info(5), signature_valid: true },
    );
    let (session, action) = session.step(&mut access, SessionEvent::RememberVote { remember: false });
    assert!(matches!(action, SessionAction::ReadNext));
    let (_, action) = session.step(&mut access, SessionEvent::StreamEnded);
    match action {
        SessionAction::Finish(o) => {
            assert!(o.remembered.is_none());
            assert!(matches!(o.reply, Some(OutgoingMessage::RememberVote { ref session_id }) if session_id == "sid-5"));
            assert!(!o.pairing_host_closed);
        }
        other => panic!("expected finish, got {other:?}"),
    }
    assert!(!access.is_allowed(&remote));
}

#[test]
fn paired_peer_does_not_get_vote_back() {
    let mut access = AccessState::new();
    let (_, remote) = key(6);
    access.allow_peer(remote);
    let session = ControlSession::open(&access, remote, "sid".to_string());
    assert!(!session.introduces_itself());
    let (session, _) = session.step(
        &mut access,
        SessionEvent::PairingInfo { info: info(6), signature_valid: true },
    );
    let (_, action) = session.step(&mut access, SessionEvent::RememberVote { remember: true });
    match action {
        SessionAction::Finish(o) => {
            assert!(o.remembered.is_some());
            assert!(o.reply.is_none());
            assert!(o.pairing_host_closed);
        }
        other => panic!("expected finish, got {other:?}"),
    }
}

#[test]
fn invite_from_paired_peer_is_surfaced_and_acknowledged() {
    let mut access = AccessState::new();
    let (_, remote) = key(7);
    access.allow_peer(remote);
    let session = ControlSession::open(&access, remote, "sid-7".to_string());
    let (session, action) = session.step(&mut access, SessionEvent::Invite(offer()));
    match action {
        SessionAction::SurfaceInvite(o) => {
            assert_eq!(o.blob_ticket, "blobticket");
            assert_eq!(o.file_count, 3);
            assert_eq!(o.total_size, 4096);
            assert_eq!(o.sender_name, "sender");
        }
        other => panic!("expected the invite, got {other:?}"),
    }
    assert_eq!(session.phase(), SessionPhase::AwaitingUi);
    assert!(!session.accepts(&SessionEvent::StreamEnded));
    assert!(session.accepts(&SessionEvent::InviteSurfaced { ui_notified: true }));
    let (session, action) = session.step(&mut access, SessionEvent::InviteSurfaced { ui_notified: true });
    match action {
        SessionAction::Finish(o) => {
            assert!(matches!(o.reply, Some(OutgoingMessage::InviteDelivered { ref session_id }) if session_id == "sid-7"));
            assert!(o.remembered.is_none());
            assert!(!o.pairing_host_closed);
        }
        other => panic!("expected finish, got {other:?}"),
    }
    assert_eq!(session.phase(), SessionPhase::Finished);
}

#[test]
fn invite_not_surfaced_gets_no_ack() {
    let mut access = AccessState::new();
    let (_, remote) = key(8);
    access.allow_peer(remote);
    let session = ControlSession::open(&access, remote, "sid".to_string());
    let (session, _) = session.step(&mut access, SessionEvent::Invite(offer()));
    let (_, action) = session.step(&mut access, SessionEvent::InviteSurfaced { ui_notified: false });
    assert!(matches!(action, SessionAction::Finish(ref o) if o.reply.is_none()));
}

#[test]
fn invite_from_stranger_is_skipped() {
    let mut access = AccessState::new();
    access.open_pairing_host();
    let (_, remote) = key(9);
    let session = ControlSession::open(&access, remote, "sid".to_string());
    let (session, action) = session.step(&mut access, SessionEvent::Invite(offer()));
    assert!(matches!(action, SessionAction::ReadNext));
    assert_eq!(session.phase(), SessionPhase::Reading);
}

#[test]
fn invite_is_judged_by_access_at_its_arrival() {
    let mut access = AccessState::new();
    let (text, remote) = key(10);
    access.allow_peer(remote);
    let session = ControlSession::open(&access, remote, "sid".to_string());
    access.forget_endpoint(&text);
    let (_, action) = session.step(&mut access, SessionEvent::Invite(offer()));
    assert!(matches!(action, SessionAction::ReadNext));
}

#[test]
fn recognition_touches_only_when_signed() {
    let mut access = AccessState::new();
    let (_, remote) = key(11);
    access.allow_peer(remote);
    let session = ControlSession::open(&access, remote, "sid".to_string());
    let (session, action) = session.step(&mut access, SessionEvent::Recognition { signature_valid: true });
    assert!(matches!(action, SessionAction::TouchRemote));
    let (session, action) = session.step(&mut access, SessionEvent::Recognition { signature_valid: false });
    assert!(matches!(action, SessionAction::ReadNext));
    let (_, action) = session.step(&mut access, SessionEvent::InviteResponse);
    assert!(matches!(action, SessionAction::ReadNext));
}

#[test]
fn reading_session_does_not_accept_ui_report() {
    let access = AccessState::new();
    let session = ControlSession::open(&access, key(12).1, "sid".to_string());
    assert!(!session.accepts(&SessionEvent::InviteSurfaced { ui_notified: true }));
    assert!(session.accepts(&SessionEvent::StreamEnded));
    assert!(session.remote().same(&key(12).1));
}
