//! Access control and pairing decisions for a node that only talks to the
//! devices it has been paired with.
//!
//! The library holds the rules of the node: which peers the control protocol
//! admits, how a pairing window opens and closes, how a control session reacts
//! to each message a peer sends, and how the outcome of an invite or a join is
//! judged. The networking itself is driven by the application around it.

mod access;
mod addr;
mod invite;
mod join;
mod peer;
mod session;

pub use access::{
    admits, allowed_peer_is_admitted, bytes_equal, forget_undoes_allow, forgotten_peer_is_refused,
    key_set,
    outbound_or_other_protocol_always_admitted, paired_peer_always_admitted,
    pairing_window_decides_for_strangers, parsable_ids_are_loaded, parsed_key_set,
    unparsable_ids_are_skipped, AccessState, AccessView, HandshakeVerdict, UNAUTHORIZED_CODE,
};
pub use addr::{
    connect_relays, control_connect_addr, dial_relays_are_home_and_stored, opt_text, parse_relay_url, parsed_relay_url,
    relay_mode_changed, texts, ConnectAddr,
};
pub use invite::{
    allowed_peer_can_be_invited, answer_decides_delivery, check_invite_target, forgotten_peer_cannot_be_invited,
    invite_delivered, invite_goes_only_to_paired_peers, invite_outcome, invite_target,
    silent_peer_counts_as_delivered, unreachable_invite_is_not_delivered, InviteAttempt,
    InviteError, InviteReply, InviteTarget,
};
pub use join::{
    accept_host_reply, plan_join, HostReply, JoinError, JoinedHost, PairedDeviceRecord,
};
pub use peer::{parsed_endpoint_id, PeerId};
pub use session::{
    access_changes_only_when_pairing_completes, accepts, completed_pairing_allows_remote,
    reading_session_takes_every_stream_event, remembered_info_is_what_the_peer_sent, same_info,
    vote_remembers_the_last_verified_info, remembered_by, closes_window,
    completed_pairing_votes_only_for_new_peers, end_of_stream_votes_only_for_known_new_peers,
    finished_session_takes_nothing, recognition_touches_only_when_signed, replies_carry_the_session_id,
    reply_of, reply_session_id, surfaced_invite_is_what_the_peer_sent,
    ui_report_acknowledges_only_delivered_invites, invite_needs_pairing, ready_to_pair, record,
    remember_vote, session_grants_access_only_by_pairing, session_never_revokes, session_run,
    session_step, step_facts, unverified_info_is_ignored, verified_pairing_info,
    vote_reply, vote_sent_only_to_new_peers, ControlSession, InviteOffer, OutgoingMessage,
    PeerInfo, SessionAction, SessionEvent, SessionOutcome, SessionPhase, SessionView,
};
