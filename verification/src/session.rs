use vstd::prelude::*;

use crate::access::{AccessState, AccessView};
use crate::peer::{parsed_endpoint_id, PeerId};

verus! {

/// What a peer says about itself when pairing: the fields of its pairing info
/// other than the signature.
#[derive(Debug)]
pub struct PeerInfo {
    pub endpoint_id: String,
    pub display_name: String,
    pub device_type: String,
    pub os: String,
}

/// A paired peer's offer to send files.
#[derive(Debug)]
pub struct InviteOffer {
    pub blob_ticket: String,
    pub file_count: u32,
    pub total_size: u64,
    pub sender_name: String,
}

/// What happened on an incoming control connection, as the session sees it.
/// A signature is judged by the caller against the connection's keying
/// material: for pairing info with the key that the info names (reported
/// invalid where that id does not parse), for a recognition with the
/// connection's remote key.
#[derive(Debug)]
pub enum SessionEvent {
    PairingInfo { info: PeerInfo, signature_valid: bool },
    RememberVote { remember: bool },
    Invite(InviteOffer),
    InviteResponse,
    Recognition { signature_valid: bool },
    /// Reading the next message failed or the stream ended.
    StreamEnded,
    /// The invite was handed to the user interface, which took it or not.
    InviteSurfaced { ui_notified: bool },
}

/// A message that the session sends back before it ends.
#[derive(Debug)]
pub enum OutgoingMessage {
    /// A vote to remember the peer.
    RememberVote { session_id: String },
    /// An acknowledgement that the invite reached the user interface.
    InviteDelivered { session_id: String },
}

/// How a session ended.
#[derive(Debug)]
pub struct SessionOutcome {
    /// The peer to store as a paired device (and to announce as paired).
    pub remembered: Option<PeerInfo>,
    /// The message to write to the peer.
    pub reply: Option<OutgoingMessage>,
    /// Whether the pairing window was closed, so that its expiry task ends too.
    pub pairing_host_closed: bool,
}

/// What the caller does next.
#[derive(Debug)]
pub enum SessionAction {
    /// Read the next message.
    ReadNext,
    /// Refresh the last-seen time of the remote peer's stored entry, then read on.
    TouchRemote,
    /// Hand the invite to the user interface and report back with `InviteSurfaced`.
    SurfaceInvite(InviteOffer),
    /// Carry out the outcome and close the session.
    Finish(SessionOutcome),
}

/// Where a session stands.
#[derive(Clone, Copy, Debug, PartialEq, Eq, Structural)]
pub enum SessionPhase {
    Reading,
    AwaitingUi,
    Finished,
}

/// The state of a session, as the contracts see it.
pub struct SessionView {
    pub remote: Seq<u8>,
    pub allowed_at_start: bool,
    pub session_id: String,
    pub remote_info: Option<PeerInfo>,
    pub last_vote: Option<bool>,
    pub phase: SessionPhase,
}

/// One incoming control connection, from the handshake to its end.
pub struct ControlSession {
    remote: PeerId,
    allowed_at_start: bool,
    session_id: String,
    remote_info: Option<PeerInfo>,
    last_vote: Option<bool>,
    phase: SessionPhase,
}

impl View for ControlSession {
    type V = SessionView;

    closed spec fn view(&self) -> SessionView {
        SessionView {
            remote: self.remote@,
            allowed_at_start: self.allowed_at_start,
            session_id: self.session_id,
            remote_info: self.remote_info,
            last_vote: self.last_vote,
            phase: self.phase,
        }
    }
}

/// Pairing completes once the peer's info is known and its last vote is to remember.
pub open spec fn ready_to_pair(info: Option<PeerInfo>, last_vote: Option<bool>) -> bool {
    info is Some && last_vote == Some(true)
}

/// The vote sent back when a session ends: only a peer that was not paired
/// when it connected, and whose info is known, is asked to remember this node.
pub open spec fn vote_reply(s: SessionView, info: Option<PeerInfo>) -> Option<OutgoingMessage> {
    if info is Some && !s.allowed_at_start {
        Some(OutgoingMessage::RememberVote { session_id: s.session_id })
    } else {
        None
    }
}

/// Records the peer's info and last vote, and completes the pairing when both
/// are in: the remote is then allowed, the pairing window closed, the info
/// remembered, and the session finished.
pub open spec fn record(
    s: SessionView,
    a: AccessView,
    info: Option<PeerInfo>,
    last_vote: Option<bool>,
) -> (SessionView, AccessView, SessionAction) {
    if ready_to_pair(info, last_vote) {
        (
            SessionView { remote_info: info, last_vote, phase: SessionPhase::Finished, ..s },
            AccessView { allowed: a.allowed.insert(s.remote), pairing_host_open: false },
            SessionAction::Finish(
                SessionOutcome { remembered: info, reply: vote_reply(s, info), pairing_host_closed: true },
            ),
        )
    } else {
        (SessionView { remote_info: info, last_vote, ..s }, a, SessionAction::ReadNext)
    }
}

/// Which events a session takes in each phase.
pub open spec fn accepts(phase: SessionPhase, e: SessionEvent) -> bool {
    match phase {
        SessionPhase::Reading => !(e is InviteSurfaced),
        SessionPhase::AwaitingUi => e is InviteSurfaced,
        SessionPhase::Finished => false,
    }
}

/// One step of a session: the next state, the access state after it, and what
/// the caller does next.
///
/// A session that reads is never ready to pair (it would have finished), so an
/// invite response or a recognition never completes a pairing.
pub open spec fn session_step(s: SessionView, a: AccessView, e: SessionEvent) -> (
    SessionView,
    AccessView,
    SessionAction,
) {
    match e {
        SessionEvent::PairingInfo { info, signature_valid } => {
            if parsed_endpoint_id(info.endpoint_id@) is Some && signature_valid {
                record(s, a, Some(info), s.last_vote)
            } else {
                (s, a, SessionAction::ReadNext)
            }
        },
        SessionEvent::RememberVote { remember } => record(s, a, s.remote_info, Some(remember)),
        SessionEvent::Invite(offer) => {
            if a.allowed.contains(s.remote) {
                (SessionView { phase: SessionPhase::AwaitingUi, ..s }, a, SessionAction::SurfaceInvite(offer))
            } else {
                (s, a, SessionAction::ReadNext)
            }
        },
        SessionEvent::InviteResponse => (s, a, SessionAction::ReadNext),
        SessionEvent::Recognition { signature_valid } => (
            s,
            a,
            if signature_valid {
                SessionAction::TouchRemote
            } else {
                SessionAction::ReadNext
            },
        ),
        SessionEvent::StreamEnded => (
            SessionView { phase: SessionPhase::Finished, ..s },
            a,
            SessionAction::Finish(
                SessionOutcome {
                    remembered: None,
                    reply: vote_reply(s, s.remote_info),
                    pairing_host_closed: false,
                },
            ),
        ),
        SessionEvent::InviteSurfaced { ui_notified } => (
            SessionView { phase: SessionPhase::Finished, ..s },
            a,
            SessionAction::Finish(
                SessionOutcome {
                    remembered: None,
                    reply: if ui_notified {
                        Some(OutgoingMessage::InviteDelivered { session_id: s.session_id })
                    } else {
                        None
                    },
                    pairing_host_closed: false,
                },
            ),
        ),
    }
}

impl ControlSession {
    #[verifier::type_invariant]
    closed spec fn never_ready_while_open(self) -> bool {
        self.phase != SessionPhase::Finished ==> !ready_to_pair(self.remote_info, self.last_vote)
    }

    /// Opens a session with `remote`, which is paired or not at this moment.
    pub fn open(access: &AccessState, remote: PeerId, session_id: String) -> (session: ControlSession)
        ensures
            session@ == (SessionView {
                remote: remote@,
                allowed_at_start: access@.allowed.contains(remote@),
                session_id,
                remote_info: None,
                last_vote: None,
                phase: SessionPhase::Reading,
            }),
    {
        let allowed_at_start = access.is_allowed(&remote);
        ControlSession {
            remote,
            allowed_at_start,
            session_id,
            remote_info: None,
            last_vote: None,
            phase: SessionPhase::Reading,
        }
    }

    /// Whether this node sends its own pairing info first: it does to a peer
    /// that was not paired when it connected.
    pub fn introduces_itself(&self) -> (introduces: bool)
        ensures
            introduces == !self@.allowed_at_start,
    {
        !self.allowed_at_start
    }

    /// The remote peer.
    pub fn remote(&self) -> (remote: PeerId)
        ensures
            remote@ == self@.remote,
    {
        self.remote
    }

    /// Where the session stands.
    pub fn phase(&self) -> (phase: SessionPhase)
        ensures
            phase == self@.phase,
    {
        self.phase
    }

    /// Whether the session takes `event` now.
    pub fn accepts(&self, event: &SessionEvent) -> (ok: bool)
        ensures
            ok == accepts(self@.phase, *event),
    {
        match self.phase {
            SessionPhase::Reading => !matches!(event, SessionEvent::InviteSurfaced { .. }),
            SessionPhase::AwaitingUi => matches!(event, SessionEvent::InviteSurfaced { .. }),
            SessionPhase::Finished => false,
        }
    }

    /// Records the peer's info and vote for the session with these fixed parts (see `record`).
    fn settle(
        remote: PeerId,
        allowed_at_start: bool,
        session_id: String,
        access: &mut AccessState,
        info: Option<PeerInfo>,
        last_vote: Option<bool>,
        Ghost(s): Ghost<SessionView>,
    ) -> (next: (ControlSession, SessionAction))
        requires
            s.remote == remote@,
            s.allowed_at_start == allowed_at_start,
            s.session_id == session_id,
            s.phase == SessionPhase::Reading,
        ensures
            (next.0@, final(access)@, next.1) == record(s, old(access)@, info, last_vote),
    {
        let ready = match (&info, last_vote) {
            (Some(_), Some(true)) => true,
            _ => false,
        };
        if ready {
            access.allow_peer(remote);
            access.close_pairing_host();
            let reply = if !allowed_at_start {
                Some(OutgoingMessage::RememberVote { session_id: session_id.clone() })
            } else {
                None
            };
            let remembered = match &info {
                Some(i) => Some(PeerInfo {
                    endpoint_id: i.endpoint_id.clone(),
                    display_name: i.display_name.clone(),
                    device_type: i.device_type.clone(),
                    os: i.os.clone(),
                }),
                None => None,
            };
            let next = ControlSession {
                remote,
                allowed_at_start,
                session_id,
                remote_info: info,
                last_vote,
                phase: SessionPhase::Finished,
            };
            (next, SessionAction::Finish(SessionOutcome { remembered, reply, pairing_host_closed: true }))
        } else {
            let next = ControlSession {
                remote,
                allowed_at_start,
                session_id,
                remote_info: info,
                last_vote,
                phase: SessionPhase::Reading,
            };
            (next, SessionAction::ReadNext)
        }
    }

    /// Takes one event and returns the next state of the session and what the
    /// caller does next; the access state changes only when a pairing completes.
    pub fn step(self, access: &mut AccessState, event: SessionEvent) -> (next: (ControlSession, SessionAction))
        requires
            accepts(self@.phase, event),
        ensures
            (next.0@, final(access)@, next.1) == session_step(self@, old(access)@, event),
    {
        proof { use_type_invariant(&self); }
        match event {
            SessionEvent::PairingInfo { info, signature_valid } => {
                let parses = PeerId::parse(info.endpoint_id.as_str()).is_some();
                if parses && signature_valid {
                    let ghost s = self@;
                    let ControlSession { remote, allowed_at_start, session_id, remote_info: _, last_vote, phase: _ } =
                        self;
                    Self::settle(remote, allowed_at_start, session_id, access, Some(info), last_vote, Ghost(s))
                } else {
                    (self, SessionAction::ReadNext)
                }
            },
            SessionEvent::RememberVote { remember } => {
                let ghost s = self@;
                let ControlSession { remote, allowed_at_start, session_id, remote_info, last_vote: _, phase: _ } =
                    self;
                Self::settle(remote, allowed_at_start, session_id, access, remote_info, Some(remember), Ghost(s))
            },
            SessionEvent::Invite(offer) => {
                if access.is_allowed(&self.remote) {
                    let ControlSession { remote, allowed_at_start, session_id, remote_info, last_vote, phase: _ } =
                        self;
                    let next = ControlSession {
                        remote,
                        allowed_at_start,
                        session_id,
                        remote_info,
                        last_vote,
                        phase: SessionPhase::AwaitingUi,
                    };
                    (next, SessionAction::SurfaceInvite(offer))
                } else {
                    (self, SessionAction::ReadNext)
                }
            },
            SessionEvent::InviteResponse => (self, SessionAction::ReadNext),
            SessionEvent::Recognition { signature_valid } => {
                if signature_valid {
                    (self, SessionAction::TouchRemote)
                } else {
                    (self, SessionAction::ReadNext)
                }
            },
            SessionEvent::StreamEnded => {
                let reply = if self.remote_info.is_some() && !self.allowed_at_start {
                    Some(OutgoingMessage::RememberVote { session_id: self.session_id.clone() })
                } else {
                    None
                };
                let ControlSession { remote, allowed_at_start, session_id, remote_info, last_vote, phase: _ } =
                    self;
                let next = ControlSession {
                    remote,
                    allowed_at_start,
                    session_id,
                    remote_info,
                    last_vote,
                    phase: SessionPhase::Finished,
                };
                (
                    next,
                    SessionAction::Finish(SessionOutcome { remembered: None, reply, pairing_host_closed: false }),
                )
            },
            SessionEvent::InviteSurfaced { ui_notified } => {
                let reply = if ui_notified {
                    Some(OutgoingMessage::InviteDelivered { session_id: self.session_id.clone() })
                } else {
                    None
                };
                let ControlSession { remote, allowed_at_start, session_id, remote_info, last_vote, phase: _ } =
                    self;
                let next = ControlSession {
                    remote,
                    allowed_at_start,
                    session_id,
                    remote_info,
                    last_vote,
                    phase: SessionPhase::Finished,
                };
                (
                    next,
                    SessionAction::Finish(SessionOutcome { remembered: None, reply, pairing_host_closed: false }),
                )
            },
        }
    }
}

/// Whether an event is pairing info that names a key that parses and is signed by it.
pub open spec fn verified_pairing_info(e: SessionEvent) -> bool {
    e matches SessionEvent::PairingInfo { info, signature_valid } && signature_valid && parsed_endpoint_id(
        info.endpoint_id@,
    ) is Some
}

/// Whether an event is a vote to remember.
pub open spec fn remember_vote(e: SessionEvent) -> bool {
    e matches SessionEvent::RememberVote { remember } && remember
}

/// The state of a session and of access after it took `events` in turn.
pub open spec fn session_run(s: SessionView, a: AccessView, events: Seq<SessionEvent>) -> (SessionView, AccessView)
    decreases events.len(),
{
    if events.len() == 0 {
        (s, a)
    } else {
        let next = session_step(s, a, events[0]);
        session_run(next.0, next.1, events.drop_first())
    }
}

/// An invite reaches the user interface only from a peer that is paired when it arrives.
pub proof fn invite_needs_pairing(s: SessionView, a: AccessView, offer: InviteOffer)
    requires
        session_step(s, a, SessionEvent::Invite(offer)).2 is SurfaceInvite,
    ensures
        a.allowed.contains(s.remote),
{
}

/// Pairing info that does not name a parsable key, or is not signed by it, is
/// ignored: nothing changes and the session reads on.
pub proof fn unverified_info_is_ignored(s: SessionView, a: AccessView, info: PeerInfo, signature_valid: bool)
    requires
        !verified_pairing_info(SessionEvent::PairingInfo { info, signature_valid }),
    ensures
        session_step(s, a, SessionEvent::PairingInfo { info, signature_valid }) == (s, a, SessionAction::ReadNext),
{
}

/// When a session remembers a peer, the peer's info is known and its last vote
/// was to remember; the remote is then allowed, the pairing window is closed,
/// and the session is finished.
pub proof fn completed_pairing_allows_remote(s: SessionView, a: AccessView, e: SessionEvent)
    requires
        session_step(s, a, e).2 matches SessionAction::Finish(outcome) && outcome.remembered is Some,
    ensures
        ({
            let (s2, a2, act) = session_step(s, a, e);
            &&& ready_to_pair(s2.remote_info, s2.last_vote)
            &&& act->Finish_0.remembered == s2.remote_info
            &&& a2.allowed == a.allowed.insert(s.remote)
            &&& !a2.pairing_host_open
            &&& s2.phase == SessionPhase::Finished
        }),
{
}

/// A session asks the peer to remember this node only when the peer's info is
/// known and the peer was not paired when it connected.
pub proof fn vote_sent_only_to_new_peers(s: SessionView, a: AccessView, e: SessionEvent)
    requires
        session_step(s, a, e).2 matches SessionAction::Finish(outcome) && outcome.reply matches Some(
            OutgoingMessage::RememberVote { .. },
        ),
    ensures
        !s.allowed_at_start,
        session_step(s, a, e).0.remote_info is Some,
{
}

/// One step keeps the session's fixed parts, learns the peer's info only from
/// verified pairing info and a remember vote only from such a vote, and grants
/// access to nobody but the remote, and to it only when pairing completes.
pub proof fn step_facts(s: SessionView, a: AccessView, e: SessionEvent)
    ensures
        ({
            let (s2, a2, _) = session_step(s, a, e);
            &&& s2.remote == s.remote
            &&& s2.allowed_at_start == s.allowed_at_start
            &&& s2.session_id == s.session_id
            &&& (s2.remote_info is Some ==> s.remote_info is Some || verified_pairing_info(e))
            &&& (s2.last_vote == Some(true) ==> s.last_vote == Some(true) || remember_vote(e))
            &&& a.allowed.subset_of(a2.allowed)
            &&& (forall|key: Seq<u8>| #[trigger] a2.allowed.contains(key) ==>
                a.allowed.contains(key) || (key == s.remote && ready_to_pair(s2.remote_info, s2.last_vote)))
        }),
{
}

/// Over a whole session, a peer gains access only if it is the session's
/// remote, it sent verified pairing info (or it was known before), and it voted
/// to remember (or had before); nobody loses access.
pub proof fn session_grants_access_only_by_pairing(
    s: SessionView,
    a: AccessView,
    events: Seq<SessionEvent>,
    key: Seq<u8>,
)
    requires
        !a.allowed.contains(key),
        session_run(s, a, events).1.allowed.contains(key),
    ensures
        key == s.remote,
        s.remote_info is Some || exists|i: int| 0 <= i < events.len() && verified_pairing_info(#[trigger] events[i]),
        s.last_vote == Some(true) || exists|i: int| 0 <= i < events.len() && remember_vote(#[trigger] events[i]),
    decreases events.len(),
{
    if events.len() == 0 {
    } else {
        let next = session_step(s, a, events[0]);
        step_facts(s, a, events[0]);
        let rest = events.drop_first();
        if next.1.allowed.contains(key) {
            if !(s.remote_info is Some) {
                assert(verified_pairing_info(events[0]));
            }
            if !(s.last_vote == Some(true)) {
                assert(remember_vote(events[0]));
            }
        } else {
            session_grants_access_only_by_pairing(next.0, next.1, rest, key);
            if !(s.remote_info is Some) {
                if verified_pairing_info(events[0]) {
                } else {
                    let j = choose|j: int| 0 <= j < rest.len() && verified_pairing_info(#[trigger] rest[j]);
                    assert(events[j + 1] == rest[j]);
                }
            }
            if !(s.last_vote == Some(true)) {
                if remember_vote(events[0]) {
                } else {
                    let j = choose|j: int| 0 <= j < rest.len() && remember_vote(#[trigger] rest[j]);
                    assert(events[j + 1] == rest[j]);
                }
            }
        }
    }
}

/// Whether two peer infos agree field for field.
pub open spec fn same_info(x: PeerInfo, y: PeerInfo) -> bool {
    &&& x.endpoint_id == y.endpoint_id
    &&& x.display_name == y.display_name
    &&& x.device_type == y.device_type
    &&& x.os == y.os
}

/// The device that an action remembers, if any.
pub open spec fn remembered_by(act: SessionAction) -> Option<PeerInfo> {
    match act {
        SessionAction::Finish(o) => o.remembered,
        _ => None,
    }
}

/// Whether an action reports that the pairing window was closed.
pub open spec fn closes_window(act: SessionAction) -> bool {
    match act {
        SessionAction::Finish(o) => o.pairing_host_closed,
        _ => false,
    }
}

/// Verified pairing info replaces what the session knew of the peer with
/// exactly what the peer sent, field for field; if the peer had already voted
/// to remember, the pairing completes and the device remembered is exactly that
/// info. Anything remembered on this step is that info.
pub proof fn remembered_info_is_what_the_peer_sent(
    s: SessionView,
    a: AccessView,
    info: PeerInfo,
    signature_valid: bool,
)
    requires
        signature_valid,
        parsed_endpoint_id(info.endpoint_id@) is Some,
    ensures
        ({
            let (s2, a2, act) = session_step(s, a, SessionEvent::PairingInfo { info, signature_valid });
            &&& s2.remote_info is Some && same_info(s2.remote_info->0, info)
            &&& remembered_by(act) is Some ==> same_info(remembered_by(act)->0, info)
            &&& s.last_vote == Some(true) ==> remembered_by(act) is Some
            &&& s.last_vote != Some(true) ==> act is ReadNext
        }),
{
}

/// A remember vote that completes a pairing remembers exactly the verified
/// info that the peer sent last, field for field; a vote to forget remembers nothing.
pub proof fn vote_remembers_the_last_verified_info(s: SessionView, a: AccessView, remember: bool)
    ensures
        ({
            let (s2, a2, act) = session_step(s, a, SessionEvent::RememberVote { remember });
            &&& (remember && s.remote_info is Some) ==> remembered_by(act) is Some && same_info(
                remembered_by(act)->0,
                s.remote_info->0,
            )
            &&& !remember ==> act is ReadNext
            &&& s2.remote_info == s.remote_info
        }),
{
}

/// A reading session takes every event that comes from the peer's stream:
/// pairing info, votes, invites, invite responses, recognitions and the end of
/// the stream; it takes the user interface's report only while it awaits it.
pub proof fn reading_session_takes_every_stream_event(e: SessionEvent)
    ensures
        !(e is InviteSurfaced) ==> accepts(SessionPhase::Reading, e),
        e is InviteSurfaced ==> accepts(SessionPhase::AwaitingUi, e),
        forall|offer: InviteOffer| accepts(SessionPhase::Reading, SessionEvent::Invite(offer)),
        forall|valid: bool| accepts(SessionPhase::Reading, SessionEvent::Recognition { signature_valid: valid }),
        forall|info: PeerInfo, valid: bool|
            accepts(SessionPhase::Reading, SessionEvent::PairingInfo { info, signature_valid: valid }),
        forall|remember: bool| accepts(SessionPhase::Reading, SessionEvent::RememberVote { remember }),
        accepts(SessionPhase::Reading, SessionEvent::InviteResponse),
        accepts(SessionPhase::Reading, SessionEvent::StreamEnded),
{
}

/// A step leaves the access state untouched unless it completes a pairing; the
/// pairing window is closed only by a completed pairing, which reports it.
pub proof fn access_changes_only_when_pairing_completes(s: SessionView, a: AccessView, e: SessionEvent)
    ensures
        ({
            let (s2, a2, act) = session_step(s, a, e);
            &&& remembered_by(act) is Some || a2 == a
            &&& a2.pairing_host_open != a.pairing_host_open ==> closes_window(act)
            &&& closes_window(act) ==> !a2.pairing_host_open && remembered_by(act) is Some
        }),
{
}

/// The message that an action sends back, if any.
pub open spec fn reply_of(act: SessionAction) -> Option<OutgoingMessage> {
    match act {
        SessionAction::Finish(o) => o.reply,
        _ => None,
    }
}

/// The session id that an outgoing message carries.
pub open spec fn reply_session_id(m: OutgoingMessage) -> String {
    match m {
        OutgoingMessage::RememberVote { session_id } => session_id,
        OutgoingMessage::InviteDelivered { session_id } => session_id,
    }
}

/// An invite from a peer that is paired when it arrives is handed to the user
/// interface exactly as the peer sent it, and the session then waits for the
/// interface's report; from any other peer it is skipped and reading goes on.
pub proof fn surfaced_invite_is_what_the_peer_sent(s: SessionView, a: AccessView, offer: InviteOffer)
    ensures
        ({
            let (s2, a2, act) = session_step(s, a, SessionEvent::Invite(offer));
            &&& a2 == a
            &&& a.allowed.contains(s.remote) ==> act is SurfaceInvite && act->SurfaceInvite_0.blob_ticket
                == offer.blob_ticket && act->SurfaceInvite_0.file_count == offer.file_count
                && act->SurfaceInvite_0.total_size == offer.total_size && act->SurfaceInvite_0.sender_name
                == offer.sender_name && s2.phase == SessionPhase::AwaitingUi
            &&& !a.allowed.contains(s.remote) ==> act is ReadNext && s2 == s
        }),
{
}

/// Every message sent back carries the session's own id.
pub proof fn replies_carry_the_session_id(s: SessionView, a: AccessView, e: SessionEvent)
    ensures
        ({
            let (s2, a2, act) = session_step(s, a, e);
            reply_of(act) is Some ==> reply_session_id(reply_of(act)->0) == s.session_id
        }),
{
}

/// When the stream ends, nothing is remembered and the window stays as it is;
/// a vote to remember is sent back exactly when the peer's info is known and
/// the peer was not paired when it connected.
pub proof fn end_of_stream_votes_only_for_known_new_peers(s: SessionView, a: AccessView)
    ensures
        ({
            let (s2, a2, act) = session_step(s, a, SessionEvent::StreamEnded);
            &&& act is Finish
            &&& remembered_by(act) is None
            &&& !closes_window(act)
            &&& a2 == a
            &&& s2.phase == SessionPhase::Finished
            &&& (reply_of(act) is Some <==> (s.remote_info is Some && !s.allowed_at_start))
            &&& reply_of(act) is Some ==> reply_of(act)->0 is RememberVote
        }),
{
}

/// After the user interface's report the session ends: an acknowledgement is
/// sent exactly when the invite reached the interface, and nothing else happens.
pub proof fn ui_report_acknowledges_only_delivered_invites(s: SessionView, a: AccessView, ui_notified: bool)
    ensures
        ({
            let (s2, a2, act) = session_step(s, a, SessionEvent::InviteSurfaced { ui_notified });
            &&& act is Finish
            &&& remembered_by(act) is None
            &&& !closes_window(act)
            &&& a2 == a
            &&& (reply_of(act) is Some <==> ui_notified)
            &&& reply_of(act) is Some ==> reply_of(act)->0 is InviteDelivered
        }),
{
}

/// A recognition refreshes the peer's last-seen time exactly when it is
/// correctly signed; either way the session keeps reading and nothing changes.
pub proof fn recognition_touches_only_when_signed(s: SessionView, a: AccessView, signature_valid: bool)
    ensures
        ({
            let (s2, a2, act) = session_step(s, a, SessionEvent::Recognition { signature_valid });
            &&& s2 == s
            &&& a2 == a
            &&& (act is TouchRemote <==> signature_valid)
            &&& (!signature_valid ==> act is ReadNext)
        }),
{
}

/// A finished session takes no further event.
pub proof fn finished_session_takes_nothing(e: SessionEvent)
    ensures
        !accepts(SessionPhase::Finished, e),
        !(e is InviteSurfaced) ==> !accepts(SessionPhase::AwaitingUi, e),
{
}

/// A completed pairing sends a vote back exactly when the peer was not paired
/// when it connected.
pub proof fn completed_pairing_votes_only_for_new_peers(s: SessionView, a: AccessView, e: SessionEvent)
    requires
        remembered_by(session_step(s, a, e).2) is Some,
    ensures
        reply_of(session_step(s, a, e).2) is Some <==> !s.allowed_at_start,
{
}

/// Over a whole session, access is never taken away.
pub proof fn session_never_revokes(s: SessionView, a: AccessView, events: Seq<SessionEvent>)
    ensures
        a.allowed.subset_of(session_run(s, a, events).1.allowed),
    decreases events.len(),
{
    if events.len() > 0 {
        let next = session_step(s, a, events[0]);
        step_facts(s, a, events[0]);
        session_never_revokes(next.0, next.1, events.drop_first());
    }
}

} // verus!
