use vstd::prelude::*;

use crate::access::{AccessState, AccessView};
use crate::peer::{parsed_endpoint_id, PeerId};

verus! {

/// Why an invite is refused before any connection is made.
#[derive(Debug)]
pub enum InviteError {
    /// The endpoint id does not parse; the parser's own error.
    InvalidEndpointId(iroh::KeyParsingError),
    /// The peer is not paired.
    UnknownPairedDevice,
}

/// Where an invite would go, as the contracts see it.
pub enum InviteTarget {
    /// To the paired peer with this key.
    Paired(Seq<u8>),
    /// Nowhere: the endpoint id does not parse.
    InvalidEndpointId,
    /// Nowhere: the peer is not paired.
    UnknownPairedDevice,
}

/// Whom an invite goes to: the peer named by the text, if it parses and is paired.
pub open spec fn invite_target(access: AccessView, remote_endpoint_id: Seq<char>) -> InviteTarget {
    match parsed_endpoint_id(remote_endpoint_id) {
        None => InviteTarget::InvalidEndpointId,
        Some(key) => if access.allowed.contains(key) {
            InviteTarget::Paired(key)
        } else {
            InviteTarget::UnknownPairedDevice
        },
    }
}

/// Checks that an invite may go to the peer named by `remote_endpoint_id`.
pub fn check_invite_target(access: &AccessState, remote_endpoint_id: &str) -> (target: Result<PeerId, InviteError>)
    ensures
        match invite_target(access@, remote_endpoint_id@) {
            InviteTarget::Paired(key) => target matches Ok(peer) && peer@ == key,
            InviteTarget::InvalidEndpointId => target matches Err(InviteError::InvalidEndpointId(_)),
            InviteTarget::UnknownPairedDevice => target matches Err(InviteError::UnknownPairedDevice),
        },
{
    match PeerId::try_parse(remote_endpoint_id) {
        Err(e) => Err(InviteError::InvalidEndpointId(e)),
        Ok(peer) => if access.is_allowed(&peer) {
            Ok(peer)
        } else {
            Err(InviteError::UnknownPairedDevice)
        },
    }
}

/// The first message the invited peer sent back.
#[derive(Clone, Copy, Debug, PartialEq, Eq, Structural)]
pub enum InviteReply {
    /// An invite response saying that the invite was delivered.
    Delivered,
    /// An invite response saying that the invite was accepted.
    Accepted,
    /// An invite response of another kind.
    OtherResponse,
    /// Some other message.
    OtherMessage,
}

/// How far an invite got. The steps are tried in this order and the first
/// failure ends the attempt: dialing (failing or timing out), opening a stream,
/// writing the invite, then waiting briefly for a reply.
#[derive(Clone, Copy, Debug, PartialEq, Eq, Structural)]
pub enum InviteAttempt {
    ConnectFailed,
    ConnectTimedOut,
    StreamOpenFailed,
    WriteFailed,
    Answered(InviteReply),
    /// Reading the reply failed or timed out; older peers never answer.
    NoAnswer,
}

/// Whether an invite counts as delivered: never when the peer could not be
/// reached or the invite not written; when the peer answered, only if it said
/// delivered or accepted; when it did not answer, yes, since older peers never
/// acknowledge.
pub open spec fn invite_delivered(attempt: InviteAttempt) -> bool {
    match attempt {
        InviteAttempt::ConnectFailed => false,
        InviteAttempt::ConnectTimedOut => false,
        InviteAttempt::StreamOpenFailed => false,
        InviteAttempt::WriteFailed => false,
        InviteAttempt::Answered(reply) => reply == InviteReply::Delivered || reply == InviteReply::Accepted,
        InviteAttempt::NoAnswer => true,
    }
}

/// Judges an invite attempt (see `invite_delivered`).
pub fn invite_outcome(attempt: InviteAttempt) -> (delivered: bool)
    ensures
        delivered == invite_delivered(attempt),
{
    match attempt {
        InviteAttempt::ConnectFailed => false,
        InviteAttempt::ConnectTimedOut => false,
        InviteAttempt::StreamOpenFailed => false,
        InviteAttempt::WriteFailed => false,
        InviteAttempt::Answered(reply) => match reply {
            InviteReply::Delivered => true,
            InviteReply::Accepted => true,
            InviteReply::OtherResponse => false,
            InviteReply::OtherMessage => false,
        },
        InviteAttempt::NoAnswer => true,
    }
}

/// An invite goes only to a peer that is paired.
pub proof fn invite_goes_only_to_paired_peers(access: AccessView, remote_endpoint_id: Seq<char>)
    requires
        invite_target(access, remote_endpoint_id) is Paired,
    ensures
        parsed_endpoint_id(remote_endpoint_id) == Some(invite_target(access, remote_endpoint_id)->Paired_0),
        access.allowed.contains(invite_target(access, remote_endpoint_id)->Paired_0),
{
}

/// A peer that was just allowed can be invited by its endpoint id.
pub proof fn allowed_peer_can_be_invited(access: AccessView, remote_endpoint_id: Seq<char>)
    requires
        parsed_endpoint_id(remote_endpoint_id) is Some,
    ensures
        invite_target(
            AccessView { allowed: access.allowed.insert(parsed_endpoint_id(remote_endpoint_id)->0), ..access },
            remote_endpoint_id,
        ) == InviteTarget::Paired(parsed_endpoint_id(remote_endpoint_id)->0),
{
}

/// A peer forgotten by its endpoint id can no longer be invited by it.
pub proof fn forgotten_peer_cannot_be_invited(access: AccessView, remote_endpoint_id: Seq<char>)
    requires
        parsed_endpoint_id(remote_endpoint_id) is Some,
    ensures
        invite_target(
            AccessView { allowed: access.allowed.remove(parsed_endpoint_id(remote_endpoint_id)->0), ..access },
            remote_endpoint_id,
        ) is UnknownPairedDevice,
{
}

/// An invite that could not reach the peer, or could not be written, is not delivered.
pub proof fn unreachable_invite_is_not_delivered(attempt: InviteAttempt)
    requires
        attempt is ConnectFailed || attempt is ConnectTimedOut || attempt is StreamOpenFailed
            || attempt is WriteFailed,
    ensures
        !invite_delivered(attempt),
{
}

/// When the peer answers, the invite counts as delivered exactly when the
/// answer says delivered or accepted.
pub proof fn answer_decides_delivery(reply: InviteReply)
    ensures
        invite_delivered(InviteAttempt::Answered(reply)) <==> (reply is Delivered || reply is Accepted),
{
}

/// A written invite whose peer stays silent counts as delivered.
pub proof fn silent_peer_counts_as_delivered()
    ensures
        invite_delivered(InviteAttempt::NoAnswer),
{
}

} // verus!
