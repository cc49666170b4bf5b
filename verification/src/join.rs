use vstd::prelude::*;

use crate::addr::{connect_relays, control_connect_addr, texts, ConnectAddr};
use crate::peer::{parsed_endpoint_id, PeerId};
use crate::session::PeerInfo;

verus! {

/// Why joining a pairing host failed in the steps that the library judges.
#[derive(Clone, Copy, Debug, PartialEq, Eq, Structural)]
pub enum JoinError {
    /// The host's first message is not its pairing info.
    ExpectedHostPairingInfo,
    /// The endpoint id in the host's pairing info does not parse.
    InvalidHostEndpointId,
    /// The host's pairing info is not signed by the key it names.
    HostSignatureInvalid,
}

impl JoinError {
    /// The error's message.
    pub fn message(&self) -> (text: &'static str)
        ensures
            text@ == match self {
                JoinError::ExpectedHostPairingInfo => "expected host PairingInfo"@,
                JoinError::InvalidHostEndpointId => "invalid host endpoint id"@,
                JoinError::HostSignatureInvalid => "host PairingInfo signature invalid"@,
            },
    {
        match self {
            JoinError::ExpectedHostPairingInfo => "expected host PairingInfo",
            JoinError::InvalidHostEndpointId => "invalid host endpoint id",
            JoinError::HostSignatureInvalid => "host PairingInfo signature invalid",
        }
    }
}

/// Dials the pairing host named by a ticket: its endpoint id and, where it
/// parses, its relay. A ticket id that does not parse fails with the parser's
/// own error.
pub fn plan_join(ticket_endpoint_id: &str, ticket_relay_url: Option<&str>) -> (plan: Result<
    ConnectAddr,
    iroh::KeyParsingError,
>)
    ensures
        match parsed_endpoint_id(ticket_endpoint_id@) {
            None => plan is Err,
            Some(key) => plan matches Ok(addr) && addr.peer@ == key
                && texts(addr.relays@).to_set() == connect_relays(
                    match ticket_relay_url {
                        Some(t) => Some(t@),
                        None => None,
                    },
                    None,
                ) && texts(addr.relays@).no_duplicates(),
        },
{
    match PeerId::try_parse(ticket_endpoint_id) {
        Err(e) => Err(e),
        Ok(host) => Ok(control_connect_addr(host, ticket_relay_url, None)),
    }
}

/// A paired device as it is stored.
#[derive(Debug)]
pub struct PairedDeviceRecord {
    pub endpoint_id: String,
    pub display_name: String,
    pub device_type: String,
    pub os: String,
    pub paired_at: u64,
    pub last_seen_at: u64,
    pub relay_url: Option<String>,
}

impl PairedDeviceRecord {
    /// The record of a device paired at `now`: paired and last seen then, with
    /// the given relay.
    pub fn new(info: PeerInfo, now: u64, relay_url: Option<String>) -> (record: PairedDeviceRecord)
        ensures
            record.endpoint_id == info.endpoint_id,
            record.display_name == info.display_name,
            record.device_type == info.device_type,
            record.os == info.os,
            record.paired_at == now,
            record.last_seen_at == now,
            record.relay_url == relay_url,
    {
        PairedDeviceRecord {
            endpoint_id: info.endpoint_id,
            display_name: info.display_name,
            device_type: info.device_type,
            os: info.os,
            paired_at: now,
            last_seen_at: now,
            relay_url,
        }
    }
}

/// The host's first message after the join was sent. The signature is judged
/// by the caller with the key that the info names (reported invalid where that
/// id does not parse).
#[derive(Debug)]
pub enum HostReply {
    PairingInfo { info: PeerInfo, signature_valid: bool },
    Other,
}

/// The host that a join pairs with, and the record to store for it.
#[derive(Debug)]
pub struct JoinedHost {
    pub host: PeerId,
    pub device: PairedDeviceRecord,
}

/// Judges the host's reply: it must be pairing info, name a key that parses,
/// and be signed by it. The host is then paired at `now` with the ticket's relay.
pub fn accept_host_reply(reply: HostReply, now: u64, ticket_relay_url: Option<String>) -> (joined: Result<
    JoinedHost,
    JoinError,
>)
    ensures
        match reply {
            HostReply::Other => joined == Err::<JoinedHost, JoinError>(JoinError::ExpectedHostPairingInfo),
            HostReply::PairingInfo { info, signature_valid } => match parsed_endpoint_id(info.endpoint_id@) {
                None => joined == Err::<JoinedHost, JoinError>(JoinError::InvalidHostEndpointId),
                Some(key) => if !signature_valid {
                    joined == Err::<JoinedHost, JoinError>(JoinError::HostSignatureInvalid)
                } else {
                    joined matches Ok(j) && j.host@ == key && j.device.endpoint_id == info.endpoint_id
                        && j.device.display_name == info.display_name && j.device.device_type
                        == info.device_type && j.device.os == info.os && j.device.paired_at == now
                        && j.device.last_seen_at == now && j.device.relay_url == ticket_relay_url
                },
            },
        },
{
    match reply {
        HostReply::Other => Err(JoinError::ExpectedHostPairingInfo),
        HostReply::PairingInfo { info, signature_valid } => match PeerId::parse(info.endpoint_id.as_str()) {
            None => Err(JoinError::InvalidHostEndpointId),
            Some(host) => if !signature_valid {
                Err(JoinError::HostSignatureInvalid)
            } else {
                Ok(JoinedHost { host, device: PairedDeviceRecord::new(info, now, ticket_relay_url) })
            },
        },
    }
}

} // verus!
