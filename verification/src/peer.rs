use std::str::FromStr;
use vstd::prelude::*;

verus! {

/// The 32 bytes of the public key that identifies an endpoint, as parsed from
/// `text` by the endpoint-id parser of the networking crate; `None` where the
/// text is no hex or base32 encoding of a valid key.
pub uninterp spec fn parsed_endpoint_id(text: Seq<char>) -> Option<Seq<u8>>;

/// The parse error of the networking crate's key parser, carried through unread.
#[verifier::external_type_specification]
#[verifier::external_body]
pub struct ExKeyParsingError(iroh::KeyParsingError);

/// Calls `FromStr::from_str` of `iroh::EndpointId` (hex or base32 text of an
/// ed25519 public key) and returns the key's bytes, or the parser's own error.
/// The contract claims only that success and the bytes are the named parse of
/// the text, a function of the text alone; it says nothing of which error comes.
#[verifier::external_body]
fn endpoint_id_from_str(text: &str) -> (bytes: Result<[u8; 32], iroh::KeyParsingError>)
    ensures
        match bytes {
            Ok(b) => parsed_endpoint_id(text@) == Some(b@),
            Err(_) => parsed_endpoint_id(text@) is None,
        },
{
    match iroh::EndpointId::from_str(text) {
        Ok(id) => Ok(*id.as_bytes()),
        Err(e) => Err(e),
    }
}

/// The identity of a peer: the bytes of its endpoint key.
#[derive(Clone, Copy, Debug)]
pub struct PeerId {
    bytes: [u8; 32],
}

impl View for PeerId {
    type V = Seq<u8>;

    closed spec fn view(&self) -> Seq<u8> {
        self.bytes@
    }
}

impl PeerId {
    /// A peer identity from the 32 bytes of its key.
    pub fn from_bytes(bytes: [u8; 32]) -> (id: PeerId)
        ensures
            id@ == bytes@,
    {
        PeerId { bytes }
    }

    /// The 32 bytes of the key.
    pub fn to_bytes(&self) -> (bytes: [u8; 32])
        ensures
            bytes@ == self@,
    {
        self.bytes
    }

    /// Parses an endpoint id from its text form; `None` where the text names no key.
    pub fn parse(text: &str) -> (id: Option<PeerId>)
        ensures
            match id {
                Some(p) => parsed_endpoint_id(text@) == Some(p@),
                None => parsed_endpoint_id(text@) is None,
            },
    {
        match endpoint_id_from_str(text) {
            Ok(bytes) => Some(PeerId { bytes }),
            Err(_) => None,
        }
    }

    /// Parses an endpoint id from its text form, keeping the parser's error
    /// where the text names no key.
    pub fn try_parse(text: &str) -> (id: Result<PeerId, iroh::KeyParsingError>)
        ensures
            match id {
                Ok(p) => parsed_endpoint_id(text@) == Some(p@),
                Err(_) => parsed_endpoint_id(text@) is None,
            },
    {
        match endpoint_id_from_str(text) {
            Ok(bytes) => Ok(PeerId { bytes }),
            Err(e) => Err(e),
        }
    }

    /// Whether two identities name the same key.
    pub fn same(&self, other: &PeerId) -> (eq: bool)
        ensures
            eq == (self@ == other@),
    {
        let mut i: usize = 0;
        while i < 32
            invariant
                i <= 32,
                self@.len() == 32,
                other@.len() == 32,
                forall|j: int| 0 <= j < i ==> self@[j] == other@[j],
            decreases 32 - i,
        {
            if self.bytes[i] != other.bytes[i] {
                return false;
            }
            i = i + 1;
        }
        assert(self@ =~= other@);
        true
    }
}

} // verus!
