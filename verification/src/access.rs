use vstd::prelude::*;

use crate::peer::{parsed_endpoint_id, PeerId};

verus! {

/// The set of keys named by the identities in `ids`.
pub open spec fn key_set(ids: Seq<PeerId>) -> Set<Seq<u8>> {
    Set::new(|key: Seq<u8>| exists|i: int| 0 <= i < ids.len() && ids[i]@ == key)
}

/// The keys named by the first `n` identities in `ids`.
spec fn keys_before(ids: Seq<PeerId>, n: int) -> Set<Seq<u8>> {
    Set::new(|key: Seq<u8>| exists|i: int| 0 <= i < n && ids[i]@ == key)
}

/// The keys of the first `n` endpoint ids in `texts` that parse.
spec fn parsed_keys_before(texts: Seq<String>, n: int) -> Set<Seq<u8>> {
    Set::new(|key: Seq<u8>| exists|i: int| 0 <= i < n && parsed_endpoint_id(texts[i]@) == Some(key))
}

/// The keys of the endpoint ids in `texts` that parse; the others are left out.
pub open spec fn parsed_key_set(texts: Seq<String>) -> Set<Seq<u8>> {
    Set::new(|key: Seq<u8>| exists|i: int| 0 <= i < texts.len() && parsed_endpoint_id(texts[i]@) == Some(key))
}

/// What the access state says: who is paired, and whether a pairing window is open.
pub struct AccessView {
    /// The keys of the peers that may use the control protocol.
    pub allowed: Set<Seq<u8>>,
    /// Whether a pairing window is open, so that unknown peers may connect.
    pub pairing_host_open: bool,
}

/// The access state of a node: the paired peers and the pairing window.
/// No key is listed twice.
#[derive(Debug)]
pub struct AccessState {
    allowed: Vec<PeerId>,
    pairing_host_open: bool,
}

impl View for AccessState {
    type V = AccessView;

    closed spec fn view(&self) -> AccessView {
        AccessView { allowed: key_set(self.allowed@), pairing_host_open: self.pairing_host_open }
    }
}

/// Whether the handshake hook lets a connection through: a connection that this
/// node dialed, or one for another protocol, always passes; an incoming control
/// connection passes while a pairing window is open or when the peer is paired.
pub open spec fn admits(
    access: AccessView,
    is_server_side: bool,
    alpn: Seq<u8>,
    control_alpn: Seq<u8>,
    remote: Seq<u8>,
) -> bool {
    !is_server_side || alpn != control_alpn || access.pairing_host_open || access.allowed.contains(remote)
}

/// The error code with which an unauthorized control connection is refused.
pub const UNAUTHORIZED_CODE: u32 = 403;

/// What the handshake hook answers to a new connection.
#[derive(Debug)]
pub enum HandshakeVerdict {
    Accept,
    Reject { error_code: u32, reason: &'static str },
}

/// Whether two byte strings are equal.
pub fn bytes_equal(a: &[u8], b: &[u8]) -> (eq: bool)
    ensures
        eq == (a@ == b@),
{
    if a.len() != b.len() {
        return false;
    }
    let mut i: usize = 0;
    while i < a.len()
        invariant
            i <= a@.len(),
            a@.len() == b@.len(),
            forall|j: int| 0 <= j < i ==> a@[j] == b@[j],
        decreases a@.len() - i,
    {
        if a[i] != b[i] {
            return false;
        }
        i = i + 1;
    }
    assert(a@ =~= b@);
    true
}

impl AccessState {
    #[verifier::type_invariant]
    closed spec fn no_key_twice(self) -> bool {
        forall|i: int, j: int|
            0 <= i < j < self.allowed@.len() ==> self.allowed@[i]@ != self.allowed@[j]@
    }

    /// An access state with nobody paired and the pairing window closed.
    pub fn new() -> (access: AccessState)
        ensures
            access@.allowed == Set::<Seq<u8>>::empty(),
            !access@.pairing_host_open,
    {
        let access = AccessState { allowed: Vec::new(), pairing_host_open: false };
        assert(key_set(access.allowed@) =~= Set::<Seq<u8>>::empty());
        access
    }

    /// The access state of a node that starts with the paired devices whose
    /// endpoint ids are `endpoint_ids`: every id that parses is allowed, the
    /// others are skipped; the pairing window is closed.
    pub fn from_endpoint_ids(endpoint_ids: &Vec<String>) -> (access: AccessState)
        ensures
            access@.allowed == parsed_key_set(endpoint_ids@),
            !access@.pairing_host_open,
    {
        let mut access = AccessState::new();
        let mut k: usize = 0;
        while k < endpoint_ids.len()
            invariant
                k <= endpoint_ids@.len(),
                access@.allowed == parsed_keys_before(endpoint_ids@, k as int),
                !access@.pairing_host_open,
            decreases endpoint_ids@.len() - k,
        {
            let ghost before = access@.allowed;
            match PeerId::parse(endpoint_ids[k].as_str()) {
                Some(id) => {
                    access.allow_peer(id);
                    assert(access@.allowed =~= parsed_keys_before(endpoint_ids@, k + 1));
                },
                None => {
                    assert(before =~= parsed_keys_before(endpoint_ids@, k + 1));
                },
            }
            k = k + 1;
        }
        assert(access@.allowed =~= parsed_key_set(endpoint_ids@));
        access
    }

    /// Whether `peer` is paired.
    pub fn is_allowed(&self, peer: &PeerId) -> (allowed: bool)
        ensures
            allowed == self@.allowed.contains(peer@),
    {
        let mut i: usize = 0;
        while i < self.allowed.len()
            invariant
                i <= self.allowed@.len(),
                forall|j: int| 0 <= j < i ==> self.allowed@[j]@ != peer@,
            decreases self.allowed@.len() - i,
        {
            if self.allowed[i].same(peer) {
                assert(key_set(self.allowed@).contains(peer@));
                return true;
            }
            i = i + 1;
        }
        false
    }

    /// Adds `peer` to the paired peers.
    pub fn allow_peer(&mut self, peer: PeerId)
        ensures
            final(self)@.allowed == old(self)@.allowed.insert(peer@),
            final(self)@.pairing_host_open == old(self)@.pairing_host_open,
    {
        proof { use_type_invariant(&*self); }
        if self.is_allowed(&peer) {
            assert(old(self)@.allowed.insert(peer@) =~= old(self)@.allowed);
        } else {
            let ghost before = self.allowed@;
            let mut allowed = Vec::new();
            std::mem::swap(&mut allowed, &mut self.allowed);
            allowed.push(peer);
            assert(key_set(allowed@) =~= key_set(before).insert(peer@)) by {
                assert forall|key: Seq<u8>| key_set(before).insert(peer@).contains(key)
                    implies key_set(allowed@).contains(key) by {
                    if key == peer@ {
                        assert(allowed@[before.len() as int]@ == key);
                    } else {
                        let i = choose|i: int| 0 <= i < before.len() && before[i]@ == key;
                        assert(allowed@[i]@ == key);
                    }
                }
            }
            self.allowed = allowed;
        }
    }

    /// Forgets the peer whose endpoint id is `endpoint_id`, where the text
    /// parses; where it does not, nothing changes.
    pub fn forget_endpoint(&mut self, endpoint_id: &str)
        ensures
            final(self)@.allowed == (match parsed_endpoint_id(endpoint_id@) {
                Some(key) => old(self)@.allowed.remove(key),
                None => old(self)@.allowed,
            }),
            final(self)@.pairing_host_open == old(self)@.pairing_host_open,
    {
        proof { use_type_invariant(&*self); }
        match PeerId::parse(endpoint_id) {
            Some(gone) => {
                let ghost before = self.allowed@;
                let mut kept: Vec<PeerId> = Vec::new();
                let mut i: usize = 0;
                while i < self.allowed.len()
                    invariant
                        i <= self.allowed@.len(),
                        self.allowed@ == before,
                        key_set(kept@) == keys_before(before, i as int).remove(gone@),
                        forall|a: int, b: int| 0 <= a < b < kept@.len() ==> kept@[a]@ != kept@[b]@,
                        forall|a: int| #![trigger kept@[a]] 0 <= a < kept@.len() ==>
                            exists|b: int| 0 <= b < i && #[trigger] before[b]@ == kept@[a]@,
                        forall|a: int, b: int| 0 <= a < b < before.len() ==> before[a]@ != before[b]@,
                    decreases self.allowed@.len() - i,
                {
                    let peer = self.allowed[i];
                    let ghost kept_before = kept@;
                    if !peer.same(&gone) {
                        kept.push(peer);
                        assert forall|a: int, b: int| 0 <= a < b < kept@.len() implies kept@[a]@ != kept@[b]@ by {
                            if b == kept@.len() - 1 {
                                let c = choose|c: int| 0 <= c < i && #[trigger] before[c]@ == kept@[a]@;
                                assert(before[c]@ != before[i as int]@);
                            }
                        }
                        assert forall|a: int| #![trigger kept@[a]] 0 <= a < kept@.len() implies
                            exists|b: int| 0 <= b < i + 1 && #[trigger] before[b]@ == kept@[a]@ by {
                            if a == kept@.len() - 1 {
                                assert(before[i as int]@ == kept@[a]@);
                            } else {
                                assert(kept@[a] == kept_before[a]);
                            }
                        }
                    }
                    assert(key_set(kept@) =~= keys_before(before, i + 1).remove(gone@)) by {
                        assert forall|key: Seq<u8>| keys_before(before, i + 1).remove(gone@).contains(key)
                            implies key_set(kept@).contains(key) by {
                            let c = choose|c: int| 0 <= c < i + 1 && #[trigger] before[c]@ == key;
                            if c < i {
                                assert(keys_before(before, i as int).contains(key));
                                assert(key_set(kept_before).contains(key));
                                let d = choose|d: int| 0 <= d < kept_before.len() && #[trigger] kept_before[d]@ == key;
                                assert(kept@[d]@ == key);
                            } else {
                                assert(kept@[kept@.len() - 1]@ == key);
                            }
                        }
                        assert forall|key: Seq<u8>| key_set(kept@).contains(key)
                            implies keys_before(before, i + 1).remove(gone@).contains(key) by {
                            let d = choose|d: int| 0 <= d < kept@.len() && #[trigger] kept@[d]@ == key;
                            if d < kept_before.len() {
                                assert(kept@[d] == kept_before[d]);
                                assert(key_set(kept_before).contains(key));
                                let c = choose|c: int| 0 <= c < i && #[trigger] before[c]@ == key;
                                assert(before[c]@ == key);
                            } else {
                                assert(before[i as int]@ == key);
                            }
                        }
                    }
                    i = i + 1;
                }
                assert(keys_before(before, before.len() as int) =~= key_set(before));
                self.allowed = kept;
            },
            None => {},
        }
    }

    /// Whether a pairing window is open.
    pub fn pairing_host_open(&self) -> (open: bool)
        ensures
            open == self@.pairing_host_open,
    {
        self.pairing_host_open
    }

    /// Opens a pairing window; the paired peers stay as they are.
    pub fn open_pairing_host(&mut self)
        ensures
            final(self)@ == (AccessView { allowed: old(self)@.allowed, pairing_host_open: true }),
    {
        proof { use_type_invariant(&*self); }
        self.pairing_host_open = true;
    }

    /// Closes the pairing window; the paired peers stay as they are.
    pub fn close_pairing_host(&mut self)
        ensures
            final(self)@ == (AccessView { allowed: old(self)@.allowed, pairing_host_open: false }),
    {
        proof { use_type_invariant(&*self); }
        self.pairing_host_open = false;
    }

    /// The answer of the handshake hook to a connection from `remote` that
    /// negotiated `alpn`: accepted where `admits` holds, refused with code 403
    /// and the reason "unauthorized control peer" where it does not.
    pub fn handshake_verdict(
        &self,
        is_server_side: bool,
        alpn: &[u8],
        control_alpn: &[u8],
        remote: &PeerId,
    ) -> (verdict: HandshakeVerdict)
        ensures
            verdict is Accept <==> admits(self@, is_server_side, alpn@, control_alpn@, remote@),
            verdict matches HandshakeVerdict::Reject { error_code, reason } ==> error_code == UNAUTHORIZED_CODE
                && reason@ == "unauthorized control peer"@,
    {
        if !is_server_side {
            return HandshakeVerdict::Accept;
        }
        if !bytes_equal(alpn, control_alpn) {
            return HandshakeVerdict::Accept;
        }
        if self.pairing_host_open || self.is_allowed(remote) {
            return HandshakeVerdict::Accept;
        }
        HandshakeVerdict::Reject { error_code: UNAUTHORIZED_CODE, reason: "unauthorized control peer" }
    }
}

/// A connection that this node dialed, or one for another protocol, is
/// always let through, whatever the access state.
pub proof fn outbound_or_other_protocol_always_admitted(
    access: AccessView,
    is_server_side: bool,
    alpn: Seq<u8>,
    control_alpn: Seq<u8>,
    remote: Seq<u8>,
)
    requires
        !is_server_side || alpn != control_alpn,
    ensures
        admits(access, is_server_side, alpn, control_alpn, remote),
{
}

/// A paired peer's control connections are always let through.
pub proof fn paired_peer_always_admitted(
    access: AccessView,
    is_server_side: bool,
    alpn: Seq<u8>,
    control_alpn: Seq<u8>,
    remote: Seq<u8>,
)
    requires
        access.allowed.contains(remote),
    ensures
        admits(access, is_server_side, alpn, control_alpn, remote),
{
}

/// While a pairing window is open, any peer may open a control connection;
/// once it is closed, an unpaired peer's incoming control connection is refused.
pub proof fn pairing_window_decides_for_strangers(access: AccessView, control_alpn: Seq<u8>, remote: Seq<u8>)
    requires
        !access.allowed.contains(remote),
    ensures
        admits(AccessView { pairing_host_open: true, ..access }, true, control_alpn, control_alpn, remote),
        !admits(AccessView { pairing_host_open: false, ..access }, true, control_alpn, control_alpn, remote),
{
}

/// Once a peer is allowed, its control connections are let through.
pub proof fn allowed_peer_is_admitted(access: AccessView, control_alpn: Seq<u8>, remote: Seq<u8>)
    ensures
        admits(
            AccessView { allowed: access.allowed.insert(remote), ..access },
            true,
            control_alpn,
            control_alpn,
            remote,
        ),
{
}

/// Forgetting a peer by its endpoint id revokes its access: with the pairing
/// window closed, its incoming control connections are refused.
pub proof fn forgotten_peer_is_refused(access: AccessView, endpoint_id: Seq<char>, control_alpn: Seq<u8>)
    requires
        parsed_endpoint_id(endpoint_id) is Some,
        !access.pairing_host_open,
    ensures
        !admits(
            AccessView { allowed: access.allowed.remove(parsed_endpoint_id(endpoint_id)->0), ..access },
            true,
            control_alpn,
            control_alpn,
            parsed_endpoint_id(endpoint_id)->0,
        ),
{
}

/// Forgetting a peer by its endpoint id undoes allowing it, where it was not
/// paired before.
pub proof fn forget_undoes_allow(access: AccessView, endpoint_id: Seq<char>)
    requires
        parsed_endpoint_id(endpoint_id) is Some,
        !access.allowed.contains(parsed_endpoint_id(endpoint_id)->0),
    ensures
        access.allowed.insert(parsed_endpoint_id(endpoint_id)->0).remove(parsed_endpoint_id(endpoint_id)->0)
            == access.allowed,
{
    let key = parsed_endpoint_id(endpoint_id)->0;
    assert(access.allowed.insert(key).remove(key) =~= access.allowed);
}

/// Loading the paired devices skips ids that do not parse: such an id adds no key.
pub proof fn unparsable_ids_are_skipped(endpoint_ids: Seq<String>, extra: String)
    requires
        parsed_endpoint_id(extra@) is None,
    ensures
        parsed_key_set(endpoint_ids.push(extra)) == parsed_key_set(endpoint_ids),
{
    assert forall|key: Seq<u8>| parsed_key_set(endpoint_ids.push(extra)).contains(key)
        implies parsed_key_set(endpoint_ids).contains(key) by {
        let i = choose|i: int| 0 <= i < endpoint_ids.push(extra).len()
            && parsed_endpoint_id(endpoint_ids.push(extra)[i]@) == Some(key);
        assert(i < endpoint_ids.len());
        assert(endpoint_ids.push(extra)[i] == endpoint_ids[i]);
    }
    assert forall|key: Seq<u8>| parsed_key_set(endpoint_ids).contains(key)
        implies parsed_key_set(endpoint_ids.push(extra)).contains(key) by {
        let i = choose|i: int| 0 <= i < endpoint_ids.len() && parsed_endpoint_id(endpoint_ids[i]@) == Some(key);
        assert(endpoint_ids.push(extra)[i] == endpoint_ids[i]);
    }
    assert(parsed_key_set(endpoint_ids.push(extra)) =~= parsed_key_set(endpoint_ids));
}

/// Every id in the list that parses is loaded as allowed.
pub proof fn parsable_ids_are_loaded(endpoint_ids: Seq<String>, i: int)
    requires
        0 <= i < endpoint_ids.len(),
        parsed_endpoint_id(endpoint_ids[i]@) is Some,
    ensures
        parsed_key_set(endpoint_ids).contains(parsed_endpoint_id(endpoint_ids[i]@)->0),
{
}

} // verus!
