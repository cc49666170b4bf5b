use std::str::FromStr;
use vstd::prelude::*;

use crate::peer::PeerId;

verus! {

/// The text of the relay URL that the networking crate parses from `text`
/// (its normalized serialization); `None` where the text is no URL.
pub uninterp spec fn parsed_relay_url(text: Seq<char>) -> Option<Seq<char>>;

/// Calls `FromStr::from_str` of `iroh::RelayUrl` and turns the parsed URL back
/// into its text. The contract claims only that the result is the named parse
/// of the text: a function of the text alone.
#[verifier::external_body]
fn relay_url_from_str(text: &str) -> (url: Option<String>)
    ensures
        match url {
            Some(u) => parsed_relay_url(text@) == Some(u@),
            None => parsed_relay_url(text@) is None,
        },
{
    match iroh::RelayUrl::from_str(text) {
        Ok(url) => Some(url.to_string()),
        Err(_) => None,
    }
}

/// Parses a relay URL; `None` where the text is no URL.
pub fn parse_relay_url(text: &str) -> (url: Option<String>)
    ensures
        match url {
            Some(u) => parsed_relay_url(text@) == Some(u@),
            None => parsed_relay_url(text@) is None,
        },
{
    relay_url_from_str(text)
}

/// The texts of a list of strings.
pub open spec fn texts(v: Seq<String>) -> Seq<Seq<char>> {
    v.map_values(|s: String| s@)
}

/// The relays through which a control connection is dialed: the stored relay
/// of the peer where it parses, and this node's own home relay where it has one.
pub open spec fn connect_relays(stored_relay: Option<Seq<char>>, local_relay: Option<Seq<char>>) -> Set<Seq<char>> {
    let from_stored = match stored_relay {
        Some(text) => match parsed_relay_url(text) {
            Some(url) => Set::empty().insert(url),
            None => Set::empty(),
        },
        None => Set::empty(),
    };
    match local_relay {
        Some(url) => from_stored.insert(url),
        None => from_stored,
    }
}

/// The address by which a peer is dialed: its key and a set of relays.
#[derive(Debug)]
pub struct ConnectAddr {
    pub peer: PeerId,
    pub relays: Vec<String>,
}

/// The text of an optional string.
pub open spec fn opt_text(s: Option<String>) -> Option<Seq<char>> {
    match s {
        Some(t) => Some(t@),
        None => None,
    }
}

/// The address for a control connection to `peer`: the stored relay (where it
/// parses) and this node's home relay, each listed once.
pub fn control_connect_addr(peer: PeerId, stored_relay: Option<&str>, local_relay: Option<String>) -> (addr:
    ConnectAddr)
    ensures
        addr.peer@ == peer@,
        texts(addr.relays@).to_set() == connect_relays(
            match stored_relay {
                Some(t) => Some(t@),
                None => None,
            },
            opt_text(local_relay),
        ),
        texts(addr.relays@).no_duplicates(),
{
    let mut relays: Vec<String> = Vec::new();
    let ghost stored_text: Option<Seq<char>> = match stored_relay {
        Some(t) => Some(t@),
        None => None,
    };
    match stored_relay {
        Some(text) => match parse_relay_url(text) {
            Some(url) => {
                relays.push(url);
            },
            None => {},
        },
        None => {},
    }
    proof {
        if relays@.len() == 1 {
            assert(texts(relays@) =~= seq![relays@[0]@]);
            lemma_one_to_set(relays@[0]@);
        } else {
            assert(texts(relays@) =~= Seq::<Seq<char>>::empty());
            assert(Seq::<Seq<char>>::empty().to_set() =~= Set::empty());
        }
        assert(texts(relays@).to_set() == connect_relays(stored_text, None));
    }
    let ghost from_stored = texts(relays@);
    match local_relay {
        Some(url) => {
            let duplicate = relays.len() == 1 && relays[0] == url;
            let ghost u = url@;
            if !duplicate {
                relays.push(url);
                proof {
                    if from_stored.len() == 1 {
                        assert(texts(relays@) =~= seq![from_stored[0], u]);
                        lemma_one_to_set(from_stored[0]);
                        lemma_two_to_set(from_stored[0], u);
                    } else {
                        assert(texts(relays@) =~= seq![u]);
                        lemma_one_to_set(u);
                        assert(Set::<Seq<char>>::empty().insert(u) =~= from_stored.to_set().insert(u));
                    }
                }
            } else {
                proof {
                    lemma_one_to_set(u);
                    assert(from_stored.to_set().insert(u) =~= from_stored.to_set());
                }
            }
        },
        None => {},
    }
    ConnectAddr { peer, relays }
}

/// This node's home relay is always among the relays dialed, whatever the
/// peer's stored relay is; the stored relay is among them when it parses; and
/// nothing else is.
pub proof fn dial_relays_are_home_and_stored(stored_relay: Option<Seq<char>>, local_relay: Option<Seq<char>>)
    ensures
        forall|u: Seq<char>| local_relay == Some(u) ==> #[trigger] connect_relays(stored_relay, local_relay).contains(u),
        stored_relay is Some && parsed_relay_url(stored_relay->0) is Some ==> connect_relays(
            stored_relay,
            local_relay,
        ).contains(parsed_relay_url(stored_relay->0)->0),
        forall|x: Seq<char>| #[trigger] connect_relays(stored_relay, local_relay).contains(x) ==> local_relay == Some(x)
            || (stored_relay is Some && parsed_relay_url(stored_relay->0) == Some(x)),
{
}

/// Whether the relay configuration asks for a change: the endpoint is rebuilt
/// only when the requested relay mode differs from the current one (compared by
/// their debug text).
pub fn relay_mode_changed(current: &String, requested: &String) -> (changed: bool)
    ensures
        changed == (current@ != requested@),
{
    !(*current == *requested)
}

proof fn lemma_one_to_set(x: Seq<char>)
    ensures
        seq![x].to_set() == Set::<Seq<char>>::empty().insert(x),
        seq![x].no_duplicates(),
{
    assert(seq![x][0] == x);
    assert(seq![x].to_set() =~= Set::<Seq<char>>::empty().insert(x));
}

proof fn lemma_two_to_set(x: Seq<char>, y: Seq<char>)
    requires
        x != y,
    ensures
        seq![x, y].to_set() == Set::<Seq<char>>::empty().insert(x).insert(y),
        seq![x, y].no_duplicates(),
{
    assert(seq![x, y][0] == x);
    assert(seq![x, y][1] == y);
    assert(seq![x, y].to_set() =~= Set::<Seq<char>>::empty().insert(x).insert(y));
}

} // verus!
