# paired_node

The access and pairing rules of a node that only talks to devices it has been
paired with, verified with Verus.

- `src/peer.rs`: peer identities (endpoint keys) and their parsing.
- `src/access.rs`: the access state (paired peers, pairing window) and the
  verdict of the handshake hook.
- `src/session.rs`: an incoming control connection as a state machine: each
  message read from the peer is an event, each step says what to do next.
- `src/invite.rs`, `src/join.rs`, `src/addr.rs`: the checks and judgements of
  inviting a paired device, joining a pairing host, and the relays to dial.
- `app/`: the networking service that drives the library (endpoint, router,
  streams, storage, user interface events).
