# conan

The verified core of conan, a peer-to-peer messenger over Tor onion
services: authenticated encryption and key derivation, the header-encrypted
double ratchet, identities, the handshake between peers, the daemon's
decisions and the terminal front end's state machine. Verus proves the
functions in `src/` against their contracts; the primitives that come from
outside crates (ChaCha20-Poly1305, HKDF, X25519, Ed25519, base58, hex, the
random number generator, the clock) are trusted items in
`src/primitives.rs`, each with the contract its crate documents.

Layout:

- `src/aead.rs`, `src/direct.rs`: sealing messages under a key.
- `src/ratchet.rs`, `src/ratchet_header.rs`, `src/skipped_keys.rs`: the
  double ratchet and its model; `src/ratchet_laws.rs` proves that two
  sessions deliver each other's messages, in order, out of order within a
  chain, and across ratchet steps; `src/ratchet_window.rs` proves that the
  messages of a chain may arrive in any order within the skip window, from
  the receiver's first message on.
- `src/identity.rs`, `src/handshake.rs`, `src/handshake_roles.rs`: identities,
  and the handshake step by step for the listener and the dialer.
- `src/daemon.rs`, `src/invitations.rs`, `src/storage.rs`: the daemon's
  decisions and bookkeeping.
- `src/tui/`: the front end: navigation, editing, screens, responses.
- `tests/`: tests run against the compiled library.
- `app/`: the wire encoding, terminal keys and clock around the library.
  It holds no daemon shell: the Tor transport, the database, the group
  protocol and the screen drawing that would run the daemon's decisions
  (its tasks, replies and dial retries) are not part of this project.
