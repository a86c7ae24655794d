//! Verified core of the conan messenger: authenticated encryption, key
//! derivation, the header-encrypted double ratchet, identities, the
//! handshake between peers, the daemon's decisions, and the terminal front
//! end's state machine.

pub mod aead;
pub mod bytes;
pub mod comm;
pub mod constants;
pub mod daemon;
pub mod direct;
pub mod handshake;
pub mod handshake_roles;
pub mod identity;
pub mod invitations;
pub mod names;
pub mod numerals;
pub mod primitives;
pub mod ratchet;
pub mod ratchet_header;
pub mod ratchet_laws;
pub mod ratchet_window;
pub mod records;
pub mod skipped_keys;
pub mod storage;
pub mod text;
pub mod tui;
