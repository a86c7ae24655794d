//! Protocol labels and limits.

use vstd::prelude::*;

verus! {

/// The port the onion service listens on.
pub const SELF_PORT: u16 = 80;

/// HKDF label of the key that seals messages under the Tor secret.
pub const ENCRYPTION_INFO: &'static str = "tor-secret-conan-secret";

/// HKDF label of the ratchet.
pub const RATCHET_INFO: &'static str = "conan-v1-ratchet";

/// Where the list of running Tor relays is fetched from.
pub const TOR_RELAY_LIST_URL: &'static str = "https://onionoo.torproject.org/summary?type=relay&running=true";

/// HKDF label of the root-key step.
pub const INFO_ROOT: &'static str = "conan-v1-root";

/// HKDF label of the chain-key step.
pub const INFO_CHAIN: &'static str = "conan-v1-chain";

/// HKDF label of the message key taken from a chain key.
pub const INFO_MESSAGE: &'static str = "conan-v1-message";

/// HKDF label of the initial root key.
pub const INFO_INIT_RK: &'static str = "conan-v1-init-rk";

/// HKDF label of the sender's initial header key.
pub const INFO_INIT_HKS: &'static str = "conan-v1-init-hks";

/// HKDF label of the receiver's initial header key.
pub const INFO_INIT_HKR: &'static str = "conan-v1-init-hkr";

/// HKDF label of the X25519 secret derived from an Ed25519 signing key.
pub const INFO_ED_TO_X: &'static str = "conan-v1-ed25519-to-x25519";

/// HKDF label of the receiver's ratchet key derived from the handshake secret.
pub const INFO_BOB_RATCHET: &'static str = "conan-v1-bob-ratchet";

/// Maximum number of message keys that can be skipped in a single chain.
/// High enough to tolerate reordering, low enough to prevent a malicious
/// sender from causing excessive storage.
pub const MAX_SKIP: u64 = 1000;

/// Hard cap on the total number of stored skipped keys across all chains.
pub const MAX_SKIPPED_KEYS: usize = 2000;

/// Capacity of the bounded channels of a peer connection.
pub const BOUNDED_CHANNEL_SIZE: usize = 100;

/// Key storage directory of the Tor client, below the home directory.
pub const ARTI_KEYSTORE: &'static str = "/.conan/tor_state";

/// The onion service's private key, below the key storage directory.
pub const ARTI_PRIVATE_KEY: &'static str = "/keystore/hss/conan-daemon/ks_hs_id.ed25519_expanded_private";

/// Cache directory of the Tor client, below the home directory.
pub const CACHE_PATH: &'static str = "/.conan/cache";

/// The daemon's socket for inter-process communication, below the home directory.
pub const DAEMON_SOCKET: &'static str = "/.conan/conan.socket";

/// Configuration file, below the home directory.
pub const CONFIG_PATH: &'static str = "/.config/conan/conan.toml";

/// Database file, below the home directory.
pub const DATABASE_PATH: &'static str = "/.conan/database";

} // verus!
