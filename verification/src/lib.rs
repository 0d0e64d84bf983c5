//! Decentralized identity and authenticated, confidential channels between
//! autonomous agents.
//!
//! An agent is bound to a decentralized identifier that a public registry
//! anchors. Two agents agree on a key with an HPKE handshake and then
//! exchange sealed messages in signed envelopes.
//!
//! - [`registry`] and [`hook`] hold the ledger's side: the agent accounts
//!   with their keys, and the limits that guard registration.
//! - [`crypto`], [`session`], [`handshake`], [`envelope`] and [`client`] hold
//!   the client's side: the primitives, the channel, its lifetime and the
//!   wire formats.

pub mod bytes;
pub mod client;
pub mod crypto;
pub mod did;
pub mod envelope;
pub mod error;
pub mod handshake;
pub mod hook;
pub mod pubkey;
pub mod registry;
pub mod session;
pub mod text;
pub mod types;

pub use client::{Client, ClientConfig};
pub use crypto::Crypto;
pub use did::{Did, DidDocument};
pub use error::Error;
pub use session::{Session, SessionManager};
pub use types::{
    AgentMetadata, HandshakeRequest, HandshakeResponse, HealthStatus, KeyPair, Message,
    MessageRequest, MessageResponse,
};

use vstd::prelude::*;

verus! {

/// The version of this library.
pub const VERSION: &'static str = "0.1.0";

} // verus!
