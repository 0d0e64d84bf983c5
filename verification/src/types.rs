//! Plain data carried between the client, the server and the registry.

use vstd::prelude::*;

verus! {

/// The scheme a key pair belongs to.
#[derive(Debug, Clone, Copy, PartialEq, Eq, Structural)]
pub enum KeyType {
    /// Ed25519, for signing.
    Ed25519,
    /// X25519, for key agreement.
    X25519,
}

impl KeyType {
    /// The scheme's name as a sequence of characters.
    pub open spec fn name(self) -> Seq<char> {
        match self {
            KeyType::Ed25519 => "Ed25519"@,
            KeyType::X25519 => "X25519"@,
        }
    }

    /// The scheme's conventional name.
    pub fn as_str(&self) -> (s: &'static str)
        ensures
            s@ == self.name(),
    {
        match self {
            KeyType::Ed25519 => "Ed25519",
            KeyType::X25519 => "X25519",
        }
    }
}

/// A private key with its public key, both 32 bytes long when generated here.
#[derive(Debug, Clone)]
pub struct KeyPair {
    pub private_key: Vec<u8>,
    pub public_key: Vec<u8>,
    pub key_type: KeyType,
}

/// A message between two agents, before it is wrapped for the wire.
#[derive(Debug, Clone)]
pub struct Message {
    pub sender_did: String,
    pub receiver_did: String,
    pub content: Vec<u8>,
    /// Seconds since the Unix epoch.
    pub timestamp: i64,
    pub signature: Option<Vec<u8>>,
}

/// The signed envelope that opens a session.
#[derive(Debug, Clone)]
pub struct HandshakeRequest {
    pub sender_did: String,
    pub receiver_did: String,
    /// Base64 of the encapsulated key followed by the sealed payload.
    pub message: String,
    /// Seconds since the Unix epoch.
    pub timestamp: i64,
    /// Base64 of the signature.
    pub signature: String,
}

/// The server's answer to a handshake.
#[derive(Debug, Clone)]
pub struct HandshakeResponse {
    pub session_id: String,
    /// Base64 of the sealed response.
    pub response: String,
}

/// The signed envelope of a message on a session.
#[derive(Debug, Clone)]
pub struct MessageRequest {
    pub sender_did: String,
    pub receiver_did: String,
    /// Base64 of the sealed message.
    pub message: String,
    /// Seconds since the Unix epoch.
    pub timestamp: i64,
    /// Base64 of the signature.
    pub signature: String,
}

/// The server's answer to a message.
#[derive(Debug, Clone)]
pub struct MessageResponse {
    /// Base64 of the sealed response.
    pub response: String,
    pub session_id: Option<String>,
}

/// What an agent submits to be registered.
#[derive(Debug, Clone)]
pub struct AgentMetadata {
    pub did: String,
    pub name: String,
    pub is_active: bool,
    /// Base64 of the Ed25519 public key.
    pub public_key: String,
    /// Base64 of the X25519 public key.
    pub public_kem_key: String,
}

/// A session as shown to its user.
#[derive(Debug, Clone)]
pub struct SessionInfo {
    pub session_id: String,
    pub client_did: String,
    pub server_did: String,
    /// Seconds since the Unix epoch.
    pub created_at: i64,
    pub expires_at: i64,
    pub last_activity: i64,
    /// Free-form pairs of key and value.
    pub metadata: Vec<(String, String)>,
}

/// Session counts that a server reports.
#[derive(Debug, Clone)]
pub struct SessionStats {
    pub active: i64,
    pub total: i64,
}

/// The health that a server reports.
#[derive(Debug, Clone)]
pub struct HealthStatus {
    pub status: String,
    /// Seconds since the Unix epoch.
    pub timestamp: i64,
    pub sessions: Option<SessionStats>,
}

/// The error that a server reports.
#[derive(Debug, Clone)]
pub struct ErrorResponse {
    pub error: String,
    pub code: Option<String>,
    /// Further details, as JSON text.
    pub details: Option<String>,
}

/// The server's key-encapsulation public key.
#[derive(Debug, Clone)]
pub struct KemPublicKeyResponse {
    /// Base64 of the X25519 public key.
    pub kem_public_key: String,
}

/// The server's identifier.
#[derive(Debug, Clone)]
pub struct ServerDidResponse {
    pub did: String,
}

/// The server's answer to a registration.
#[derive(Debug, Clone)]
pub struct RegisterResponse {
    pub message: String,
}

} // verus!
