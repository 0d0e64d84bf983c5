//! The client's side of registration, handshake and messaging, as steps
//! between which the caller talks to the server.

use crate::crypto::{
    aes256gcm_sealed, base64_decoded, base64_encoded, ed25519_public, hpke_key, keypair_outcome,
    random_secret,
    sequence_nonce, setup_hpke_sender_with, x25519_public, Crypto, HpkeContext, HpkeState,
    AES_GCM_MAX_PLAINTEXT,
};
use crate::bytes::to_array;
use crate::envelope::{
    exceeds_encodable, seal_parts, sealed_as, sealing_error, sign_parts, too_long_to_encode,
};
use crate::error::{Error, ErrorView};
use crate::handshake::{build_handshake_payload, frame_handshake, handshake_payload};
use crate::session::{clock_reading, utc_now, Session, SessionManager};
use crate::types::{
    AgentMetadata, HandshakeRequest, HandshakeResponse, KemPublicKeyResponse, KeyPair, KeyType,
    MessageRequest, MessageResponse,
};
use std::time::{SystemTime, UNIX_EPOCH};
use vstd::prelude::*;
use vstd::std_specs::iter::IteratorSpec;
use vstd::utf8::encode_utf8;

verus! {

/// Seconds that a request may take unless configured otherwise.
pub const DEFAULT_TIMEOUT_SECONDS: u64 = 30;

/// Sessions that a client holds unless configured otherwise.
pub const DEFAULT_MAX_SESSIONS: usize = 100;

/// Seconds that a session lives.
pub const SESSION_LIFETIME_SECONDS: i64 = 3600;

/// How a client reaches its server, and how much it holds.
#[derive(Debug, Clone)]
pub struct ClientConfig {
    pub base_url: String,
    pub timeout_seconds: u64,
    pub max_sessions: usize,
}

/// A text without the slashes it ends in.
pub open spec fn without_trailing_slashes(text: Seq<char>) -> Seq<char>
    decreases text.len(),
{
    if text.len() > 0 && text.last() == '/' {
        without_trailing_slashes(text.drop_last())
    } else {
        text
    }
}

/// Cutting a text behind its last character that is no slash removes the
/// slashes it ends in.
proof fn trailing_slashes_cut(text: Seq<char>, end: int)
    requires
        0 <= end <= text.len(),
        end > 0 ==> text[end - 1] != '/',
        forall|j: int| end <= j < text.len() ==> text[j] == '/',
    ensures
        without_trailing_slashes(text) == text.subrange(0, end),
    decreases text.len() - end,
{
    if end == text.len() {
        assert(text.subrange(0, end) =~= text);
    } else {
        let shorter = text.drop_last();
        assert forall|j: int| end <= j < shorter.len() implies shorter[j] == '/' by {
            assert(shorter[j] == text[j]);
        }
        trailing_slashes_cut(shorter, end);
        assert(shorter.subrange(0, end) =~= text.subrange(0, end));
    }
}

impl ClientConfig {
    /// The configuration for a server at `base_url`, with the default
    /// timeout and capacity. Slashes at the end of the address are dropped.
    pub fn new(base_url: &str) -> (config: ClientConfig)
        ensures
            config.base_url@ == without_trailing_slashes(base_url@),
            config.timeout_seconds == DEFAULT_TIMEOUT_SECONDS,
            config.max_sessions == DEFAULT_MAX_SESSIONS,
    {
        let length = base_url.unicode_len();
        let mut chars = base_url.chars();
        let mut end: usize = 0;
        let mut i: usize = 0;
        loop
            invariant
                end <= i <= length,
                length == base_url@.len(),
                chars.remaining() == base_url@.skip(i as int),
                end > 0 ==> base_url@[end - 1] != '/',
                forall|j: int| end <= j < i ==> base_url@[j] == '/',
            ensures
                i == length,
                end <= length,
                end > 0 ==> base_url@[end - 1] != '/',
                forall|j: int| end <= j < length ==> base_url@[j] == '/',
            decreases length - i,
        {
            match chars.next() {
                None => {
                    break ;
                },
                Some(c) => {
                    assert(c == base_url@.skip(i as int)[0]);
                    assert(base_url@.skip(i as int).drop_first() =~= base_url@.skip(i + 1));
                    i += 1;
                    if c != '/' {
                        end = i;
                    }
                },
            }
        }
        proof {
            trailing_slashes_cut(base_url@, end as int);
        }
        ClientConfig {
            base_url: String::from_str(base_url.substring_char(0, end)),
            timeout_seconds: DEFAULT_TIMEOUT_SECONDS,
            max_sessions: DEFAULT_MAX_SESSIONS,
        }
    }
}

/// Trusted: `std::time::SystemTime::now().duration_since(UNIX_EPOCH)`, in
/// whole seconds as `Duration::as_secs` gives them; `None` stands for a
/// clock set before the epoch. Nothing is claimed of the reading.
#[verifier::external_body]
fn system_seconds() -> (reading: Option<u64>) {
    match SystemTime::now().duration_since(UNIX_EPOCH) {
        Ok(elapsed) => Some(elapsed.as_secs()),
        Err(_) => None,
    }
}

/// The timestamp that a reading of the system clock stands for: the seconds
/// read, held at the largest timestamp where they pass it, and the epoch
/// itself where the clock is set before it.
pub open spec fn stamp(reading: Option<u64>) -> i64 {
    match reading {
        Some(seconds) => if seconds <= i64::MAX {
            seconds as i64
        } else {
            i64::MAX
        },
        None => 0,
    }
}

/// Computes the timestamp that a reading of the system clock stands for.
pub fn timestamp_of(reading: Option<u64>) -> (now: i64)
    ensures
        now == stamp(reading),
{
    match reading {
        Some(seconds) => if seconds <= i64::MAX as u64 {
            seconds as i64
        } else {
            i64::MAX
        },
        None => 0,
    }
}

/// Reads the system clock, in seconds since the Unix epoch. Whatever the
/// clock reads, the result is the timestamp that the reading stands for, and
/// so is never negative.
pub fn current_timestamp() -> (now: i64)
    ensures
        exists|reading: Option<u64>| now == #[trigger] stamp(reading),
        0 <= now,
{
    let reading = system_seconds();
    timestamp_of(reading)
}

/// A handshake that has been prepared and awaits the server's answer.
pub struct PendingHandshake {
    /// The envelope to send.
    pub request: HandshakeRequest,
    /// The channel context, which has sealed the handshake payload.
    pub context: HpkeContext,
}

/// The client: its keys, its registered identifier and its sessions.
pub struct Client {
    config: ClientConfig,
    identity_keypair: Option<KeyPair>,
    kem_keypair: Option<KeyPair>,
    client_did: Option<String>,
    session_manager: SessionManager,
}

/// Whether a key pair, where there is one, has keys of 32 bytes.
pub open spec fn keys_sized(pair: Option<KeyPair>) -> bool {
    pair matches Some(p) ==> p.private_key@.len() == 32 && p.public_key@.len() == 32
}

/// What preparing a handshake returns, given the client's identifier and
/// identity key, the drawn ephemeral secret and the two clock readings. The
/// payload is sealed as the first message of a fresh channel to the server's
/// key and sent behind the ephemeral public key, in an envelope signed with
/// the identity key.
pub open spec fn handshake_started(
    client_did: Option<String>,
    identity: Option<KeyPair>,
    server_did: Seq<char>,
    server_kem_key: Seq<u8>,
    random: Option<[u8; 32]>,
    payload_time: i64,
    envelope_time: i64,
    result: Result<PendingHandshake, Error>,
) -> bool {
    if client_did is None || identity is None {
        result matches Err(e) && e@ == ErrorView::NotInitialized
    } else if server_kem_key.len() != 32 {
        result matches Err(e) && e@ == ErrorView::Crypto("Invalid receiver public key length"@)
    } else if random is None {
        result matches Err(e) && e@ == ErrorView::Crypto("CSPRNG unavailable"@)
    } else {
        let did = client_did->Some_0@;
        let secret = random->Some_0@;
        let key = hpke_key(secret, server_kem_key);
        let payload = encode_utf8(handshake_payload(did, payload_time));
        let sealed = sequence_nonce(0) + aes256gcm_sealed(key, sequence_nonce(0), payload);
        let message = x25519_public(secret) + sealed;
        if payload.len() > AES_GCM_MAX_PLAINTEXT {
            result matches Err(e) && e@ == ErrorView::Encryption("aead::Error"@)
        } else {
            match sealing_error(message, identity->Some_0.private_key@) {
                Some(error) => result matches Err(e) && e@ == error,
                None => {
                    &&& result matches Ok(pending)
                    &&& pending.context@ == (HpkeState { key, sequence: 1 })
                    &&& pending.request.sender_did@ == did
                    &&& pending.request.receiver_did@ == server_did
                    &&& pending.request.timestamp == envelope_time
                    &&& sealed_as(
                        did,
                        server_did,
                        message,
                        envelope_time,
                        identity->Some_0.private_key@,
                        pending.request.message@,
                        pending.request.signature@,
                    )
                },
            }
        }
    }
}

impl Client {
    /// The identifier the client is registered under, if any.
    pub closed spec fn did(&self) -> Option<String> {
        self.client_did
    }

    /// The client's signing key pair, if generated.
    pub closed spec fn identity(&self) -> Option<KeyPair> {
        self.identity_keypair
    }

    /// The client's key-agreement key pair, if generated.
    pub closed spec fn kem(&self) -> Option<KeyPair> {
        self.kem_keypair
    }

    /// The client's sessions.
    pub closed spec fn manager(&self) -> SessionManager {
        self.session_manager
    }

    /// The client's configuration.
    pub closed spec fn config(&self) -> ClientConfig {
        self.config
    }

    /// The invariant: the sessions are well formed and the keys have their
    /// length.
    pub open spec fn wf(&self) -> bool {
        &&& self.manager().wf()
        &&& keys_sized(self.identity())
        &&& keys_sized(self.kem())
    }

    /// What generating the client's keys does, given the two drawn secrets:
    /// both pairs are replaced, or nothing changes.
    pub open spec fn keys_generated(
        before: Client,
        identity_random: Option<[u8; 32]>,
        kem_random: Option<[u8; 32]>,
        after: Client,
        result: Result<(), Error>,
    ) -> bool {
        &&& after.did() == before.did()
        &&& after.manager() == before.manager()
        &&& after.config() == before.config()
        &&& if identity_random is None || kem_random is None {
            &&& result matches Err(e) && e@ == ErrorView::Crypto("CSPRNG unavailable"@)
            &&& after.identity() == before.identity()
            &&& after.kem() == before.kem()
        } else {
            &&& result is Ok
            &&& after.identity() is Some
            &&& after.kem() is Some
            &&& keypair_outcome(identity_random, KeyType::Ed25519, Ok(after.identity()->Some_0))
            &&& keypair_outcome(kem_random, KeyType::X25519, Ok(after.kem()->Some_0))
        }
    }

    /// Generates the client's key pairs from two drawn secrets.
    pub fn initialize_with(
        &mut self,
        identity_random: Option<[u8; 32]>,
        kem_random: Option<[u8; 32]>,
    ) -> (result: Result<(), Error>)
        requires
            old(self).wf(),
        ensures
            final(self).wf(),
            Client::keys_generated(*old(self), identity_random, kem_random, *final(self), result),
    {
        let identity = match Crypto::keypair_from_random(identity_random, KeyType::Ed25519) {
            Ok(pair) => pair,
            Err(e) => {
                return Err(e);
            },
        };
        let kem = match Crypto::keypair_from_random(kem_random, KeyType::X25519) {
            Ok(pair) => pair,
            Err(e) => {
                return Err(e);
            },
        };
        self.identity_keypair = Some(identity);
        self.kem_keypair = Some(kem);
        Ok(())
    }

    /// Generates the client's signing and key-agreement key pairs.
    pub fn initialize(&mut self) -> (result: Result<(), Error>)
        requires
            old(self).wf(),
        ensures
            final(self).wf(),
            exists|identity_random: Option<[u8; 32]>, kem_random: Option<[u8; 32]>|
                Client::keys_generated(
                    *old(self),
                    identity_random,
                    kem_random,
                    *final(self),
                    result,
                ),
    {
        let identity_random = random_secret();
        let kem_random = random_secret();
        self.initialize_with(identity_random, kem_random)
    }

    /// Creates a client for `config`, with fresh keys, no identifier and no
    /// sessions.
    pub fn new(config: ClientConfig) -> (result: Result<Client, Error>)
        ensures
            match result {
                Ok(client) => {
                    &&& client.wf()
                    &&& client.config() == config
                    &&& client.did() is None
                    &&& client.identity() matches Some(pair) && pair.key_type == KeyType::Ed25519
                        && pair.public_key@ == ed25519_public(pair.private_key@)
                    &&& client.kem() matches Some(pair) && pair.key_type == KeyType::X25519
                        && pair.public_key@ == x25519_public(pair.private_key@)
                    &&& client.manager().ids().len() == 0
                    &&& client.manager().capacity() == config.max_sessions
                },
                Err(e) => e@ == ErrorView::Crypto("CSPRNG unavailable"@),
            },
    {
        let session_manager = SessionManager::new(config.max_sessions);
        let mut client = Client {
            config,
            identity_keypair: None,
            kem_keypair: None,
            client_did: None,
            session_manager,
        };
        match client.initialize() {
            Ok(()) => Ok(client),
            Err(e) => Err(e),
        }
    }

    /// Decodes the key-encapsulation key that the server has answered with.
    pub fn server_kem_key(response: &KemPublicKeyResponse) -> (result: Result<Vec<u8>, Error>)
        ensures
            match base64_decoded(response.kem_public_key@) {
                Some(bytes) => result matches Ok(key) && key@ == bytes,
                None => result matches Err(e) && e@ == ErrorView::Base64Decode,
            },
    {
        Crypto::base64_decode(response.kem_public_key.as_str())
    }

    /// Prepares the registration of this client under `did`: the metadata to
    /// submit, with both public keys in base64.
    pub fn registration(&self, did: &str, name: &str) -> (result: Result<AgentMetadata, Error>)
        requires
            self.wf(),
        ensures
            self.identity() is None || self.kem() is None ==> (result matches Err(e) && e@
                == ErrorView::NotInitialized),
            self.identity() is Some && self.kem() is Some ==> {
                &&& result matches Ok(metadata)
                &&& metadata.did@ == did@
                &&& metadata.name@ == name@
                &&& metadata.is_active
                &&& metadata.public_key@ == base64_encoded(self.identity()->Some_0.public_key@)
                &&& metadata.public_kem_key@ == base64_encoded(self.kem()->Some_0.public_key@)
            },
    {
        let identity = match &self.identity_keypair {
            Some(pair) => pair,
            None => {
                return Err(Error::NotInitialized);
            },
        };
        let kem = match &self.kem_keypair {
            Some(pair) => pair,
            None => {
                return Err(Error::NotInitialized);
            },
        };
        Ok(
            AgentMetadata {
                did: String::from_str(did),
                name: String::from_str(name),
                is_active: true,
                public_key: Crypto::base64_encode(identity.public_key.as_slice()),
                public_kem_key: Crypto::base64_encode(kem.public_key.as_slice()),
            },
        )
    }

    /// Records that the server has registered this client under `did`.
    pub fn registered(&mut self, did: &str)
        ensures
            final(self).did() matches Some(d) && d@ == did@,
            final(self).identity() == old(self).identity(),
            final(self).kem() == old(self).kem(),
            final(self).manager() == old(self).manager(),
            final(self).config() == old(self).config(),
    {
        self.client_did = Some(String::from_str(did));
    }

    /// Whether the client can open sessions: it needs its identifier and
    /// its identity key.
    pub fn check_ready(&self) -> (result: Result<(), Error>)
        ensures
            self.did() is Some && self.identity() is Some ==> result is Ok,
            self.did() is None || self.identity() is None ==> (result matches Err(e) && e@
                == ErrorView::NotInitialized),
    {
        if self.client_did.is_none() || self.identity_keypair.is_none() {
            return Err(Error::NotInitialized);
        }
        Ok(())
    }

    /// Prepares a handshake with the server from its key-encapsulation key,
    /// the drawn ephemeral secret and two clock readings.
    pub fn begin_handshake_with(
        &self,
        server_did: &str,
        server_kem_key: &[u8],
        random: Option<[u8; 32]>,
        payload_time: i64,
        envelope_time: i64,
    ) -> (result: Result<PendingHandshake, Error>)
        ensures
            handshake_started(
                self.did(),
                self.identity(),
                server_did@,
                server_kem_key@,
                random,
                payload_time,
                envelope_time,
                result,
            ),
    {
        let client_did = match &self.client_did {
            Some(did) => did,
            None => {
                return Err(Error::NotInitialized);
            },
        };
        let identity = match &self.identity_keypair {
            Some(pair) => pair,
            None => {
                return Err(Error::NotInitialized);
            },
        };
        let (mut context, encapsulated_key) = match setup_hpke_sender_with(server_kem_key, random) {
            Ok(pair) => pair,
            Err(e) => {
                return Err(e);
            },
        };
        let payload = match build_handshake_payload(client_did.as_str(), payload_time) {
            Ok(payload) => payload,
            Err(e) => {
                return Err(e);
            },
        };
        let sealed = match context.seal(payload.as_slice()) {
            Ok(sealed) => sealed,
            Err(e) => {
                return Err(e);
            },
        };
        let message = frame_handshake(encapsulated_key.as_slice(), sealed.as_slice());
        let parts = match seal_parts(
            client_did.as_str(),
            server_did,
            message.as_slice(),
            envelope_time,
            identity.private_key.as_slice(),
        ) {
            Ok(parts) => parts,
            Err(e) => {
                return Err(e);
            },
        };
        let request = HandshakeRequest {
            sender_did: client_did.clone(),
            receiver_did: String::from_str(server_did),
            message: parts.message,
            timestamp: envelope_time,
            signature: parts.signature,
        };
        Ok(PendingHandshake { request, context })
    }

    /// Prepares a handshake with the server, drawing the ephemeral secret
    /// and stamping the envelope by the system clock.
    pub fn begin_handshake(
        &self,
        server_did: &str,
        server_kem_key: &[u8],
    ) -> (result: Result<PendingHandshake, Error>)
        ensures
            exists|random: Option<[u8; 32]>, payload_time: i64, envelope_time: i64|
                handshake_started(
                    self.did(),
                    self.identity(),
                    server_did@,
                    server_kem_key@,
                    random,
                    payload_time,
                    envelope_time,
                    result,
                ),
    {
        let random = random_secret();
        let payload_time = current_timestamp();
        let envelope_time = current_timestamp();
        self.begin_handshake_with(server_did, server_kem_key, random, payload_time, envelope_time)
    }

    /// The session that a handshake opens once the server has answered.
    pub open spec fn opened_session(
        pending: PendingHandshake,
        response: HandshakeResponse,
        now: i64,
        session: Session,
    ) -> bool {
        &&& session.session_id == response.session_id
        &&& session.client_did == pending.request.sender_did
        &&& session.server_did == pending.request.receiver_did
        &&& session.hpke_context == pending.context
        &&& session.created_at == now
        &&& session.expires_at == now + SESSION_LIFETIME_SECONDS
        &&& session.last_activity == now
        &&& session.message_count == 0
        &&& session.highest_received is None
        &&& !session.compromised
    }

    /// What completing a handshake at `now` does: the session that it opens
    /// is handed to the manager, and where the manager keeps it, its
    /// identifier is returned.
    pub open spec fn handshake_completed(
        before: Client,
        pending: PendingHandshake,
        response: HandshakeResponse,
        now: i64,
        after: Client,
        result: Result<String, Error>,
    ) -> bool {
        &&& after.did() == before.did()
        &&& after.identity() == before.identity()
        &&& after.kem() == before.kem()
        &&& after.config() == before.config()
        &&& exists|session: Session|
            #[trigger] Client::opened_session(pending, response, now, session)
                && SessionManager::add_outcome(
                before.manager(),
                session,
                now,
                after.manager(),
                match result {
                    Ok(_) => Ok(()),
                    Err(e) => Err(e),
                },
            )
        &&& result matches Ok(id) ==> id == response.session_id
    }

    /// Completes a handshake at the time `now`: the session that the server
    /// has named is stored, to live for an hour. Returns its identifier.
    pub fn complete_handshake_at(
        &mut self,
        pending: PendingHandshake,
        response: HandshakeResponse,
        now: i64,
    ) -> (result: Result<String, Error>)
        requires
            old(self).wf(),
            now + SESSION_LIFETIME_SECONDS <= i64::MAX,
        ensures
            final(self).wf(),
            Client::handshake_completed(*old(self), pending, response, now, *final(self), result),
    {
        let session_id = response.session_id.clone();
        let session = Session::new_at(
            response.session_id,
            pending.request.sender_did,
            pending.request.receiver_did,
            pending.context,
            SESSION_LIFETIME_SECONDS,
            now,
        );
        assert(Client::opened_session(pending, response, now, session));
        match self.session_manager.add_session_at(session, now) {
            Ok(()) => Ok(session_id),
            Err(e) => Err(e),
        }
    }

    /// Completes a handshake now, by the clock.
    pub fn complete_handshake(
        &mut self,
        pending: PendingHandshake,
        response: HandshakeResponse,
    ) -> (result: Result<String, Error>)
        requires
            old(self).wf(),
        ensures
            final(self).wf(),
            exists|now: i64|
                #[trigger] clock_reading(now) && Client::handshake_completed(
                    *old(self),
                    pending,
                    response,
                    now,
                    *final(self),
                    result,
                ),
    {
        let now = utc_now();
        assert(clock_reading(now));
        self.complete_handshake_at(pending, response, now)
    }

    /// What preparing a message on a session does, given the session that
    /// the lookup hands out, if any, and what sealing on it gives. A client
    /// without identifier or keys, and a message too long for an envelope,
    /// are refused before any session is touched. A session that is not
    /// stored, or has expired, is not found. Else the message is sealed on
    /// the session and wrapped in an envelope to the session's server,
    /// signed with the identity key.
    pub open spec fn message_prepared(
        before: Client,
        session_id: Seq<char>,
        message: Seq<u8>,
        now: i64,
        envelope_time: i64,
        after: Client,
        found: Option<(Session, Session)>,
        sealed: Result<Vec<u8>, Error>,
        result: Result<MessageRequest, Error>,
    ) -> bool {
        &&& after.did() == before.did()
        &&& after.identity() == before.identity()
        &&& after.kem() == before.kem()
        &&& after.config() == before.config()
        &&& if before.did() is None || before.identity() is None {
            &&& result matches Err(e) && e@ == ErrorView::NotInitialized
            &&& after.manager() == before.manager()
        } else if before.identity()->Some_0.private_key@.len() != 32 {
            &&& result matches Err(e) && e@ == ErrorView::Crypto("Invalid private key length"@)
            &&& after.manager() == before.manager()
        } else if too_long_to_encode(message.len() + 28) {
            &&& result matches Err(e) && e@ == ErrorView::Encryption("Message too long"@)
            &&& after.manager() == before.manager()
        } else {
            &&& SessionManager::get_outcome(
                before.manager(),
                session_id,
                now,
                after.manager(),
                found,
            )
            &&& match found {
                None => result matches Err(e) && e@ == ErrorView::Session("Session not found"@),
                Some((handed, left)) => {
                    &&& Session::encrypt_outcome(handed, message, now, left, sealed)
                    &&& match sealed {
                        Err(error) => result matches Err(e) && e@ == error@,
                        Ok(sealed_message) => {
                            &&& result matches Ok(request)
                            &&& request.sender_did == before.did()->Some_0
                            &&& request.receiver_did == handed.server_did
                            &&& request.timestamp == envelope_time
                            &&& sealed_as(
                                before.did()->Some_0@,
                                handed.server_did@,
                                sealed_message@,
                                envelope_time,
                                before.identity()->Some_0.private_key@,
                                request.message@,
                                request.signature@,
                            )
                        },
                    }
                },
            }
        }
    }

    /// Prepares a message on a session at the time `now`, in an envelope
    /// stamped `envelope_time`.
    pub fn prepare_message_at(
        &mut self,
        session_id: &str,
        message: &[u8],
        now: i64,
        envelope_time: i64,
    ) -> (result: Result<MessageRequest, Error>)
        requires
            old(self).wf(),
        ensures
            final(self).wf(),
            exists|found: Option<(Session, Session)>, sealed: Result<Vec<u8>, Error>|
                #[trigger] Client::message_prepared(
                    *old(self),
                    session_id@,
                    message@,
                    now,
                    envelope_time,
                    *final(self),
                    found,
                    sealed,
                    result,
                ),
    {
        let client_did = match &self.client_did {
            Some(did) => did,
            None => {
                assert(Client::message_prepared(
                    *old(self),
                    session_id@,
                    message@,
                    now,
                    envelope_time,
                    *self,
                    None,
                    Err(Error::NotInitialized),
                    Err(Error::NotInitialized),
                ));
                return Err(Error::NotInitialized);
            },
        };
        let identity = match &self.identity_keypair {
            Some(pair) => pair,
            None => {
                assert(Client::message_prepared(
                    *old(self),
                    session_id@,
                    message@,
                    now,
                    envelope_time,
                    *self,
                    None,
                    Err(Error::NotInitialized),
                    Err(Error::NotInitialized),
                ));
                return Err(Error::NotInitialized);
            },
        };
        let secret = match to_array::<32>(identity.private_key.as_slice()) {
            Some(secret) => secret,
            None => {
                let error = Error::crypto("Invalid private key length");
                assert(Client::message_prepared(
                    *old(self),
                    session_id@,
                    message@,
                    now,
                    envelope_time,
                    *self,
                    None,
                    Err(Error::NotInitialized),
                    Err(error),
                ));
                return Err(error);
            },
        };
        if message.len() > usize::MAX - 28 || exceeds_encodable(message.len() + 28) {
            let error = Error::encryption("Message too long");
            assert(Client::message_prepared(
                *old(self),
                session_id@,
                message@,
                now,
                envelope_time,
                *self,
                None,
                Err(Error::NotInitialized),
                Err(error),
            ));
            return Err(error);
        }
        let session = match self.session_manager.get_session_at(session_id, now) {
            Some(session) => session,
            None => {
                let error = Error::session("Session not found");
                assert(Client::message_prepared(
                    *old(self),
                    session_id@,
                    message@,
                    now,
                    envelope_time,
                    *self,
                    None,
                    Err(Error::NotInitialized),
                    Err(error),
                ));
                return Err(error);
            },
        };
        let ghost handed = *session;
        let sealed = session.encrypt_at(message, now);
        let ghost left = *session;
        let sealed_message = match sealed {
            Ok(sealed_message) => sealed_message,
            Err(e) => {
                assert(Client::message_prepared(
                    *old(self),
                    session_id@,
                    message@,
                    now,
                    envelope_time,
                    *self,
                    Some((handed, left)),
                    sealed,
                    Err(e),
                ));
                return Err(e);
            },
        };
        let receiver_did = session.server_did.clone();
        let parts = sign_parts(
            client_did.as_str(),
            receiver_did.as_str(),
            sealed_message.as_slice(),
            envelope_time,
            &secret,
        );
        let request = MessageRequest {
            sender_did: client_did.clone(),
            receiver_did,
            message: parts.message,
            timestamp: envelope_time,
            signature: parts.signature,
        };
        assert(Client::message_prepared(
            *old(self),
            session_id@,
            message@,
            now,
            envelope_time,
            *self,
            Some((handed, left)),
            sealed,
            Ok(request),
        ));
        Ok(request)
    }

    /// Prepares a message on a session now: the session's clock is read for
    /// its lifetime, the system clock for the envelope's stamp.
    pub fn prepare_message(
        &mut self,
        session_id: &str,
        message: &[u8],
    ) -> (result: Result<MessageRequest, Error>)
        requires
            old(self).wf(),
        ensures
            final(self).wf(),
            exists|
                now: i64,
                envelope_time: i64,
                found: Option<(Session, Session)>,
                sealed: Result<Vec<u8>, Error>,
            |
                clock_reading(now) && #[trigger] Client::message_prepared(
                    *old(self),
                    session_id@,
                    message@,
                    now,
                    envelope_time,
                    *final(self),
                    found,
                    sealed,
                    result,
                ),
    {
        let now = utc_now();
        let envelope_time = current_timestamp();
        self.prepare_message_at(session_id, message, now, envelope_time)
    }

    /// What taking in the server's answer on a session does, given the
    /// session that the lookup hands out, if any. An answer that is not
    /// base64 is refused before any session is touched; a session that is
    /// not stored, or has expired, is not found; else the answer is
    /// decrypted on the session.
    pub open spec fn response_accepted(
        before: Client,
        session_id: Seq<char>,
        response: Seq<char>,
        now: i64,
        after: Client,
        found: Option<(Session, Session)>,
        result: Result<Vec<u8>, Error>,
    ) -> bool {
        &&& after.did() == before.did()
        &&& after.identity() == before.identity()
        &&& after.kem() == before.kem()
        &&& after.config() == before.config()
        &&& match base64_decoded(response) {
            None => {
                &&& result matches Err(e) && e@ == ErrorView::Base64Decode
                &&& after.manager() == before.manager()
            },
            Some(sealed) => {
                &&& SessionManager::get_outcome(
                    before.manager(),
                    session_id,
                    now,
                    after.manager(),
                    found,
                )
                &&& match found {
                    None => result matches Err(e) && e@ == ErrorView::Session(
                        "Session not found"@,
                    ),
                    Some((handed, left)) => Session::decrypt_outcome(
                        handed,
                        sealed,
                        now,
                        left,
                        result,
                    ),
                }
            },
        }
    }

    /// Takes in the server's answer on a session at the time `now`, and
    /// returns what it says.
    pub fn accept_response_at(
        &mut self,
        session_id: &str,
        response: &MessageResponse,
        now: i64,
    ) -> (result: Result<Vec<u8>, Error>)
        requires
            old(self).wf(),
        ensures
            final(self).wf(),
            exists|found: Option<(Session, Session)>| #[trigger]
                Client::response_accepted(
                    *old(self),
                    session_id@,
                    response.response@,
                    now,
                    *final(self),
                    found,
                    result,
                ),
    {
        let sealed = match Crypto::base64_decode(response.response.as_str()) {
            Ok(sealed) => sealed,
            Err(e) => {
                assert(Client::response_accepted(
                    *old(self),
                    session_id@,
                    response.response@,
                    now,
                    *self,
                    None,
                    Err(e),
                ));
                return Err(e);
            },
        };
        let session = match self.session_manager.get_session_at(session_id, now) {
            Some(session) => session,
            None => {
                let error = Error::session("Session not found");
                assert(Client::response_accepted(
                    *old(self),
                    session_id@,
                    response.response@,
                    now,
                    *self,
                    None,
                    Err(error),
                ));
                return Err(error);
            },
        };
        let ghost handed = *session;
        let result = session.decrypt_at(sealed.as_slice(), now);
        let ghost left = *session;
        assert(Client::response_accepted(
            *old(self),
            session_id@,
            response.response@,
            now,
            *self,
            Some((handed, left)),
            result,
        ));
        result
    }

    /// Takes in the server's answer on a session now, by the clock.
    pub fn accept_response(
        &mut self,
        session_id: &str,
        response: &MessageResponse,
    ) -> (result: Result<Vec<u8>, Error>)
        requires
            old(self).wf(),
        ensures
            final(self).wf(),
            exists|now: i64, found: Option<(Session, Session)>|
                clock_reading(now) && #[trigger] Client::response_accepted(
                    *old(self),
                    session_id@,
                    response.response@,
                    now,
                    *final(self),
                    found,
                    result,
                ),
    {
        let now = utc_now();
        self.accept_response_at(session_id, response, now)
    }

    /// Counts the sessions that are live at `now`, after removing the
    /// others.
    pub fn active_sessions_at(&mut self, now: i64) -> (count: usize)
        requires
            old(self).wf(),
        ensures
            final(self).wf(),
            final(self).did() == old(self).did(),
            final(self).identity() == old(self).identity(),
            final(self).kem() == old(self).kem(),
            final(self).config() == old(self).config(),
            SessionManager::swept(old(self).manager(), now, final(self).manager()),
            count == final(self).manager().sessions().len(),
            count <= final(self).manager().capacity(),
    {
        self.session_manager.count_at(now)
    }

    /// Counts the sessions that are live now, by the clock.
    pub fn active_sessions(&mut self) -> (count: usize)
        requires
            old(self).wf(),
        ensures
            final(self).wf(),
            exists|now: i64|
                #[trigger] clock_reading(now) && SessionManager::swept(
                    old(self).manager(),
                    now,
                    final(self).manager(),
                ),
            count == final(self).manager().sessions().len(),
            count <= final(self).manager().capacity(),
    {
        let now = utc_now();
        assert(clock_reading(now));
        self.active_sessions_at(now)
    }
}

} // verus!
