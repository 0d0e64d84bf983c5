//! The agent registry: accounts that bind a DID to its owner and keys, and
//! the instructions that create and change them.
//!
//! Each instruction takes the accounts it works on, the instruction's
//! arguments and the ledger's clock reading, and returns the event to emit.
//! An instruction that fails leaves every account as it was.

use crate::crypto::{ed25519_accepts, ed25519_check_key, ed25519_key_decodes, ed25519_verify};
use crate::pubkey::Pubkey;
use crate::text::same_text;
use vstd::bytes::{spec_u64_to_le_bytes, u64_to_le_bytes};
use vstd::prelude::*;
use vstd::slice::slice_to_vec;
use vstd::utf8::encode_utf8;

verus! {

pub const MAX_KEYS_PER_AGENT: usize = 5;

pub const MAX_DID_LEN: usize = 128;

pub const MAX_NAME_LEN: usize = 64;

pub const MAX_DESCRIPTION_LEN: usize = 256;

pub const MAX_ENDPOINT_LEN: usize = 128;

pub const MAX_CAPABILITIES_LEN: usize = 256;

/// The key type of Ed25519, the one scheme this ledger verifies.
pub const KEY_TYPE_ED25519: u8 = 0;

/// Why an instruction was refused.
#[derive(Debug, Clone, Copy, PartialEq, Eq, Structural)]
pub enum ErrorCode {
    DIDTooLong,
    NameTooLong,
    DescriptionTooLong,
    EndpointTooLong,
    CapabilitiesTooLong,
    NoKeysProvided,
    TooManyKeys,
    KeyArrayMismatch,
    UnsupportedKeyType,
    InvalidSignature,
    AgentAlreadyInactive,
    InvalidKeyIndex,
    KeyAlreadyRevoked,
    CannotRevokeLastKey,
    /// The agent was deactivated; it accepts no further change.
    AgentNotActive,
    /// The signer is not the account's owner, or not the registry's authority.
    Unauthorized,
    /// An agent account with this DID exists already.
    AgentAlreadyExists,
    /// A counter stands at its last value: the agent's nonce, or the
    /// registry's count of agents.
    CounterExhausted,
}

impl ErrorCode {
    /// The reason in words.
    pub open spec fn text(self) -> Seq<char> {
        match self {
            ErrorCode::DIDTooLong => "DID too long"@,
            ErrorCode::NameTooLong => "Name too long"@,
            ErrorCode::DescriptionTooLong => "Description too long"@,
            ErrorCode::EndpointTooLong => "Endpoint too long"@,
            ErrorCode::CapabilitiesTooLong => "Capabilities too long"@,
            ErrorCode::NoKeysProvided => "No keys provided"@,
            ErrorCode::TooManyKeys => "Too many keys"@,
            ErrorCode::KeyArrayMismatch => "Key array length mismatch"@,
            ErrorCode::UnsupportedKeyType => "Unsupported key type"@,
            ErrorCode::InvalidSignature => "Invalid signature"@,
            ErrorCode::AgentAlreadyInactive => "Agent already inactive"@,
            ErrorCode::InvalidKeyIndex => "Invalid key index"@,
            ErrorCode::KeyAlreadyRevoked => "Key already revoked"@,
            ErrorCode::CannotRevokeLastKey => "Cannot revoke last key"@,
            ErrorCode::AgentNotActive => "Agent not active"@,
            ErrorCode::Unauthorized => "Signer is not authorized"@,
            ErrorCode::AgentAlreadyExists => "Agent already registered"@,
            ErrorCode::CounterExhausted => "Counter exhausted"@,
        }
    }

    /// The reason in words.
    pub fn message(&self) -> (message: &'static str)
        ensures
            message@ == self.text(),
    {
        match self {
            ErrorCode::DIDTooLong => "DID too long",
            ErrorCode::NameTooLong => "Name too long",
            ErrorCode::DescriptionTooLong => "Description too long",
            ErrorCode::EndpointTooLong => "Endpoint too long",
            ErrorCode::CapabilitiesTooLong => "Capabilities too long",
            ErrorCode::NoKeysProvided => "No keys provided",
            ErrorCode::TooManyKeys => "Too many keys",
            ErrorCode::KeyArrayMismatch => "Key array length mismatch",
            ErrorCode::UnsupportedKeyType => "Unsupported key type",
            ErrorCode::InvalidSignature => "Invalid signature",
            ErrorCode::AgentAlreadyInactive => "Agent already inactive",
            ErrorCode::InvalidKeyIndex => "Invalid key index",
            ErrorCode::KeyAlreadyRevoked => "Key already revoked",
            ErrorCode::CannotRevokeLastKey => "Cannot revoke last key",
            ErrorCode::AgentNotActive => "Agent not active",
            ErrorCode::Unauthorized => "Signer is not authorized",
            ErrorCode::AgentAlreadyExists => "Agent already registered",
            ErrorCode::CounterExhausted => "Counter exhausted",
        }
    }
}

/// The singleton account of the registry.
#[derive(Debug, Clone, Copy, PartialEq, Eq)]
pub struct Registry {
    pub authority: Pubkey,
    pub agent_count: u64,
    pub verification_hook: Option<Pubkey>,
}

impl Registry {
    /// Bytes the account takes on the ledger.
    pub const LEN: usize = 32 + 8 + 1 + 32;
}

/// The account of one agent.
#[derive(Debug, Clone, PartialEq, Eq)]
pub struct Agent {
    pub did: String,
    pub name: String,
    pub description: String,
    pub endpoint: String,
    pub capabilities: String,
    pub owner: Pubkey,
    pub registered_at: i64,
    pub updated_at: i64,
    pub active: bool,
    pub nonce: u64,
    pub key_count: u8,
    pub public_keys: [[u8; 32]; MAX_KEYS_PER_AGENT],
    pub key_types: [u8; MAX_KEYS_PER_AGENT],
    pub key_revoked: [bool; MAX_KEYS_PER_AGENT],
}

/// How many of the first `count` keys are not revoked.
pub open spec fn active_count(revoked: Seq<bool>, count: int) -> int
    decreases count,
{
    if count <= 0 {
        0
    } else {
        active_count(revoked, count - 1) + if revoked[count - 1] {
            0int
        } else {
            1int
        }
    }
}

/// The number of bytes a string takes in UTF-8.
pub open spec fn utf8_len(text: Seq<char>) -> nat {
    encode_utf8(text).len()
}

impl Agent {
    /// Bytes the account takes on the ledger.
    pub const LEN: usize = 4 + MAX_DID_LEN + 4 + MAX_NAME_LEN + 4 + MAX_DESCRIPTION_LEN + 4
        + MAX_ENDPOINT_LEN + 4 + MAX_CAPABILITIES_LEN + 32 + 8 + 8 + 1 + 8 + 1 + (32
        * MAX_KEYS_PER_AGENT) + MAX_KEYS_PER_AGENT + MAX_KEYS_PER_AGENT;

    /// The number of keys that are stored and not revoked.
    pub open spec fn active_key_count(&self) -> int {
        active_count(self.key_revoked@, self.key_count as int)
    }

    /// Whether every text field is within its bound.
    pub open spec fn within_bounds(&self) -> bool {
        &&& utf8_len(self.did@) <= MAX_DID_LEN
        &&& utf8_len(self.name@) <= MAX_NAME_LEN
        &&& utf8_len(self.description@) <= MAX_DESCRIPTION_LEN
        &&& utf8_len(self.endpoint@) <= MAX_ENDPOINT_LEN
        &&& utf8_len(self.capabilities@) <= MAX_CAPABILITIES_LEN
    }

    /// The invariant of a registered agent: between one and five keys, at
    /// least one of them usable, and every text field within its bound.
    pub open spec fn valid(&self) -> bool {
        &&& 1 <= self.active_key_count() <= self.key_count <= MAX_KEYS_PER_AGENT
        &&& self.within_bounds()
    }

    /// Decides whether the account meets the invariant of a registered
    /// agent.
    pub fn is_valid(&self) -> (valid: bool)
        ensures
            valid == self.valid(),
    {
        if self.key_count == 0 || self.key_count as usize > MAX_KEYS_PER_AGENT {
            return false;
        }
        self.count_active_keys() >= 1 && byte_len(self.did.as_str()) <= MAX_DID_LEN && byte_len(
            self.name.as_str(),
        ) <= MAX_NAME_LEN && byte_len(self.description.as_str()) <= MAX_DESCRIPTION_LEN
            && byte_len(self.endpoint.as_str()) <= MAX_ENDPOINT_LEN && byte_len(
            self.capabilities.as_str(),
        ) <= MAX_CAPABILITIES_LEN
    }

    /// Counts the keys that are stored and not revoked.
    pub fn count_active_keys(&self) -> (count: usize)
        requires
            self.key_count <= MAX_KEYS_PER_AGENT,
        ensures
            count == self.active_key_count(),
            count <= self.key_count,
    {
        let mut count: usize = 0;
        let mut i: usize = 0;
        while i < self.key_count as usize
            invariant
                i <= self.key_count <= MAX_KEYS_PER_AGENT,
                count == active_count(self.key_revoked@, i as int),
                count <= i,
            decreases self.key_count - i,
        {
            if !self.key_revoked[i] {
                count += 1;
            }
            i += 1;
        }
        count
    }
}

/// The accounts of `initialize`.
#[derive(Debug, Clone, Copy, PartialEq, Eq)]
pub struct Initialize {
    /// The registry account being created.
    pub registry: Registry,
    /// The signer, who becomes the authority.
    pub authority: Pubkey,
}

/// The accounts of `register_agent`.
#[derive(Debug, Clone, PartialEq, Eq)]
pub struct RegisterAgent {
    /// The agent account being created.
    pub agent: Agent,
    pub registry: Registry,
    /// The signer, who becomes the owner.
    pub owner: Pubkey,
}

/// The accounts of the instructions that change an agent.
#[derive(Debug, Clone, PartialEq, Eq)]
pub struct UpdateAgent {
    pub agent: Agent,
    /// The signer.
    pub owner: Pubkey,
}

/// The accounts of `set_verification_hook`.
#[derive(Debug, Clone, Copy, PartialEq, Eq)]
pub struct SetHook {
    pub registry: Registry,
    /// The signer.
    pub authority: Pubkey,
}

#[derive(Debug, Clone, PartialEq, Eq)]
pub struct AgentRegistered {
    pub did: String,
    pub owner: Pubkey,
    pub timestamp: i64,
}

#[derive(Debug, Clone, PartialEq, Eq)]
pub struct AgentUpdated {
    pub did: String,
    pub timestamp: i64,
}

#[derive(Debug, Clone, PartialEq, Eq)]
pub struct AgentDeactivated {
    pub did: String,
    pub timestamp: i64,
}

#[derive(Debug, Clone, PartialEq, Eq)]
pub struct KeyAdded {
    pub did: String,
    pub key_index: u8,
    pub timestamp: i64,
}

#[derive(Debug, Clone, PartialEq, Eq)]
pub struct KeyRevoked {
    pub did: String,
    pub key_index: u8,
    pub timestamp: i64,
}

#[derive(Debug, Clone, PartialEq, Eq)]
pub struct KeyRotated {
    pub did: String,
    pub key_index: u8,
    pub timestamp: i64,
}

#[derive(Debug, Clone, Copy, PartialEq, Eq)]
pub struct HookUpdated {
    pub hook_program: Option<Pubkey>,
    pub timestamp: i64,
}

/// Whether `signature` proves ownership of `public_key` over `message`: the
/// key decodes and the signature verifies under it.
pub open spec fn signature_valid(
    public_key: Seq<u8>,
    message: Seq<u8>,
    signature: Seq<u8>,
) -> bool {
    ed25519_key_decodes(public_key) && ed25519_accepts(public_key, message, signature)
}

/// The message a key signs to join a new registration: the owner's bytes
/// followed by the DID's UTF-8 bytes.
pub open spec fn registration_message(owner: Pubkey, did: Seq<char>) -> Seq<u8> {
    owner.bytes@ + encode_utf8(did)
}

/// The message a key signs to be added or rotated in: the owner's bytes
/// followed by the agent's current nonce in eight bytes, least significant
/// first.
pub open spec fn key_operation_message(owner: Pubkey, nonce: u64) -> Seq<u8> {
    owner.bytes@ + spec_u64_to_le_bytes(nonce)
}

/// Verifies an Ed25519 signature over `message`; a key that does not decode
/// and a signature that does not verify are both `InvalidSignature`.
pub fn verify_ed25519_signature(
    pubkey: &[u8; 32],
    message: &[u8],
    signature: &[u8; 64],
) -> (result: Result<(), ErrorCode>)
    ensures
        result == if signature_valid(pubkey@, message@, signature@) {
            Ok::<(), ErrorCode>(())
        } else {
            Err::<(), ErrorCode>(ErrorCode::InvalidSignature)
        },
{
    if ed25519_check_key(pubkey).is_err() {
        return Err(ErrorCode::InvalidSignature);
    }
    if ed25519_verify(pubkey, message, signature) {
        Ok(())
    } else {
        Err(ErrorCode::InvalidSignature)
    }
}

/// Measures a string in UTF-8 bytes.
pub fn byte_len(text: &str) -> (length: usize)
    ensures
        length == utf8_len(text@),
{
    text.as_bytes().len()
}

/// Builds the message of a new registration.
pub fn build_registration_message(owner: &Pubkey, did: &str) -> (message: Vec<u8>)
    ensures
        message@ == registration_message(*owner, did@),
{
    let mut message = slice_to_vec(owner.bytes.as_slice());
    message.extend_from_slice(did.as_bytes());
    message
}

/// Builds the message of a key operation at the given nonce.
pub fn build_key_operation_message(owner: &Pubkey, nonce: u64) -> (message: Vec<u8>)
    ensures
        message@ == key_operation_message(*owner, nonce),
        message@.len() == 40,
{
    let mut message = slice_to_vec(owner.bytes.as_slice());
    let nonce_bytes = u64_to_le_bytes(nonce);
    message.extend_from_slice(nonce_bytes.as_slice());
    message
}

/// Keys that are all usable count in full.
pub proof fn active_count_of_unrevoked(revoked: Seq<bool>, count: int)
    requires
        0 <= count <= revoked.len(),
        forall|i: int| 0 <= i < count ==> !revoked[i],
    ensures
        active_count(revoked, count) == count,
    decreases count,
{
    if count > 0 {
        active_count_of_unrevoked(revoked, count - 1);
    }
}

/// The count depends on the first `count` flags only.
pub proof fn active_count_of_prefix(a: Seq<bool>, b: Seq<bool>, count: int)
    requires
        0 <= count <= a.len(),
        count <= b.len(),
        forall|i: int| 0 <= i < count ==> a[i] == b[i],
    ensures
        active_count(a, count) == active_count(b, count),
    decreases count,
{
    if count > 0 {
        active_count_of_prefix(a, b, count - 1);
    }
}

/// The count never exceeds the number of keys, and revoking a usable key
/// lowers it by one.
pub proof fn active_count_after_revoking(revoked: Seq<bool>, count: int, index: int)
    requires
        0 <= count <= revoked.len(),
    ensures
        0 <= active_count(revoked, count) <= count,
        0 <= index < count && !revoked[index] ==> active_count(revoked.update(index, true), count)
            == active_count(revoked, count) - 1,
    decreases count,
{
    if count > 0 {
        active_count_after_revoking(revoked, count - 1, index);
        if index == count - 1 {
            active_count_of_prefix(revoked, revoked.update(index, true), count - 1);
        }
    }
}

/// Creates the registry: the signer becomes its authority, no agent is
/// counted and no hook is set.
pub fn initialize(ctx: &mut Initialize) -> (result: Result<(), ErrorCode>)
    ensures
        result is Ok,
        final(ctx).authority == old(ctx).authority,
        final(ctx).registry == (Registry {
            authority: old(ctx).authority,
            agent_count: 0,
            verification_hook: None,
        }),
{
    ctx.registry.authority = ctx.authority;
    ctx.registry.agent_count = 0;
    ctx.registry.verification_hook = None;
    Ok(())
}

/// The first key, from index `from` on, whose type is not supported or whose
/// signature does not prove its ownership, with the reason.
pub open spec fn first_key_failure(
    keys: Seq<[u8; 32]>,
    types: Seq<u8>,
    signatures: Seq<[u8; 64]>,
    message: Seq<u8>,
    from: int,
) -> Option<ErrorCode>
    decreases keys.len() - from,
{
    if from < 0 || from >= keys.len() {
        None
    } else if types[from] != KEY_TYPE_ED25519 {
        Some(ErrorCode::UnsupportedKeyType)
    } else if !signature_valid(keys[from]@, message, signatures[from]@) {
        Some(ErrorCode::InvalidSignature)
    } else {
        first_key_failure(keys, types, signatures, message, from + 1)
    }
}

/// Why a registration is refused, if it is: the first check that fails. An
/// account that holds an agent already cannot take another; then come the
/// text bounds, the key counts and the keys one by one; and last, the
/// registry must be able to count one agent more.
pub open spec fn registration_error(
    account_in_use: bool,
    owner: Pubkey,
    did: Seq<char>,
    name: Seq<char>,
    description: Seq<char>,
    endpoint: Seq<char>,
    capabilities: Seq<char>,
    keys: Seq<[u8; 32]>,
    types: Seq<u8>,
    signatures: Seq<[u8; 64]>,
    agent_count: u64,
) -> Option<ErrorCode> {
    if account_in_use {
        Some(ErrorCode::AgentAlreadyExists)
    } else if utf8_len(did) > MAX_DID_LEN {
        Some(ErrorCode::DIDTooLong)
    } else if utf8_len(name) > MAX_NAME_LEN {
        Some(ErrorCode::NameTooLong)
    } else if utf8_len(description) > MAX_DESCRIPTION_LEN {
        Some(ErrorCode::DescriptionTooLong)
    } else if utf8_len(endpoint) > MAX_ENDPOINT_LEN {
        Some(ErrorCode::EndpointTooLong)
    } else if utf8_len(capabilities) > MAX_CAPABILITIES_LEN {
        Some(ErrorCode::CapabilitiesTooLong)
    } else if keys.len() == 0 {
        Some(ErrorCode::NoKeysProvided)
    } else if keys.len() > MAX_KEYS_PER_AGENT {
        Some(ErrorCode::TooManyKeys)
    } else if keys.len() != types.len() || keys.len() != signatures.len() {
        Some(ErrorCode::KeyArrayMismatch)
    } else if first_key_failure(keys, types, signatures, registration_message(owner, did), 0)
        is Some {
        first_key_failure(keys, types, signatures, registration_message(owner, did), 0)
    } else if agent_count == u64::MAX {
        Some(ErrorCode::CounterExhausted)
    } else {
        None
    }
}

/// A key fails for its type or for its signature, and for nothing else.
pub proof fn key_failure_is_of_the_key(
    keys: Seq<[u8; 32]>,
    types: Seq<u8>,
    signatures: Seq<[u8; 64]>,
    message: Seq<u8>,
    from: int,
)
    ensures
        match first_key_failure(keys, types, signatures, message, from) {
            Some(code) => code == ErrorCode::UnsupportedKeyType || code
                == ErrorCode::InvalidSignature,
            None => true,
        },
        (forall|i: int|
            from <= i < keys.len() ==> types[i] == KEY_TYPE_ED25519 && signature_valid(
                keys[i]@,
                message,
                signatures[i]@,
            )) && from >= 0 ==> first_key_failure(keys, types, signatures, message, from) is None,
    decreases keys.len() - from,
{
    if 0 <= from < keys.len() {
        key_failure_is_of_the_key(keys, types, signatures, message, from + 1);
    }
}

/// A registration on a free account is accepted exactly where every text is
/// within its bound, the bound itself included, there are one to five keys
/// with as many types and signatures, every key is of the supported type and
/// has signed the registration message, and the registry can count on.
pub proof fn registration_is_accepted_within_bounds(
    owner: Pubkey,
    did: Seq<char>,
    name: Seq<char>,
    description: Seq<char>,
    endpoint: Seq<char>,
    capabilities: Seq<char>,
    keys: Seq<[u8; 32]>,
    types: Seq<u8>,
    signatures: Seq<[u8; 64]>,
    agent_count: u64,
)
    ensures
        registration_error(
            false,
            owner,
            did,
            name,
            description,
            endpoint,
            capabilities,
            keys,
            types,
            signatures,
            agent_count,
        ) is None <==> {
            &&& utf8_len(did) <= MAX_DID_LEN
            &&& utf8_len(name) <= MAX_NAME_LEN
            &&& utf8_len(description) <= MAX_DESCRIPTION_LEN
            &&& utf8_len(endpoint) <= MAX_ENDPOINT_LEN
            &&& utf8_len(capabilities) <= MAX_CAPABILITIES_LEN
            &&& 1 <= keys.len() <= MAX_KEYS_PER_AGENT
            &&& keys.len() == types.len()
            &&& keys.len() == signatures.len()
            &&& first_key_failure(keys, types, signatures, registration_message(owner, did), 0)
                is None
            &&& agent_count < u64::MAX
        },
{
}

/// Whether `after` is the account of a new registration written over
/// `before`: active, with nonce zero and both timestamps `now`, the keys
/// stored in the order given and none revoked. Places behind the last key are
/// left as they were.
pub open spec fn is_registration(
    after: Agent,
    before: Agent,
    owner: Pubkey,
    did: String,
    name: String,
    description: String,
    endpoint: String,
    capabilities: String,
    keys: Seq<[u8; 32]>,
    types: Seq<u8>,
    now: i64,
) -> bool {
    &&& after.did == did
    &&& after.name == name
    &&& after.description == description
    &&& after.endpoint == endpoint
    &&& after.capabilities == capabilities
    &&& after.owner == owner
    &&& after.registered_at == now
    &&& after.updated_at == now
    &&& after.active
    &&& after.nonce == 0
    &&& after.key_count == keys.len()
    &&& forall|i: int|
        0 <= i < keys.len() ==> {
            &&& #[trigger] after.public_keys@[i] == keys[i]
            &&& after.key_types@[i] == types[i]
            &&& !after.key_revoked@[i]
        }
    &&& forall|i: int|
        keys.len() <= i < MAX_KEYS_PER_AGENT ==> {
            &&& #[trigger] after.public_keys@[i] == before.public_keys@[i]
            &&& after.key_types@[i] == before.key_types@[i]
            &&& after.key_revoked@[i] == before.key_revoked@[i]
        }
}

/// Registers a new agent with one to five keys, each of which has signed the
/// registration message. The account must not hold an agent yet: one that
/// does has a key. The new account is active, its nonce is zero, both
/// timestamps are `now`, and its keys are stored in the order given, none
/// revoked; the registry counts one agent more.
#[verifier::loop_isolation(false)]
pub fn register_agent(
    ctx: &mut RegisterAgent,
    did: String,
    name: String,
    description: String,
    endpoint: String,
    capabilities: String,
    public_keys: Vec<[u8; 32]>,
    key_types: Vec<u8>,
    signatures: Vec<[u8; 64]>,
    now: i64,
) -> (result: Result<AgentRegistered, ErrorCode>)
    ensures
        match registration_error(
            old(ctx).agent.key_count != 0,
            old(ctx).owner,
            did@,
            name@,
            description@,
            endpoint@,
            capabilities@,
            public_keys@,
            key_types@,
            signatures@,
            old(ctx).registry.agent_count,
        ) {
            Some(code) => result == Err::<AgentRegistered, ErrorCode>(code) && *final(ctx) == *old(
                ctx,
            ),
            None => {
                &&& result == Ok::<AgentRegistered, ErrorCode>(
                    AgentRegistered { did, owner: old(ctx).owner, timestamp: now },
                )
                &&& final(ctx).owner == old(ctx).owner
                &&& final(ctx).registry == (Registry {
                    agent_count: (old(ctx).registry.agent_count + 1) as u64,
                    ..old(ctx).registry
                })
                &&& is_registration(
                    final(ctx).agent,
                    old(ctx).agent,
                    old(ctx).owner,
                    did,
                    name,
                    description,
                    endpoint,
                    capabilities,
                    public_keys@,
                    key_types@,
                    now,
                )
                &&& final(ctx).agent.valid()
            },
        },
{
    if ctx.agent.key_count != 0 {
        return Err(ErrorCode::AgentAlreadyExists);
    }
    if byte_len(did.as_str()) > MAX_DID_LEN {
        return Err(ErrorCode::DIDTooLong);
    }
    if byte_len(name.as_str()) > MAX_NAME_LEN {
        return Err(ErrorCode::NameTooLong);
    }
    if byte_len(description.as_str()) > MAX_DESCRIPTION_LEN {
        return Err(ErrorCode::DescriptionTooLong);
    }
    if byte_len(endpoint.as_str()) > MAX_ENDPOINT_LEN {
        return Err(ErrorCode::EndpointTooLong);
    }
    if byte_len(capabilities.as_str()) > MAX_CAPABILITIES_LEN {
        return Err(ErrorCode::CapabilitiesTooLong);
    }
    let count = public_keys.len();
    if count == 0 {
        return Err(ErrorCode::NoKeysProvided);
    }
    if count > MAX_KEYS_PER_AGENT {
        return Err(ErrorCode::TooManyKeys);
    }
    if count != key_types.len() {
        return Err(ErrorCode::KeyArrayMismatch);
    }
    if count != signatures.len() {
        return Err(ErrorCode::KeyArrayMismatch);
    }
    let message = build_registration_message(&ctx.owner, did.as_str());
    let mut i: usize = 0;
    while i < count
        invariant
            i <= count,
            count == public_keys@.len(),
            count == key_types@.len(),
            count == signatures@.len(),
            first_key_failure(public_keys@, key_types@, signatures@, message@, 0)
                == first_key_failure(public_keys@, key_types@, signatures@, message@, i as int),
        decreases count - i,
    {
        if key_types[i] != KEY_TYPE_ED25519 {
            return Err(ErrorCode::UnsupportedKeyType);
        }
        match verify_ed25519_signature(&public_keys[i], message.as_slice(), &signatures[i]) {
            Ok(()) => {},
            Err(code) => {
                return Err(code);
            },
        }
        i += 1;
    }
    if ctx.registry.agent_count == u64::MAX {
        return Err(ErrorCode::CounterExhausted);
    }
    let event = AgentRegistered { did: did.clone(), owner: ctx.owner, timestamp: now };
    ctx.agent.did = did;
    ctx.agent.name = name;
    ctx.agent.description = description;
    ctx.agent.endpoint = endpoint;
    ctx.agent.capabilities = capabilities;
    ctx.agent.owner = ctx.owner;
    ctx.agent.registered_at = now;
    ctx.agent.updated_at = now;
    ctx.agent.active = true;
    ctx.agent.nonce = 0;
    ctx.agent.key_count = count as u8;
    let mut stored_keys = ctx.agent.public_keys;
    let mut stored_types = ctx.agent.key_types;
    let mut stored_revoked = ctx.agent.key_revoked;
    let mut j: usize = 0;
    while j < count
        invariant
            j <= count <= MAX_KEYS_PER_AGENT,
            count == public_keys@.len(),
            count == key_types@.len(),
            forall|k: int| 0 <= k < j ==> stored_keys@[k] == public_keys@[k],
            forall|k: int| 0 <= k < j ==> stored_types@[k] == key_types@[k],
            forall|k: int| 0 <= k < j ==> !stored_revoked@[k],
            forall|k: int|
                j <= k < MAX_KEYS_PER_AGENT ==> stored_keys@[k] == old(ctx).agent.public_keys@[k],
            forall|k: int|
                j <= k < MAX_KEYS_PER_AGENT ==> stored_types@[k] == old(ctx).agent.key_types@[k],
            forall|k: int|
                j <= k < MAX_KEYS_PER_AGENT ==> stored_revoked@[k] == old(
                    ctx,
                ).agent.key_revoked@[k],
        decreases count - j,
    {
        stored_keys[j] = public_keys[j];
        stored_types[j] = key_types[j];
        stored_revoked[j] = false;
        j += 1;
    }
    ctx.agent.public_keys = stored_keys;
    ctx.agent.key_types = stored_types;
    ctx.agent.key_revoked = stored_revoked;
    ctx.registry.agent_count = ctx.registry.agent_count + 1;
    proof {
        active_count_of_unrevoked(ctx.agent.key_revoked@, count as int);
    }
    Ok(event)
}

impl Agent {
    /// Whether two accounts agree on everything but keys, nonce, activity and
    /// the time of the last update.
    pub open spec fn same_record(&self, other: &Agent) -> bool {
        &&& self.did == other.did
        &&& self.name == other.name
        &&& self.description == other.description
        &&& self.endpoint == other.endpoint
        &&& self.capabilities == other.capabilities
        &&& self.owner == other.owner
        &&& self.registered_at == other.registered_at
    }

    /// Whether two accounts hold the same keys, in the same state.
    pub open spec fn same_keys(&self, other: &Agent) -> bool {
        &&& self.key_count == other.key_count
        &&& self.public_keys@ == other.public_keys@
        &&& self.key_types@ == other.key_types@
        &&& self.key_revoked@ == other.key_revoked@
    }
}

/// Why `add_key` is refused, if it is.
pub open spec fn add_key_error(
    ctx: UpdateAgent,
    public_key: [u8; 32],
    key_type: u8,
    signature: [u8; 64],
) -> Option<ErrorCode> {
    if ctx.agent.owner != ctx.owner {
        Some(ErrorCode::Unauthorized)
    } else if !ctx.agent.active {
        Some(ErrorCode::AgentNotActive)
    } else if ctx.agent.key_count >= MAX_KEYS_PER_AGENT {
        Some(ErrorCode::TooManyKeys)
    } else if key_type != KEY_TYPE_ED25519 {
        Some(ErrorCode::UnsupportedKeyType)
    } else if !signature_valid(
        public_key@,
        key_operation_message(ctx.owner, ctx.agent.nonce),
        signature@,
    ) {
        Some(ErrorCode::InvalidSignature)
    } else if ctx.agent.nonce == u64::MAX {
        Some(ErrorCode::CounterExhausted)
    } else {
        None
    }
}

/// Adds a key to an agent. The key must have signed the key-operation
/// message at the agent's current nonce. It is stored behind the keys
/// already there, not revoked; the nonce grows by one. A nonce that stands at
/// its last value admits no further key operation.
pub fn add_key(
    ctx: &mut UpdateAgent,
    public_key: [u8; 32],
    key_type: u8,
    signature: [u8; 64],
    now: i64,
) -> (result: Result<KeyAdded, ErrorCode>)
    requires
        old(ctx).agent.valid(),
    ensures
        final(ctx).agent.valid(),
        match add_key_error(*old(ctx), public_key, key_type, signature) {
            Some(code) => result == Err::<KeyAdded, ErrorCode>(code) && *final(ctx) == *old(ctx),
            None => {
                &&& result == Ok::<KeyAdded, ErrorCode>(
                    KeyAdded {
                        did: old(ctx).agent.did,
                        key_index: old(ctx).agent.key_count,
                        timestamp: now,
                    },
                )
                &&& final(ctx).owner == old(ctx).owner
                &&& final(ctx).agent.same_record(&old(ctx).agent)
                &&& final(ctx).agent.active
                &&& final(ctx).agent.updated_at == now
                &&& final(ctx).agent.nonce == old(ctx).agent.nonce + 1
                &&& final(ctx).agent.key_count == old(ctx).agent.key_count + 1
                &&& final(ctx).agent.public_keys@ == old(ctx).agent.public_keys@.update(
                    old(ctx).agent.key_count as int,
                    public_key,
                )
                &&& final(ctx).agent.key_types@ == old(ctx).agent.key_types@.update(
                    old(ctx).agent.key_count as int,
                    key_type,
                )
                &&& final(ctx).agent.key_revoked@ == old(ctx).agent.key_revoked@.update(
                    old(ctx).agent.key_count as int,
                    false,
                )
                &&& final(ctx).agent.active_key_count() == old(ctx).agent.active_key_count() + 1
            },
        },
{
    if !ctx.agent.owner.same(&ctx.owner) {
        return Err(ErrorCode::Unauthorized);
    }
    if !ctx.agent.active {
        return Err(ErrorCode::AgentNotActive);
    }
    if ctx.agent.key_count as usize >= MAX_KEYS_PER_AGENT {
        return Err(ErrorCode::TooManyKeys);
    }
    if key_type != KEY_TYPE_ED25519 {
        return Err(ErrorCode::UnsupportedKeyType);
    }
    let message = build_key_operation_message(&ctx.owner, ctx.agent.nonce);
    match verify_ed25519_signature(&public_key, message.as_slice(), &signature) {
        Ok(()) => {},
        Err(code) => {
            return Err(code);
        },
    }
    if ctx.agent.nonce == u64::MAX {
        return Err(ErrorCode::CounterExhausted);
    }
    let index = ctx.agent.key_count;
    let position = index as usize;
    let mut stored_keys = ctx.agent.public_keys;
    let mut stored_types = ctx.agent.key_types;
    let mut stored_revoked = ctx.agent.key_revoked;
    stored_keys[position] = public_key;
    stored_types[position] = key_type;
    stored_revoked[position] = false;
    proof {
        active_count_of_prefix(ctx.agent.key_revoked@, stored_revoked@, position as int);
    }
    ctx.agent.public_keys = stored_keys;
    ctx.agent.key_types = stored_types;
    ctx.agent.key_revoked = stored_revoked;
    ctx.agent.key_count = index + 1;
    ctx.agent.nonce = ctx.agent.nonce + 1;
    ctx.agent.updated_at = now;
    Ok(KeyAdded { did: ctx.agent.did.clone(), key_index: index, timestamp: now })
}

/// Why `revoke_key` is refused, if it is.
pub open spec fn revoke_key_error(ctx: UpdateAgent, key_index: u8) -> Option<ErrorCode> {
    if ctx.agent.owner != ctx.owner {
        Some(ErrorCode::Unauthorized)
    } else if !ctx.agent.active {
        Some(ErrorCode::AgentNotActive)
    } else if key_index >= ctx.agent.key_count {
        Some(ErrorCode::InvalidKeyIndex)
    } else if ctx.agent.key_revoked@[key_index as int] {
        Some(ErrorCode::KeyAlreadyRevoked)
    } else if ctx.agent.active_key_count() <= 1 {
        Some(ErrorCode::CannotRevokeLastKey)
    } else if ctx.agent.nonce == u64::MAX {
        Some(ErrorCode::CounterExhausted)
    } else {
        None
    }
}

/// Revokes a key. The key must be stored and usable, and must not be the
/// last usable one. The nonce grows by one; a nonce that stands at its last
/// value admits no further key operation.
pub fn revoke_key(
    ctx: &mut UpdateAgent,
    key_index: u8,
    now: i64,
) -> (result: Result<KeyRevoked, ErrorCode>)
    requires
        old(ctx).agent.valid(),
    ensures
        final(ctx).agent.valid(),
        match revoke_key_error(*old(ctx), key_index) {
            Some(code) => result == Err::<KeyRevoked, ErrorCode>(code) && *final(ctx) == *old(ctx),
            None => {
                &&& result == Ok::<KeyRevoked, ErrorCode>(
                    KeyRevoked { did: old(ctx).agent.did, key_index, timestamp: now },
                )
                &&& final(ctx).owner == old(ctx).owner
                &&& final(ctx).agent.same_record(&old(ctx).agent)
                &&& final(ctx).agent.active
                &&& final(ctx).agent.updated_at == now
                &&& final(ctx).agent.nonce == old(ctx).agent.nonce + 1
                &&& final(ctx).agent.key_count == old(ctx).agent.key_count
                &&& final(ctx).agent.public_keys@ == old(ctx).agent.public_keys@
                &&& final(ctx).agent.key_types@ == old(ctx).agent.key_types@
                &&& final(ctx).agent.key_revoked@ == old(ctx).agent.key_revoked@.update(
                    key_index as int,
                    true,
                )
                &&& final(ctx).agent.active_key_count() == old(ctx).agent.active_key_count() - 1
            },
        },
{
    if !ctx.agent.owner.same(&ctx.owner) {
        return Err(ErrorCode::Unauthorized);
    }
    if !ctx.agent.active {
        return Err(ErrorCode::AgentNotActive);
    }
    if key_index >= ctx.agent.key_count {
        return Err(ErrorCode::InvalidKeyIndex);
    }
    let position = key_index as usize;
    if ctx.agent.key_revoked[position] {
        return Err(ErrorCode::KeyAlreadyRevoked);
    }
    let active_keys = ctx.agent.count_active_keys();
    if active_keys <= 1 {
        return Err(ErrorCode::CannotRevokeLastKey);
    }
    if ctx.agent.nonce == u64::MAX {
        return Err(ErrorCode::CounterExhausted);
    }
    proof {
        active_count_after_revoking(
            ctx.agent.key_revoked@,
            ctx.agent.key_count as int,
            key_index as int,
        );
    }
    let mut stored_revoked = ctx.agent.key_revoked;
    stored_revoked[position] = true;
    ctx.agent.key_revoked = stored_revoked;
    ctx.agent.nonce = ctx.agent.nonce + 1;
    ctx.agent.updated_at = now;
    Ok(KeyRevoked { did: ctx.agent.did.clone(), key_index, timestamp: now })
}

/// Why `rotate_key` is refused, if it is.
pub open spec fn rotate_key_error(
    ctx: UpdateAgent,
    old_key_index: u8,
    new_public_key: [u8; 32],
    new_key_type: u8,
    signature: [u8; 64],
) -> Option<ErrorCode> {
    if ctx.agent.owner != ctx.owner {
        Some(ErrorCode::Unauthorized)
    } else if !ctx.agent.active {
        Some(ErrorCode::AgentNotActive)
    } else if old_key_index >= ctx.agent.key_count {
        Some(ErrorCode::InvalidKeyIndex)
    } else if ctx.agent.key_revoked@[old_key_index as int] {
        Some(ErrorCode::KeyAlreadyRevoked)
    } else if new_key_type != KEY_TYPE_ED25519 {
        Some(ErrorCode::UnsupportedKeyType)
    } else if !signature_valid(
        new_public_key@,
        key_operation_message(ctx.owner, ctx.agent.nonce),
        signature@,
    ) {
        Some(ErrorCode::InvalidSignature)
    } else if ctx.agent.nonce == u64::MAX {
        Some(ErrorCode::CounterExhausted)
    } else {
        None
    }
}

/// Replaces a usable key in place by a new one, which must have signed the
/// key-operation message at the agent's current nonce. No key is revoked or
/// added, so the agent has a usable key throughout. The nonce grows by one;
/// a nonce that stands at its last value admits no further key operation.
pub fn rotate_key(
    ctx: &mut UpdateAgent,
    old_key_index: u8,
    new_public_key: [u8; 32],
    new_key_type: u8,
    signature: [u8; 64],
    now: i64,
) -> (result: Result<KeyRotated, ErrorCode>)
    requires
        old(ctx).agent.valid(),
    ensures
        final(ctx).agent.valid(),
        match rotate_key_error(*old(ctx), old_key_index, new_public_key, new_key_type, signature) {
            Some(code) => result == Err::<KeyRotated, ErrorCode>(code) && *final(ctx) == *old(ctx),
            None => {
                &&& result == Ok::<KeyRotated, ErrorCode>(
                    KeyRotated {
                        did: old(ctx).agent.did,
                        key_index: old_key_index,
                        timestamp: now,
                    },
                )
                &&& final(ctx).owner == old(ctx).owner
                &&& final(ctx).agent.same_record(&old(ctx).agent)
                &&& final(ctx).agent.active
                &&& final(ctx).agent.updated_at == now
                &&& final(ctx).agent.nonce == old(ctx).agent.nonce + 1
                &&& final(ctx).agent.key_count == old(ctx).agent.key_count
                &&& final(ctx).agent.public_keys@ == old(ctx).agent.public_keys@.update(
                    old_key_index as int,
                    new_public_key,
                )
                &&& final(ctx).agent.key_types@ == old(ctx).agent.key_types@.update(
                    old_key_index as int,
                    new_key_type,
                )
                &&& final(ctx).agent.key_revoked@ == old(ctx).agent.key_revoked@
                &&& final(ctx).agent.active_key_count() == old(ctx).agent.active_key_count()
            },
        },
{
    if !ctx.agent.owner.same(&ctx.owner) {
        return Err(ErrorCode::Unauthorized);
    }
    if !ctx.agent.active {
        return Err(ErrorCode::AgentNotActive);
    }
    if old_key_index >= ctx.agent.key_count {
        return Err(ErrorCode::InvalidKeyIndex);
    }
    let position = old_key_index as usize;
    if ctx.agent.key_revoked[position] {
        return Err(ErrorCode::KeyAlreadyRevoked);
    }
    if new_key_type != KEY_TYPE_ED25519 {
        return Err(ErrorCode::UnsupportedKeyType);
    }
    let message = build_key_operation_message(&ctx.owner, ctx.agent.nonce);
    match verify_ed25519_signature(&new_public_key, message.as_slice(), &signature) {
        Ok(()) => {},
        Err(code) => {
            return Err(code);
        },
    }
    if ctx.agent.nonce == u64::MAX {
        return Err(ErrorCode::CounterExhausted);
    }
    let mut stored_keys = ctx.agent.public_keys;
    let mut stored_types = ctx.agent.key_types;
    stored_keys[position] = new_public_key;
    stored_types[position] = new_key_type;
    ctx.agent.public_keys = stored_keys;
    ctx.agent.key_types = stored_types;
    ctx.agent.nonce = ctx.agent.nonce + 1;
    ctx.agent.updated_at = now;
    Ok(KeyRotated { did: ctx.agent.did.clone(), key_index: old_key_index, timestamp: now })
}

/// Whether a replacement text is given and too long for `bound` bytes.
pub open spec fn too_long(text: Option<String>, bound: usize) -> bool {
    text matches Some(t) && utf8_len(t@) > bound
}

/// A field after an update: the replacement where one is given.
pub open spec fn replaced(current: String, replacement: Option<String>) -> String {
    match replacement {
        Some(text) => text,
        None => current,
    }
}

/// Why `update_agent` is refused, if it is.
pub open spec fn update_agent_error(
    ctx: UpdateAgent,
    name: Option<String>,
    description: Option<String>,
    endpoint: Option<String>,
    capabilities: Option<String>,
) -> Option<ErrorCode> {
    if ctx.agent.owner != ctx.owner {
        Some(ErrorCode::Unauthorized)
    } else if !ctx.agent.active {
        Some(ErrorCode::AgentNotActive)
    } else if too_long(name, MAX_NAME_LEN) {
        Some(ErrorCode::NameTooLong)
    } else if too_long(description, MAX_DESCRIPTION_LEN) {
        Some(ErrorCode::DescriptionTooLong)
    } else if too_long(endpoint, MAX_ENDPOINT_LEN) {
        Some(ErrorCode::EndpointTooLong)
    } else if too_long(capabilities, MAX_CAPABILITIES_LEN) {
        Some(ErrorCode::CapabilitiesTooLong)
    } else {
        None
    }
}

/// Checks a replacement text against its bound.
fn exceeds(text: &Option<String>, bound: usize) -> (exceeds: bool)
    ensures
        exceeds == too_long(*text, bound),
{
    match text {
        Some(t) => byte_len(t.as_str()) > bound,
        None => false,
    }
}

/// Replaces any of the agent's name, description, endpoint and capabilities.
/// Each replacement is held to its bound before anything changes. Keys and
/// nonce stay as they are.
pub fn update_agent(
    ctx: &mut UpdateAgent,
    name: Option<String>,
    description: Option<String>,
    endpoint: Option<String>,
    capabilities: Option<String>,
    now: i64,
) -> (result: Result<AgentUpdated, ErrorCode>)
    requires
        old(ctx).agent.valid(),
    ensures
        final(ctx).agent.valid(),
        match update_agent_error(*old(ctx), name, description, endpoint, capabilities) {
            Some(code) => result == Err::<AgentUpdated, ErrorCode>(code) && *final(ctx) == *old(
                ctx,
            ),
            None => {
                &&& result == Ok::<AgentUpdated, ErrorCode>(
                    AgentUpdated { did: old(ctx).agent.did, timestamp: now },
                )
                &&& *final(ctx) == (UpdateAgent {
                    agent: Agent {
                        name: replaced(old(ctx).agent.name, name),
                        description: replaced(old(ctx).agent.description, description),
                        endpoint: replaced(old(ctx).agent.endpoint, endpoint),
                        capabilities: replaced(old(ctx).agent.capabilities, capabilities),
                        updated_at: now,
                        ..old(ctx).agent
                    },
                    owner: old(ctx).owner,
                })
            },
        },
{
    if !ctx.agent.owner.same(&ctx.owner) {
        return Err(ErrorCode::Unauthorized);
    }
    if !ctx.agent.active {
        return Err(ErrorCode::AgentNotActive);
    }
    if exceeds(&name, MAX_NAME_LEN) {
        return Err(ErrorCode::NameTooLong);
    }
    if exceeds(&description, MAX_DESCRIPTION_LEN) {
        return Err(ErrorCode::DescriptionTooLong);
    }
    if exceeds(&endpoint, MAX_ENDPOINT_LEN) {
        return Err(ErrorCode::EndpointTooLong);
    }
    if exceeds(&capabilities, MAX_CAPABILITIES_LEN) {
        return Err(ErrorCode::CapabilitiesTooLong);
    }
    if let Some(n) = name {
        ctx.agent.name = n;
    }
    if let Some(d) = description {
        ctx.agent.description = d;
    }
    if let Some(e) = endpoint {
        ctx.agent.endpoint = e;
    }
    if let Some(c) = capabilities {
        ctx.agent.capabilities = c;
    }
    ctx.agent.updated_at = now;
    Ok(AgentUpdated { did: ctx.agent.did.clone(), timestamp: now })
}

/// Deactivates an agent, for good: no instruction makes it active again.
pub fn deactivate_agent(
    ctx: &mut UpdateAgent,
    now: i64,
) -> (result: Result<AgentDeactivated, ErrorCode>)
    requires
        old(ctx).agent.valid(),
    ensures
        final(ctx).agent.valid(),
        if old(ctx).agent.owner != old(ctx).owner {
            result == Err::<AgentDeactivated, ErrorCode>(ErrorCode::Unauthorized) && *final(ctx)
                == *old(ctx)
        } else if !old(ctx).agent.active {
            result == Err::<AgentDeactivated, ErrorCode>(ErrorCode::AgentAlreadyInactive)
                && *final(ctx) == *old(ctx)
        } else {
            &&& result == Ok::<AgentDeactivated, ErrorCode>(
                AgentDeactivated { did: old(ctx).agent.did, timestamp: now },
            )
            &&& *final(ctx) == (UpdateAgent {
                agent: Agent { active: false, updated_at: now, ..old(ctx).agent },
                owner: old(ctx).owner,
            })
        },
{
    if !ctx.agent.owner.same(&ctx.owner) {
        return Err(ErrorCode::Unauthorized);
    }
    if !ctx.agent.active {
        return Err(ErrorCode::AgentAlreadyInactive);
    }
    ctx.agent.active = false;
    ctx.agent.updated_at = now;
    Ok(AgentDeactivated { did: ctx.agent.did.clone(), timestamp: now })
}

/// Sets or clears the program that guards registrations. Only the
/// registry's authority may do so.
pub fn set_verification_hook(
    ctx: &mut SetHook,
    hook_program: Option<Pubkey>,
    now: i64,
) -> (result: Result<HookUpdated, ErrorCode>)
    ensures
        if old(ctx).registry.authority != old(ctx).authority {
            result == Err::<HookUpdated, ErrorCode>(ErrorCode::Unauthorized) && *final(ctx) == *old(
                ctx,
            )
        } else {
            &&& result == Ok::<HookUpdated, ErrorCode>(HookUpdated { hook_program, timestamp: now })
            &&& *final(ctx) == (SetHook {
                registry: Registry { verification_hook: hook_program, ..old(ctx).registry },
                authority: old(ctx).authority,
            })
        },
{
    if !ctx.registry.authority.same(&ctx.authority) {
        return Err(ErrorCode::Unauthorized);
    }
    ctx.registry.verification_hook = hook_program;
    Ok(HookUpdated { hook_program, timestamp: now })
}

impl Agent {
    /// An account that holds nothing yet: the state in which the ledger
    /// hands a new account to `register_agent`.
    pub fn blank() -> (agent: Agent)
        ensures
            agent.is_blank(),
    {
        Agent {
            did: String::new(),
            name: String::new(),
            description: String::new(),
            endpoint: String::new(),
            capabilities: String::new(),
            owner: Pubkey { bytes: [0u8; 32] },
            registered_at: 0,
            updated_at: 0,
            active: false,
            nonce: 0,
            key_count: 0,
            public_keys: [[0u8; 32]; 5],
            key_types: [0u8; 5],
            key_revoked: [false; 5],
        }
    }

    /// Whether the account holds nothing: empty texts, zeros, no key.
    pub open spec fn is_blank(&self) -> bool {
        &&& self.did@.len() == 0
        &&& self.name@.len() == 0
        &&& self.description@.len() == 0
        &&& self.endpoint@.len() == 0
        &&& self.capabilities@.len() == 0
        &&& forall|j: int| 0 <= j < 32 ==> self.owner.bytes@[j] == 0
        &&& self.registered_at == 0
        &&& self.updated_at == 0
        &&& !self.active
        &&& self.nonce == 0
        &&& self.key_count == 0
        &&& forall|i: int, j: int|
            0 <= i < MAX_KEYS_PER_AGENT && 0 <= j < 32 ==> #[trigger] self.public_keys@[i]@[j] == 0
        &&& forall|i: int| 0 <= i < MAX_KEYS_PER_AGENT ==> self.key_types@[i] == 0
        &&& forall|i: int| 0 <= i < MAX_KEYS_PER_AGENT ==> !self.key_revoked@[i]
    }

    /// A copy of the account.
    pub fn duplicate(&self) -> (copy: Agent)
        ensures
            copy == *self,
    {
        Agent {
            did: self.did.clone(),
            name: self.name.clone(),
            description: self.description.clone(),
            endpoint: self.endpoint.clone(),
            capabilities: self.capabilities.clone(),
            owner: self.owner,
            registered_at: self.registered_at,
            updated_at: self.updated_at,
            active: self.active,
            nonce: self.nonce,
            key_count: self.key_count,
            public_keys: self.public_keys,
            key_types: self.key_types,
            key_revoked: self.key_revoked,
        }
    }
}

/// Whether no DID names two of the accounts.
pub open spec fn distinct_dids(agents: Seq<Agent>) -> bool {
    forall|i: int, j: int| 0 <= i < j < agents.len() ==> agents[i].did@ != agents[j].did@
}

/// The place of the account that `did` names, if there is one.
pub open spec fn account_of(agents: Seq<Agent>, did: Seq<char>) -> Option<int> {
    if exists|i: int| 0 <= i < agents.len() && agents[i].did@ == did {
        Some(choose|i: int| 0 <= i < agents.len() && agents[i].did@ == did)
    } else {
        None
    }
}

/// The agent accounts of a ledger. An agent's account stands at the address
/// that its DID derives, so that no DID names two accounts.
pub struct AgentAccounts {
    agents: Vec<Agent>,
}

impl AgentAccounts {
    /// The accounts, in the order of their registration.
    pub closed spec fn agents(&self) -> Seq<Agent> {
        self.agents@
    }

    /// The invariant: at most one account for each DID.
    pub open spec fn wf(&self) -> bool {
        distinct_dids(self.agents())
    }

    /// A ledger without agent accounts.
    pub fn new() -> (accounts: AgentAccounts)
        ensures
            accounts.wf(),
            accounts.agents().len() == 0,
    {
        AgentAccounts { agents: Vec::new() }
    }

    /// The number of accounts.
    pub fn len(&self) -> (count: usize)
        ensures
            count == self.agents().len(),
    {
        self.agents.len()
    }

    /// Finds the account that `did` names: the one place that holds this
    /// DID, if any place does.
    pub fn find(&self, did: &str) -> (place: Option<usize>)
        requires
            self.wf(),
        ensures
            match place {
                Some(i) => {
                    &&& i < self.agents().len()
                    &&& forall|j: int|
                        0 <= j < self.agents().len() ==> (self.agents()[j].did@ == did@ <==> j
                            == i)
                },
                None => forall|j: int|
                    0 <= j < self.agents().len() ==> self.agents()[j].did@ != did@,
            },
            match place {
                Some(i) => account_of(self.agents(), did@) == Some(i as int),
                None => account_of(self.agents(), did@) is None,
            },
    {
        let mut i: usize = 0;
        while i < self.agents.len()
            invariant
                i <= self.agents@.len(),
                distinct_dids(self.agents@),
                forall|j: int| 0 <= j < i ==> self.agents@[j].did@ != did@,
            decreases self.agents@.len() - i,
        {
            if same_text(self.agents[i].did.as_str(), did) {
                proof {
                    let chosen = choose|k: int|
                        0 <= k < self.agents@.len() && self.agents@[k].did@ == did@;
                    if chosen < i {
                        assert(self.agents@[chosen].did@ != self.agents@[i as int].did@);
                    }
                    if chosen > i {
                        assert(self.agents@[i as int].did@ != self.agents@[chosen].did@);
                    }
                }
                return Some(i);
            }
            i += 1;
        }
        None
    }

    /// The account at a place.
    pub fn get(&self, place: usize) -> (agent: &Agent)
        requires
            place < self.agents().len(),
        ensures
            *agent == self.agents()[place as int],
    {
        &self.agents[place]
    }

    /// The accounts of an instruction that changes the agent at a place,
    /// signed by `signer`: a copy of the account as it stands.
    pub fn checkout(&self, place: usize, signer: Pubkey) -> (ctx: UpdateAgent)
        requires
            place < self.agents().len(),
        ensures
            ctx == (UpdateAgent { agent: self.agents()[place as int], owner: signer }),
    {
        UpdateAgent { agent: self.agents[place].duplicate(), owner: signer }
    }

    /// Writes an account back to its place once an instruction has run on
    /// it. No instruction changes a DID, so the account still answers to the
    /// DID that derives its address.
    pub fn commit(&mut self, place: usize, agent: Agent)
        requires
            old(self).wf(),
            place < old(self).agents().len(),
            agent.did@ == old(self).agents()[place as int].did@,
        ensures
            final(self).wf(),
            final(self).agents() == old(self).agents().update(place as int, agent),
    {
        self.agents.set(place, agent);
    }

    /// Registers a new agent on the ledger. A DID that names an account
    /// already is refused with `AgentAlreadyExists`; else `register_agent`
    /// runs on a new account, which is then kept.
    pub fn register(
        &mut self,
        registry: &mut Registry,
        owner: Pubkey,
        did: String,
        name: String,
        description: String,
        endpoint: String,
        capabilities: String,
        public_keys: Vec<[u8; 32]>,
        key_types: Vec<u8>,
        signatures: Vec<[u8; 64]>,
        now: i64,
    ) -> (result: Result<AgentRegistered, ErrorCode>)
        requires
            old(self).wf(),
        ensures
            final(self).wf(),
            if account_of(old(self).agents(), did@) is Some {
                &&& result == Err::<AgentRegistered, ErrorCode>(ErrorCode::AgentAlreadyExists)
                &&& final(self).agents() == old(self).agents()
                &&& *final(registry) == *old(registry)
            } else {
                match registration_error(
                    false,
                    owner,
                    did@,
                    name@,
                    description@,
                    endpoint@,
                    capabilities@,
                    public_keys@,
                    key_types@,
                    signatures@,
                    old(registry).agent_count,
                ) {
                    Some(code) => {
                        &&& result == Err::<AgentRegistered, ErrorCode>(code)
                        &&& final(self).agents() == old(self).agents()
                        &&& *final(registry) == *old(registry)
                    },
                    None => {
                        &&& result == Ok::<AgentRegistered, ErrorCode>(
                            AgentRegistered { did, owner, timestamp: now },
                        )
                        &&& *final(registry) == (Registry {
                            agent_count: (old(registry).agent_count + 1) as u64,
                            ..*old(registry)
                        })
                        &&& final(self).agents().len() == old(self).agents().len() + 1
                        &&& final(self).agents().drop_last() == old(self).agents()
                        &&& exists|blank: Agent|
                            #[trigger] blank.is_blank() && is_registration(
                                final(self).agents().last(),
                                blank,
                                owner,
                                did,
                                name,
                                description,
                                endpoint,
                                capabilities,
                                public_keys@,
                                key_types@,
                                now,
                            )
                        &&& final(self).agents().last().valid()
                    },
                }
            },
    {
        if self.find(did.as_str()).is_some() {
            return Err(ErrorCode::AgentAlreadyExists);
        }
        let mut ctx = RegisterAgent { agent: Agent::blank(), registry: *registry, owner };
        let result = register_agent(
            &mut ctx,
            did,
            name,
            description,
            endpoint,
            capabilities,
            public_keys,
            key_types,
            signatures,
            now,
        );
        if result.is_ok() {
            *registry = ctx.registry;
            self.agents.push(ctx.agent);
            proof {
                assert(self.agents@.drop_last() =~= old(self).agents@);
            }
        }
        result
    }
}

/// At most one account answers to a DID: two places that hold the same DID
/// are the same place.
pub proof fn one_account_per_did(accounts: AgentAccounts, first: int, second: int)
    requires
        accounts.wf(),
        0 <= first < accounts.agents().len(),
        0 <= second < accounts.agents().len(),
        accounts.agents()[first].did@ == accounts.agents()[second].did@,
    ensures
        first == second,
{
}

} // verus!
