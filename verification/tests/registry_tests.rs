use sage::pubkey::Pubkey;
use sage::registry::{
    build_key_operation_message, build_registration_message, Agent, AgentDeactivated,
    AgentRegistered, AgentUpdated, ErrorCode, HookUpdated, KeyAdded, KeyRevoked, KeyRotated,
    Registry, MAX_CAPABILITIES_LEN, MAX_DESCRIPTION_LEN, MAX_DID_LEN, MAX_ENDPOINT_LEN,
    MAX_KEYS_PER_AGENT, MAX_NAME_LEN,
};

fn key(tag: u8) -> Pubkey {
    Pubkey::new_from_array([tag; 32])
}

#[test]
fn test_agent_len_calculation() {
    let expected_len = 4 + MAX_DID_LEN
        + 4 + MAX_NAME_LEN
        + 4 + MAX_DESCRIPTION_LEN
        + 4 + MAX_ENDPOINT_LEN
        + 4 + MAX_CAPABILITIES_LEN
        + 32
        + 8
        + 8
        + 1
        + 8
        + 1
        + (32 * MAX_KEYS_PER_AGENT)
        + MAX_KEYS_PER_AGENT
        + MAX_KEYS_PER_AGENT;

    assert_eq!(Agent::LEN, expected_len);
}

#[test]
fn test_registry_len_calculation() {
    let expected_len = 32 + 8 + 1 + 32;
    assert_eq!(Registry::LEN, expected_len);
}

#[test]
fn test_max_keys_limit() {
    assert_eq!(MAX_KEYS_PER_AGENT, 5);
}

#[test]
fn test_string_length_limits() {
    assert_eq!(MAX_DID_LEN, 128);
    assert_eq!(MAX_NAME_LEN, 64);
    assert_eq!(MAX_DESCRIPTION_LEN, 256);
    assert_eq!(MAX_ENDPOINT_LEN, 128);
    assert_eq!(MAX_CAPABILITIES_LEN, 256);
}

#[test]
fn registry_tests_test_error_codes_defined() {
    let errors = vec![
        ErrorCode::DIDTooLong,
        ErrorCode::NameTooLong,
        ErrorCode::DescriptionTooLong,
        ErrorCode::EndpointTooLong,
        ErrorCode::CapabilitiesTooLong,
        ErrorCode::NoKeysProvided,
        ErrorCode::TooManyKeys,
        ErrorCode::KeyArrayMismatch,
        ErrorCode::UnsupportedKeyType,
        ErrorCode::InvalidSignature,
        ErrorCode::AgentAlreadyInactive,
        ErrorCode::InvalidKeyIndex,
        ErrorCode::KeyAlreadyRevoked,
        ErrorCode::CannotRevokeLastKey,
    ];

    assert_eq!(errors.len(), 14);
}

#[test]
fn test_key_type_validation() {
    let valid_key_type = 0u8;
    assert_eq!(valid_key_type, 0);

    let invalid_key_types = vec![1u8, 2u8, 3u8, 255u8];
    for kt in invalid_key_types {
        assert_ne!(kt, 0, "Key type {} should be invalid", kt);
    }
}

#[test]
fn test_key_array_bounds() {
    let max_keys = MAX_KEYS_PER_AGENT;
    assert!(max_keys > 0, "Must allow at least one key");
    assert!(max_keys <= 10, "Should not allow too many keys for gas efficiency");
}

#[test]
fn test_agent_struct_default_values() {
    let owner = key(1);
    let agent = Agent {
        did: "did:sage:test".to_string(),
        name: "Test Agent".to_string(),
        description: "Test Description".to_string(),
        endpoint: "https://test.com".to_string(),
        capabilities: "test,capability".to_string(),
        owner,
        registered_at: 0,
        updated_at: 0,
        active: true,
        nonce: 0,
        key_count: 0,
        public_keys: [[0u8; 32]; MAX_KEYS_PER_AGENT],
        key_types: [0u8; MAX_KEYS_PER_AGENT],
        key_revoked: [false; MAX_KEYS_PER_AGENT],
    };

    assert_eq!(agent.nonce, 0);
    assert_eq!(agent.key_count, 0);
    assert!(agent.active);
    assert_eq!(agent.owner, owner);
}

#[test]
fn test_registry_struct_initialization() {
    let authority = key(2);
    let registry = Registry { authority, agent_count: 0, verification_hook: None };

    assert_eq!(registry.authority, authority);
    assert_eq!(registry.agent_count, 0);
    assert!(registry.verification_hook.is_none());
}

#[test]
fn test_did_format_validation() {
    let valid_dids = vec!["did:sage:123", "did:sage:abc123", "did:example:testing"];

    for did in valid_dids {
        assert!(did.starts_with("did:"));
        assert!(did.len() >= 10);
        assert!(did.len() <= MAX_DID_LEN);
    }

    let invalid_dids = vec!["sage:123", "did:", "did:a"];

    for did in invalid_dids {
        assert!(
            !did.starts_with("did:") || did.len() < 10,
            "DID {} should be invalid",
            did
        );
    }
}

#[test]
fn test_string_length_validation() {
    let too_long_did = "did:".to_string() + &"a".repeat(MAX_DID_LEN);
    assert!(too_long_did.len() > MAX_DID_LEN);

    let too_long_name = "a".repeat(MAX_NAME_LEN + 1);
    assert!(too_long_name.len() > MAX_NAME_LEN);

    let too_long_desc = "a".repeat(MAX_DESCRIPTION_LEN + 1);
    assert!(too_long_desc.len() > MAX_DESCRIPTION_LEN);

    let too_long_endpoint = "https://".to_string() + &"a".repeat(MAX_ENDPOINT_LEN);
    assert!(too_long_endpoint.len() > MAX_ENDPOINT_LEN);

    let too_long_caps = "a".repeat(MAX_CAPABILITIES_LEN + 1);
    assert!(too_long_caps.len() > MAX_CAPABILITIES_LEN);
}

#[test]
fn test_key_management_logic() {
    let mut key_count = 0u8;

    for _i in 0..MAX_KEYS_PER_AGENT {
        assert!(key_count < MAX_KEYS_PER_AGENT as u8);
        key_count += 1;
    }

    assert_eq!(key_count, MAX_KEYS_PER_AGENT as u8);

    assert!(key_count >= MAX_KEYS_PER_AGENT as u8);
}

fn agent_with_revoked(key_count: u8, key_revoked: [bool; MAX_KEYS_PER_AGENT]) -> Agent {
    Agent {
        did: "did:sage:test".to_string(),
        name: String::new(),
        description: String::new(),
        endpoint: String::new(),
        capabilities: String::new(),
        owner: key(1),
        registered_at: 0,
        updated_at: 0,
        active: true,
        nonce: 0,
        key_count,
        public_keys: [[0u8; 32]; MAX_KEYS_PER_AGENT],
        key_types: [0u8; MAX_KEYS_PER_AGENT],
        key_revoked,
    }
}

#[test]
fn test_active_key_counting() {
    let mut key_revoked = [false; MAX_KEYS_PER_AGENT];
    let key_count = 5u8;

    key_revoked[1] = true;
    key_revoked[3] = true;

    let active_keys = (0..key_count).filter(|&i| !key_revoked[i as usize]).count();

    assert_eq!(active_keys, 3);
    assert_eq!(agent_with_revoked(key_count, key_revoked).count_active_keys(), 3);
}

#[test]
fn test_cannot_revoke_last_key_logic() {
    let key_revoked = [false; MAX_KEYS_PER_AGENT];
    let key_count = 1u8;

    let active_keys = (0..key_count).filter(|&i| !key_revoked[i as usize]).count();

    assert_eq!(active_keys, 1);
    assert_eq!(agent_with_revoked(key_count, key_revoked).count_active_keys(), 1);

    assert!(active_keys == 1, "Cannot revoke last key");
}

#[test]
fn test_nonce_increment_logic() {
    let mut nonce = 0u64;

    nonce += 1;
    assert_eq!(nonce, 1);

    nonce += 1;
    assert_eq!(nonce, 2);

    nonce += 1;
    assert_eq!(nonce, 3);

    assert!(nonce < u64::MAX);
}

#[test]
fn test_ownership_message_construction() {
    let owner = key(7);
    let did = "did:sage:test123";
    let nonce = 42u64;

    let reg_message = build_registration_message(&owner, did);
    assert!(reg_message.len() == 32 + did.len());
    assert_eq!(reg_message, [&owner.to_bytes()[..], did.as_bytes()].concat());

    let update_message = build_key_operation_message(&owner, nonce);
    assert!(update_message.len() == 32 + 8);
    assert_eq!(update_message, [&owner.to_bytes()[..], &nonce.to_le_bytes()[..]].concat());
}

#[test]
fn registry_tests_test_event_structures() {
    let owner = key(3);
    let did = "did:sage:test".to_string();
    let timestamp = 1234567890i64;

    let _reg_event = AgentRegistered { did: did.clone(), owner, timestamp };

    let _update_event = AgentUpdated { did: did.clone(), timestamp };

    let _deactivate_event = AgentDeactivated { did: did.clone(), timestamp };

    let _key_added = KeyAdded { did: did.clone(), key_index: 0, timestamp };

    let _key_revoked = KeyRevoked { did: did.clone(), key_index: 0, timestamp };

    let _key_rotated = KeyRotated { did: did.clone(), key_index: 0, timestamp };

    let hook_program = Some(key(4));
    let _hook_updated = HookUpdated { hook_program, timestamp };
}

#[test]
fn test_pubkey_serialization() {
    let pubkey = key(9);
    let bytes = pubkey.to_bytes();

    assert_eq!(bytes.len(), 32);

    let reconstructed = Pubkey::new_from_array(bytes);
    assert_eq!(pubkey, reconstructed);
}
