use sage::hook::{
    BlacklistUpdated, ErrorCode, HookState, RegistrationRecorded, UserState,
    MAX_REGISTRATIONS_PER_DAY, REGISTRATION_COOLDOWN,
};
use sage::pubkey::Pubkey;

#[test]
fn test_hook_state_len() {
    let expected_len = 32 + 1;
    assert_eq!(HookState::LEN, expected_len);
}

#[test]
fn test_user_state_len() {
    let expected_len = 1 + 8 + 8 + 1;
    assert_eq!(UserState::LEN, expected_len);
}

#[test]
fn test_constants() {
    assert_eq!(MAX_REGISTRATIONS_PER_DAY, 5);
    assert_eq!(REGISTRATION_COOLDOWN, 60);
}

#[test]
fn hook_tests_test_error_codes_defined() {
    let errors = vec![
        ErrorCode::Blacklisted,
        ErrorCode::CooldownActive,
        ErrorCode::DailyLimitReached,
        ErrorCode::InvalidDIDFormat,
        ErrorCode::InvalidSignature,
        ErrorCode::HookDisabled,
    ];

    assert_eq!(errors.len(), 6);
}

#[test]
fn test_did_validation_logic() {
    let valid_dids = vec!["did:sage:123456789", "did:example:test", "did:web:example.com"];

    for did in valid_dids {
        assert!(did.starts_with("did:"));
        assert!(did.len() >= 10);
        assert!(sage::hook::check_did_format(did));
    }

    let invalid_dids = vec!["sage:123", "did:", "did:a", "notadid:test"];

    for did in invalid_dids {
        assert!(
            !did.starts_with("did:") || did.len() < 10,
            "DID {} should be invalid",
            did
        );
        assert!(!sage::hook::check_did_format(did));
    }
}

#[test]
fn test_cooldown_calculation() {
    let last_registration = 1000i64;
    let cooldown = REGISTRATION_COOLDOWN;
    let current_time = 1050i64;

    let time_since_last = current_time - last_registration;
    assert_eq!(time_since_last, 50);

    let cooldown_remaining = cooldown - time_since_last;
    assert_eq!(cooldown_remaining, 10);

    let future_time = 1060i64;
    assert!(future_time >= last_registration + cooldown);
}

#[test]
fn test_daily_limit_reset_logic() {
    let last_day = 100i64;
    let current_timestamp = 86400 * 101;
    let current_day = sage::hook::current_day(current_timestamp);

    assert_eq!(current_day, 101);
    assert_ne!(current_day, last_day);

    let should_reset = current_day != last_day;
    assert!(should_reset);
}

#[test]
fn test_registration_count_logic() {
    let mut count = 0u8;
    let max_count = MAX_REGISTRATIONS_PER_DAY;

    for _ in 0..max_count {
        assert!(count < max_count);
        count += 1;
    }

    assert_eq!(count, max_count);

    assert!(count >= max_count);
}

#[test]
fn test_blacklist_logic() {
    let mut blacklisted = false;

    assert!(!blacklisted);

    blacklisted = true;
    assert!(blacklisted);

    blacklisted = false;
    assert!(!blacklisted);
}

#[test]
fn test_user_state_initialization() {
    let user_state = UserState {
        registration_count: 0,
        last_registration: 0,
        last_day: 0,
        blacklisted: false,
    };

    assert_eq!(user_state.registration_count, 0);
    assert_eq!(user_state.last_registration, 0);
    assert_eq!(user_state.last_day, 0);
    assert!(!user_state.blacklisted);
}

#[test]
fn test_hook_state_initialization() {
    let authority = Pubkey::new_from_array([1u8; 32]);
    let hook_state = HookState { authority, enabled: true };

    assert_eq!(hook_state.authority, authority);
    assert!(hook_state.enabled);
}

#[test]
fn test_hook_disable_logic() {
    let mut enabled = true;
    assert!(enabled);

    enabled = false;
    assert!(!enabled);
}

#[test]
fn test_timestamp_to_day_conversion() {
    let timestamps = vec![(0i64, 0i64), (86400i64, 1i64), (86400 * 2, 2i64), (86400 * 365, 365i64)];

    for (timestamp, expected_day) in timestamps {
        let day = sage::hook::current_day(timestamp);
        assert_eq!(day, expected_day);
    }
}

#[test]
fn test_signature_length_validation() {
    let valid_sig = vec![0u8; 64];
    assert_eq!(valid_sig.len(), 64);

    let invalid_sigs = vec![vec![0u8; 32], vec![0u8; 63], vec![0u8; 65], vec![0u8; 128]];

    for sig in invalid_sigs {
        assert_ne!(sig.len(), 64, "Signature length {} is invalid", sig.len());
    }
}

#[test]
fn hook_tests_test_event_structures() {
    let user = Pubkey::new_from_array([2u8; 32]);
    let timestamp = 1234567890i64;

    let _registration_event = RegistrationRecorded { user, timestamp, count: 1 };

    let _blacklist_event =
        BlacklistUpdated { user, blacklisted: true, authority: Pubkey::new_from_array([3u8; 32]) };
}

#[test]
fn test_multiple_registrations_same_day() {
    let mut count = 0u8;
    let max = MAX_REGISTRATIONS_PER_DAY;

    for _i in 0..max {
        if count < max {
            count += 1;
            assert!(count <= max);
        }
    }

    assert_eq!(count, max);

    assert!(count >= max, "Should have reached daily limit");
}

#[test]
fn test_cooldown_enforcement() {
    let last_reg = 1000i64;
    let cooldown = REGISTRATION_COOLDOWN;

    let too_early = last_reg + 30;
    assert!(too_early < last_reg + cooldown);

    let ok_time = last_reg + 61;
    assert!(ok_time >= last_reg + cooldown);
}

#[test]
fn test_day_boundary_transition() {
    let day1 = 100i64;
    let timestamp_day1 = day1 * 86400;

    let day2 = 101i64;
    let timestamp_day2 = day2 * 86400;

    assert_eq!(sage::hook::current_day(timestamp_day1), day1);
    assert_eq!(sage::hook::current_day(timestamp_day2), day2);
    assert_ne!(day1, day2);
}

#[test]
fn test_full_registration_flow() {
    let mut user_state = UserState {
        registration_count: 0,
        last_registration: 0,
        last_day: 0,
        blacklisted: false,
    };

    assert!(!user_state.blacklisted);

    let current_time = 86400 * 100;
    let current_day = current_time / 86400;

    assert_eq!(current_day, 100);

    if user_state.last_day != current_day {
        user_state.registration_count = 0;
        user_state.last_day = current_day;
    }

    assert!(user_state.registration_count < MAX_REGISTRATIONS_PER_DAY);

    user_state.registration_count += 1;
    user_state.last_registration = current_time;

    assert_eq!(user_state.registration_count, 1);
    assert_eq!(user_state.last_registration, current_time);
}

#[test]
fn test_multiple_registrations_with_cooldown() {
    let mut user_state = UserState {
        registration_count: 0,
        last_registration: 0,
        last_day: 100,
        blacklisted: false,
    };

    let start_time = 86400 * 100;

    user_state.registration_count += 1;
    user_state.last_registration = start_time;

    let too_soon = start_time + 30;
    let cooldown_ok = too_soon >= user_state.last_registration + REGISTRATION_COOLDOWN;
    assert!(!cooldown_ok, "Should fail cooldown check");

    let after_cooldown = start_time + 70;
    let cooldown_ok = after_cooldown >= user_state.last_registration + REGISTRATION_COOLDOWN;
    assert!(cooldown_ok, "Should pass cooldown check");

    user_state.registration_count += 1;
    user_state.last_registration = after_cooldown;

    assert_eq!(user_state.registration_count, 2);
}

#[test]
fn test_daily_limit_enforcement() {
    let mut user_state = UserState {
        registration_count: 0,
        last_registration: 0,
        last_day: 100,
        blacklisted: false,
    };

    let day_timestamp = 86400 * 100;

    for i in 0..MAX_REGISTRATIONS_PER_DAY {
        assert!(user_state.registration_count < MAX_REGISTRATIONS_PER_DAY);
        user_state.registration_count += 1;
        user_state.last_registration = day_timestamp + (i as i64 * 100);
    }

    assert_eq!(user_state.registration_count, MAX_REGISTRATIONS_PER_DAY);

    assert!(user_state.registration_count >= MAX_REGISTRATIONS_PER_DAY);
}

#[test]
fn test_blacklist_blocks_registration() {
    let user_state = UserState {
        registration_count: 0,
        last_registration: 0,
        last_day: 0,
        blacklisted: true,
    };

    assert!(user_state.blacklisted);
}

#[test]
fn test_day_rollover_resets_count() {
    let mut user_state = UserState {
        registration_count: 5,
        last_registration: 86400 * 100,
        last_day: 100,
        blacklisted: false,
    };

    let next_day_timestamp = 86400 * 101;
    let current_day = next_day_timestamp / 86400;

    if user_state.last_day != current_day {
        user_state.registration_count = 0;
        user_state.last_day = current_day;
    }

    assert_eq!(user_state.registration_count, 0);
    assert_eq!(user_state.last_day, 101);
}
