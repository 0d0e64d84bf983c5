use sage::crypto::HpkeContext;
use sage::session::{time_of, utc_now, CLOCK_LIMIT};
use sage::{Error, Session, SessionManager};
use std::time::{SystemTime, UNIX_EPOCH};

fn session(id: &str, max_age: i64, now: i64) -> Session {
    Session::new_at(
        id.to_string(),
        "did:sage:ethereum:0xAlice".to_string(),
        "did:sage:ethereum:0xServer".to_string(),
        HpkeContext::new(vec![5u8; 32]),
        max_age,
        now,
    )
}

fn peer() -> HpkeContext {
    HpkeContext::new(vec![5u8; 32])
}

fn session_text(result: Result<(), Error>) -> String {
    match result {
        Err(Error::Session(text)) => text,
        other => panic!("expected a session error, got {:?}", other),
    }
}

#[test]
fn a_new_session_starts_now_and_has_sent_nothing() {
    let s = session("s1", 3600, 1_000);
    assert_eq!(s.session_id, "s1");
    assert_eq!(s.client_did, "did:sage:ethereum:0xAlice");
    assert_eq!(s.server_did, "did:sage:ethereum:0xServer");
    assert_eq!(s.created_at, 1_000);
    assert_eq!(s.last_activity, 1_000);
    assert_eq!(s.expires_at, 4_600);
    assert_eq!(s.message_count, 0);
    assert_eq!(s.highest_received, None);
    assert!(!s.compromised);
    assert_eq!(s.hpke_context.sequence(), 0);
}

#[test]
fn the_clock_reads_the_present() {
    let before = SystemTime::now().duration_since(UNIX_EPOCH).unwrap().as_secs() as i64;
    let s = Session::new("s".to_string(), "c".to_string(), "v".to_string(), peer(), 3600);
    let after = SystemTime::now().duration_since(UNIX_EPOCH).unwrap().as_secs() as i64;
    assert!(before <= s.created_at && s.created_at <= after);
    assert!(s.created_at < CLOCK_LIMIT);
    assert_eq!(s.expires_at, s.created_at + 3600);
    assert_eq!(s.last_activity, s.created_at);
    assert!(!s.is_expired());
    let past = Session::new("s".to_string(), "c".to_string(), "v".to_string(), peer(), -10);
    assert!(past.is_expired());
}

#[test]
fn a_session_lives_through_the_second_of_its_expiry() {
    let mut s = session("s1", 100, 1_000);
    assert!(!s.is_expired_at(1_099));
    assert!(!s.is_expired_at(1_100));
    assert!(s.is_expired_at(1_101));

    assert!(s.update_activity_at(1_100).is_ok());
    assert_eq!(s.last_activity, 1_100);
    assert!(s.encrypt_at(b"at expiry", 1_100).is_ok());
    let from_peer = peer().seal(b"reply").unwrap();
    assert_eq!(s.decrypt_at(&from_peer, 1_100).unwrap(), b"reply");

    for result in [
        s.encrypt_at(b"late", 1_101).map(|_| ()),
        s.decrypt_at(&from_peer, 1_101).map(|_| ()),
        s.update_activity_at(1_101),
    ] {
        match result {
            Err(Error::SessionExpired(id)) => assert_eq!(id, "s1"),
            other => panic!("expected SessionExpired, got {:?}", other),
        }
    }
    assert_eq!(s.last_activity, 1_100);
    assert_eq!(s.message_count, 1);
}

#[test]
fn the_count_of_messages_is_the_count_of_successful_encrypts() {
    let mut s = session("s1", 100, 0);
    let mut receiver = peer();
    for i in 0..10u64 {
        assert_eq!(s.message_count, i);
        let sealed = s.encrypt_at(b"message", 50).unwrap();
        assert_eq!(receiver.open(&sealed).unwrap(), b"message");
    }
    assert_eq!(s.message_count, 10);
    assert!(s.encrypt_at(b"late", 101).is_err());
    assert_eq!(s.message_count, 10);
    let mut sender = peer();
    let reply = sender.seal(b"reply").unwrap();
    s.decrypt_at(&reply, 60).unwrap();
    s.update_activity_at(70).unwrap();
    assert_eq!(s.message_count, 10);

    // A session whose cipher refuses counts nothing.
    let mut broken = Session::new_at(
        "b".to_string(),
        "c".to_string(),
        "v".to_string(),
        HpkeContext::new(vec![1u8; 5]),
        100,
        0,
    );
    assert!(matches!(broken.encrypt_at(b"x", 1), Err(Error::Crypto(_))));
    assert_eq!(broken.message_count, 0);
    assert_eq!(broken.last_activity, 0);
    assert_eq!(broken.hpke_context.sequence(), 0);
}

#[test]
fn messages_out_of_order_are_refused() {
    let mut s = session("s1", 100, 0);
    let mut sender = peer();
    let first = sender.seal(b"first").unwrap();
    let second = sender.seal(b"second").unwrap();
    let third = sender.seal(b"third").unwrap();

    assert_eq!(s.decrypt_at(&second, 1).unwrap(), b"second");
    assert_eq!(s.highest_received, Some(1));
    assert_eq!(s.last_activity, 1);
    let sequence = s.hpke_context.sequence();
    for replayed in [&second, &first] {
        match s.decrypt_at(replayed, 2) {
            Err(Error::Decryption(text)) => assert_eq!(text, "Message out of order"),
            other => panic!("expected a refusal, got {:?}", other),
        }
    }
    assert_eq!(s.highest_received, Some(1));
    assert_eq!(s.last_activity, 1);
    assert_eq!(s.hpke_context.sequence(), sequence);
    assert!(!s.compromised);
    assert_eq!(s.decrypt_at(&third, 3).unwrap(), b"third");
    assert_eq!(s.highest_received, Some(2));

    match s.decrypt_at(&third[..11], 3) {
        Err(Error::Decryption(text)) => assert_eq!(text, "Ciphertext too short"),
        other => panic!("expected a refusal, got {:?}", other),
    }
    let mut no_sequence = sender.seal(b"fourth").unwrap();
    no_sequence[0] = 1;
    match s.decrypt_at(&no_sequence, 3) {
        Err(Error::Decryption(text)) => assert_eq!(text, "Message out of order"),
        other => panic!("expected a refusal, got {:?}", other),
    }
    assert!(!s.compromised);
}

#[test]
fn a_tampered_message_closes_the_session() {
    let mut s = session("s1", 100, 0);
    let mut sender = peer();
    let mut sealed = sender.seal(b"response").unwrap();
    let intact = sealed.clone();
    sealed[12] ^= 1;
    let before = s.hpke_context.sequence();
    match s.decrypt_at(&sealed, 1) {
        Err(Error::Decryption(text)) => assert_eq!(text, "aead::Error"),
        other => panic!("expected a decryption error, got {:?}", other),
    }
    assert!(s.compromised);
    assert_eq!(s.hpke_context.sequence(), before + 1);
    assert_eq!(s.highest_received, None);

    match s.decrypt_at(&intact, 2) {
        Err(Error::Session(text)) => assert_eq!(text, "Session closed after authentication failure"),
        other => panic!("expected a refusal, got {:?}", other),
    }
    match s.encrypt_at(b"more", 2) {
        Err(Error::Session(text)) => assert_eq!(text, "Session closed after authentication failure"),
        other => panic!("expected a refusal, got {:?}", other),
    }
    assert_eq!(s.hpke_context.sequence(), before + 1);
    assert_eq!(s.message_count, 0);
}

#[test]
fn exhausted_counters_refuse() {
    let mut s = session("s1", 100, 0);
    s.message_count = u64::MAX;
    match s.encrypt_at(b"x", 1) {
        Err(Error::Session(text)) => assert_eq!(text, "Message counter exhausted"),
        other => panic!("expected a refusal, got {:?}", other),
    }
    assert_eq!(s.message_count, u64::MAX);
    assert_eq!(s.hpke_context.sequence(), 0);
}

#[test]
fn a_full_manager_refuses_and_takes_again_after_a_removal() {
    let mut manager = SessionManager::new(2);
    manager.add_session_at(session("s1", 100, 0), 0).unwrap();
    manager.add_session_at(session("s2", 100, 0), 0).unwrap();
    assert_eq!(session_text(manager.add_session_at(session("s3", 100, 0), 0)), "Too many sessions (2/2)");
    assert_eq!(manager.len(), 2);
    assert!(manager.get_session_at("s3", 0).is_none());

    manager.remove_session("s1");
    assert_eq!(manager.len(), 1);
    manager.add_session_at(session("s3", 100, 0), 0).unwrap();
    assert_eq!(manager.count_at(0), 2);
    assert!(manager.get_session_at("s1", 0).is_none());
    assert!(manager.get_session_at("s2", 0).is_some());
    assert!(manager.get_session_at("s3", 0).is_some());
}

#[test]
fn adding_sweeps_the_expired_first() {
    let mut manager = SessionManager::new(2);
    manager.add_session_at(session("s1", 10, 0), 0).unwrap();
    manager.add_session_at(session("s2", 100, 0), 0).unwrap();
    assert!(manager.add_session_at(session("s3", 100, 0), 10).is_err());
    assert_eq!(manager.len(), 2);
    manager.add_session_at(session("s3", 100, 11), 11).unwrap();
    assert_eq!(manager.count_at(11), 2);
    assert!(manager.get_session_at("s1", 11).is_none());
    assert_eq!(manager.get_session_at("s2", 11).unwrap().session_id, "s2");
    assert_eq!(manager.get_session_at("s3", 11).unwrap().session_id, "s3");
}

#[test]
fn a_manager_without_room_refuses_everything() {
    let mut manager = SessionManager::new(0);
    assert_eq!(session_text(manager.add_session_at(session("s1", 100, 0), 0)), "Too many sessions (0/0)");
    assert_eq!(manager.count_at(0), 0);
}

#[test]
fn a_session_under_a_stored_identifier_takes_its_place() {
    let mut manager = SessionManager::new(3);
    manager.add_session_at(session("s1", 100, 0), 0).unwrap();
    manager.add_session_at(session("s2", 100, 0), 0).unwrap();
    manager.add_session_at(session("s1", 500, 5), 5).unwrap();
    assert_eq!(manager.len(), 2);
    assert_eq!(manager.get_session_at("s1", 5).unwrap().expires_at, 505);
    assert_eq!(manager.get_session_at("s2", 5).unwrap().expires_at, 100);
}

#[test]
fn looking_up_an_expired_session_removes_it() {
    let mut manager = SessionManager::new(5);
    manager.add_session_at(session("s1", 10, 0), 0).unwrap();
    manager.add_session_at(session("s2", 20, 0), 0).unwrap();
    assert!(manager.get_session_at("s1", 10).is_some());
    assert_eq!(manager.len(), 2);
    assert!(manager.get_session_at("s1", 11).is_none());
    assert_eq!(manager.len(), 1);
    assert!(manager.get_session_at("s1", 0).is_none());
    assert!(manager.get_session_at("none", 0).is_none());
    assert_eq!(manager.len(), 1);
}

#[test]
fn what_is_done_to_a_session_handed_out_stays() {
    let mut manager = SessionManager::new(5);
    manager.add_session_at(session("s1", 100, 0), 0).unwrap();
    manager.add_session_at(session("s2", 100, 0), 0).unwrap();
    {
        let s = manager.get_session_at("s1", 1).unwrap();
        s.encrypt_at(b"one", 1).unwrap();
        s.encrypt_at(b"two", 2).unwrap();
        // The manager keeps the session under the identifier it was stored with.
        s.session_id = "renamed".to_string();
    }
    assert_eq!(manager.get_session_at("s1", 3).unwrap().message_count, 2);
    assert_eq!(manager.get_session_at("s2", 3).unwrap().message_count, 0);
    assert!(manager.get_session_at("renamed", 3).is_none());
}

#[test]
fn removal_is_idempotent() {
    let mut manager = SessionManager::new(5);
    manager.add_session_at(session("s1", 100, 0), 0).unwrap();
    manager.add_session_at(session("s2", 100, 0), 0).unwrap();
    manager.remove_session("s1");
    manager.remove_session("s1");
    manager.remove_session("never");
    assert_eq!(manager.len(), 1);
    assert!(manager.get_session_at("s2", 0).is_some());
}

#[test]
fn cleanup_counts_what_it_sweeps() {
    let mut manager = SessionManager::new(10);
    for (id, age) in [("a", 10), ("b", 30), ("c", 10), ("d", 20), ("e", 30)] {
        manager.add_session_at(session(id, age, 0), 0).unwrap();
    }
    assert_eq!(manager.cleanup_expired_at(10), 0);
    assert_eq!(manager.cleanup_expired_at(11), 2);
    assert_eq!(manager.len(), 3);
    assert_eq!(manager.cleanup_expired_at(11), 0);
    assert_eq!(manager.count_at(21), 2);
    assert!(manager.get_session_at("b", 21).is_some());
    assert!(manager.get_session_at("e", 21).is_some());
    assert!(manager.get_session_at("d", 21).is_none());
    assert_eq!(manager.cleanup_expired_at(31), 2);
    assert_eq!(manager.len(), 0);
}

#[test]
fn clear_drops_everything() {
    let mut manager = SessionManager::new(1);
    manager.add_session_at(session("s1", 100, 0), 0).unwrap();
    manager.clear();
    assert_eq!(manager.len(), 0);
    manager.add_session_at(session("s2", 100, 0), 0).unwrap();
    assert_eq!(manager.len(), 1);
}

#[test]
fn the_default_manager_holds_a_hundred() {
    let mut manager = SessionManager::default();
    for i in 0..100 {
        manager.add_session_at(session(&format!("s{}", i), 100, 0), 0).unwrap();
    }
    assert_eq!(
        session_text(manager.add_session_at(session("one more", 100, 0), 0)),
        "Too many sessions (100/100)"
    );
    assert_eq!(manager.count_at(0), 100);
}

#[test]
fn the_manager_by_the_clock() {
    let mut manager = SessionManager::new(2);
    manager
        .add_session(Session::new("live".to_string(), "c".to_string(), "v".to_string(), peer(), 3600))
        .unwrap();
    manager
        .add_session(Session::new("dead".to_string(), "c".to_string(), "v".to_string(), peer(), -5))
        .unwrap();
    assert_eq!(manager.len(), 2);
    assert!(manager.get_session("dead").is_none());
    assert_eq!(manager.len(), 1);
    manager
        .add_session(Session::new("dead".to_string(), "c".to_string(), "v".to_string(), peer(), -5))
        .unwrap();
    assert_eq!(manager.cleanup_expired(), 1);
    assert_eq!(manager.count(), 1);
    let live = manager.get_session("live").unwrap();
    live.encrypt(b"hello").unwrap();
    live.update_activity().unwrap();
    let reply = peer().seal(b"reply").unwrap();
    assert_eq!(live.decrypt(&reply).unwrap(), b"reply");
    assert_eq!(live.message_count, 1);
}

#[test]
fn the_session_clock_stays_in_its_range() {
    assert_eq!(time_of(5, Some(5)), 5);
    assert_eq!(time_of(1_700_000_000, Some(1_700_000_000)), 1_700_000_000);
    assert_eq!(time_of(0, Some(0)), 0);
    assert_eq!(time_of(-7, Some(-7)), 0);
    assert_eq!(time_of(0, Some(CLOCK_LIMIT - 1)), CLOCK_LIMIT - 1);
    assert_eq!(time_of(0, Some(CLOCK_LIMIT)), CLOCK_LIMIT - 1);
    assert_eq!(time_of(0, Some(i64::MAX)), CLOCK_LIMIT - 1);
    assert_eq!(time_of(0, Some(i64::MIN)), 0);
    assert_eq!(time_of(i64::MAX, None), CLOCK_LIMIT - 1);
    assert_eq!(time_of(0, None), CLOCK_LIMIT - 1);
    assert_eq!(time_of(-1, None), 0);
    assert_eq!(time_of(i64::MIN, None), 0);

    let before = SystemTime::now().duration_since(UNIX_EPOCH).unwrap().as_secs() as i64;
    let now = utc_now();
    let after = SystemTime::now().duration_since(UNIX_EPOCH).unwrap().as_secs() as i64;
    assert!(before <= now && now <= after);
    assert!(0 <= now && now < CLOCK_LIMIT);
}

#[test]
fn the_manager_never_holds_more_than_its_capacity() {
    for capacity in 0..4usize {
        let mut manager = SessionManager::new(capacity);
        for round in 0..10i64 {
            let id = format!("s{}", round % 6);
            let _ = manager.add_session_at(session(&id, 3, round), round);
            assert!(manager.len() <= capacity);
            assert!(manager.count_at(round) <= capacity);
        }
    }
}
