//! Bounded-lifetime secure sessions and the manager that holds them.
//!
//! Every operation that depends on the time comes in two forms: one that
//! takes the time as an argument, whose contract is exact, and one that
//! reads the clock and hands the reading to the first.

use crate::crypto::{
    embedded_sequence, open_outcome, opened_plaintext, seal_outcome, HpkeContext,
};
use crate::client::current_timestamp;
use crate::error::Error;
use crate::text::{decimal, push_decimal, same_text};
use vstd::prelude::*;

verus! {

/// A bound that the time of a session stays below: about the year 280,000.
pub const CLOCK_LIMIT: i64 = 0x800_0000_0000;

/// Whether `now` is a time that the session clock can give.
pub open spec fn clock_reading(now: i64) -> bool {
    0 <= now < CLOCK_LIMIT
}

/// Trusted: `chrono::DateTime::from_timestamp(seconds, 0)`, and of the
/// instant it makes, `timestamp`. Both count the seconds since the Unix
/// epoch, so an instant that `chrono` holds reads back as the seconds it was
/// made from; `None` stands for seconds outside the years `chrono` holds.
#[verifier::external_body]
fn utc_instant(seconds: i64) -> (held: Option<i64>)
    ensures
        held matches Some(instant) ==> instant == seconds,
{
    match chrono::DateTime::from_timestamp(seconds, 0) {
        Some(instant) => Some(instant.timestamp()),
        None => None,
    }
}

/// The time that the session clock gives for the seconds read from the
/// system and the instant that `chrono` holds for them: that instant, held
/// within the clock's range; and where `chrono` holds none, the end of the
/// range on the side the seconds lie.
pub open spec fn clock_time(seconds: i64, held: Option<i64>) -> i64 {
    match held {
        Some(instant) => if instant < 0 {
            0
        } else if instant >= CLOCK_LIMIT {
            (CLOCK_LIMIT - 1) as i64
        } else {
            instant
        },
        None => if seconds < 0 {
            0
        } else {
            (CLOCK_LIMIT - 1) as i64
        },
    }
}

/// Computes the time that the session clock gives; it is always within the
/// clock's range.
pub fn time_of(seconds: i64, held: Option<i64>) -> (now: i64)
    ensures
        now == clock_time(seconds, held),
        clock_reading(now),
{
    match held {
        Some(instant) => if instant < 0 {
            0
        } else if instant >= CLOCK_LIMIT {
            CLOCK_LIMIT - 1
        } else {
            instant
        },
        None => if seconds < 0 {
            0
        } else {
            CLOCK_LIMIT - 1
        },
    }
}

/// Reads the session clock: the system's seconds since the Unix epoch, as
/// the instant that `chrono` holds for them. Whatever is read, the time is
/// within the clock's range.
pub fn utc_now() -> (now: i64)
    ensures
        clock_reading(now),
        exists|seconds: i64, held: Option<i64>| now == #[trigger] clock_time(seconds, held),
{
    let seconds = current_timestamp();
    let held = utc_instant(seconds);
    time_of(seconds, held)
}

/// A secure channel between a client and a server, bound to their
/// identifiers and to a lifetime.
pub struct Session {
    pub session_id: String,
    pub client_did: String,
    pub server_did: String,
    pub hpke_context: HpkeContext,
    /// Seconds since the Unix epoch.
    pub created_at: i64,
    pub expires_at: i64,
    pub last_activity: i64,
    /// The number of messages encrypted so far.
    pub message_count: u64,
    /// The highest sequence number accepted from the peer so far.
    pub highest_received: Option<u64>,
    /// Whether a message failed authentication; such a session accepts no
    /// further traffic.
    pub compromised: bool,
}

impl Session {
    /// Whether the session is past its lifetime at `now`.
    pub open spec fn expired_at(&self, now: i64) -> bool {
        now > self.expires_at
    }

    /// Whether two sessions agree on identifiers and lifetime.
    pub open spec fn same_binding(&self, other: &Session) -> bool {
        &&& self.session_id == other.session_id
        &&& self.client_did == other.client_did
        &&& self.server_did == other.server_did
        &&& self.created_at == other.created_at
        &&& self.expires_at == other.expires_at
    }

    /// Creates a session at the time `now`, to expire `max_age_seconds`
    /// later. Nothing has been sent or received on it.
    pub fn new_at(
        session_id: String,
        client_did: String,
        server_did: String,
        hpke_context: HpkeContext,
        max_age_seconds: i64,
        now: i64,
    ) -> (session: Session)
        requires
            i64::MIN <= now + max_age_seconds <= i64::MAX,
        ensures
            session.session_id == session_id,
            session.client_did == client_did,
            session.server_did == server_did,
            session.hpke_context == hpke_context,
            session.created_at == now,
            session.expires_at == now + max_age_seconds,
            session.last_activity == now,
            session.message_count == 0,
            session.highest_received is None,
            !session.compromised,
    {
        Session {
            session_id,
            client_did,
            server_did,
            hpke_context,
            created_at: now,
            expires_at: now + max_age_seconds,
            last_activity: now,
            message_count: 0,
            highest_received: None,
            compromised: false,
        }
    }

    /// Creates a session that starts now, by the clock.
    pub fn new(
        session_id: String,
        client_did: String,
        server_did: String,
        hpke_context: HpkeContext,
        max_age_seconds: i64,
    ) -> (session: Session)
        requires
            max_age_seconds <= i64::MAX - CLOCK_LIMIT,
        ensures
            session.session_id == session_id,
            session.client_did == client_did,
            session.server_did == server_did,
            session.hpke_context == hpke_context,
            0 <= session.created_at < CLOCK_LIMIT,
            session.expires_at == session.created_at + max_age_seconds,
            session.last_activity == session.created_at,
            session.message_count == 0,
            session.highest_received is None,
            !session.compromised,
    {
        let now = utc_now();
        assert(clock_reading(now));
        Session::new_at(session_id, client_did, server_did, hpke_context, max_age_seconds, now)
    }

    /// Whether the session is past its lifetime at `now`. At the very second
    /// of expiry it is not.
    pub fn is_expired_at(&self, now: i64) -> (expired: bool)
        ensures
            expired == self.expired_at(now),
    {
        now > self.expires_at
    }

    /// Whether the session is past its lifetime, by the clock.
    pub fn is_expired(&self) -> (expired: bool)
        ensures
            exists|now: i64| #[trigger] clock_reading(now) && expired == self.expired_at(now),
    {
        let now = utc_now();
        assert(clock_reading(now));
        self.is_expired_at(now)
    }

    /// What marking activity at `now` does: an expired session refuses and
    /// stays as it was; any other notes the time.
    pub open spec fn activity_marked(
        before: Session,
        now: i64,
        after: Session,
        result: Result<(), Error>,
    ) -> bool {
        if before.expired_at(now) {
            &&& result matches Err(e) && e.is_session_expired(before.session_id@)
            &&& after == before
        } else {
            &&& result is Ok
            &&& after == (Session { last_activity: now, ..before })
        }
    }

    /// Marks activity at `now`, unless the session has expired.
    pub fn update_activity_at(&mut self, now: i64) -> (result: Result<(), Error>)
        ensures
            Session::activity_marked(*old(self), now, *final(self), result),
    {
        if self.is_expired_at(now) {
            return Err(Error::SessionExpired(self.session_id.clone()));
        }
        self.last_activity = now;
        Ok(())
    }

    /// Marks activity now, by the clock, unless the session has expired.
    pub fn update_activity(&mut self) -> (result: Result<(), Error>)
        ensures
            exists|now: i64|
                #[trigger] clock_reading(now) && Session::activity_marked(
                    *old(self),
                    now,
                    *final(self),
                    result,
                ),
    {
        let now = utc_now();
        assert(clock_reading(now));
        self.update_activity_at(now)
    }

    /// What `encrypt_at` does. An expired or compromised session, or one
    /// whose counters are exhausted, refuses and stays as it was; so does
    /// one whose cipher refuses. Else the message is sealed, the activity is
    /// marked, and one more message is counted.
    pub open spec fn encrypt_outcome(
        before: Session,
        plaintext: Seq<u8>,
        now: i64,
        after: Session,
        result: Result<Vec<u8>, Error>,
    ) -> bool {
        if before.expired_at(now) {
            &&& result matches Err(e) && e.is_session_expired(before.session_id@)
            &&& after == before
        } else if before.compromised {
            &&& result matches Err(e) && e.is_session(
                "Session closed after authentication failure"@,
            )
            &&& after == before
        } else if before.message_count == u64::MAX {
            &&& result matches Err(e) && e.is_session("Message counter exhausted"@)
            &&& after == before
        } else {
            &&& seal_outcome(before.hpke_context@, plaintext, after.hpke_context@, result)
            &&& after.same_binding(&before)
            &&& after.highest_received == before.highest_received
            &&& !after.compromised
            &&& match result {
                Ok(_) => after.message_count == before.message_count + 1 && after.last_activity
                    == now,
                Err(_) => after.message_count == before.message_count && after.last_activity
                    == before.last_activity && after.hpke_context@ == before.hpke_context@,
            }
        }
    }

    /// Encrypts a message on the session at the time `now`. The count of
    /// messages grows by one exactly when this succeeds.
    pub fn encrypt_at(&mut self, plaintext: &[u8], now: i64) -> (result: Result<Vec<u8>, Error>)
        ensures
            Session::encrypt_outcome(*old(self), plaintext@, now, *final(self), result),
            result matches Ok(message) ==> {
                &&& message@.len() == plaintext@.len() + 28
                &&& opened_plaintext(old(self).hpke_context@.key, message@) == Some(plaintext@)
                &&& embedded_sequence(message@) == Some(old(self).hpke_context@.sequence)
            },
    {
        if self.is_expired_at(now) {
            return Err(Error::SessionExpired(self.session_id.clone()));
        }
        if self.compromised {
            return Err(Error::session("Session closed after authentication failure"));
        }
        if self.message_count == u64::MAX {
            return Err(Error::session("Message counter exhausted"));
        }
        match self.hpke_context.seal(plaintext) {
            Ok(message) => {
                self.last_activity = now;
                self.message_count = self.message_count + 1;
                Ok(message)
            },
            Err(e) => Err(e),
        }
    }

    /// Encrypts a message on the session now, by the clock. Whatever the
    /// clock reads, the count of messages grows by one exactly when this
    /// succeeds.
    pub fn encrypt(&mut self, plaintext: &[u8]) -> (result: Result<Vec<u8>, Error>)
        ensures
            exists|now: i64|
                #[trigger] clock_reading(now) && Session::encrypt_outcome(
                    *old(self),
                    plaintext@,
                    now,
                    *final(self),
                    result,
                ),
            final(self).message_count == old(self).message_count + if result is Ok {
                1int
            } else {
                0int
            },
    {
        let now = utc_now();
        assert(clock_reading(now));
        self.encrypt_at(plaintext, now)
    }

    /// Whether a message is refused for its sequence number: it carries
    /// none, or one that is not above the highest accepted so far.
    pub open spec fn out_of_order(&self, ciphertext: Seq<u8>) -> bool {
        match embedded_sequence(ciphertext) {
            None => true,
            Some(sequence) => self.highest_received matches Some(highest) && sequence <= highest,
        }
    }

    /// What `decrypt_at` does. An expired or compromised session refuses,
    /// and so does a message that is too short or out of order; none of
    /// these changes the session. Any other message is opened: the activity
    /// is marked, and either the message authenticates and its sequence
    /// number becomes the highest accepted, or the session is compromised
    /// from then on.
    pub open spec fn decrypt_outcome(
        before: Session,
        ciphertext: Seq<u8>,
        now: i64,
        after: Session,
        result: Result<Vec<u8>, Error>,
    ) -> bool {
        if before.expired_at(now) {
            &&& result matches Err(e) && e.is_session_expired(before.session_id@)
            &&& after == before
        } else if before.compromised {
            &&& result matches Err(e) && e.is_session(
                "Session closed after authentication failure"@,
            )
            &&& after == before
        } else if ciphertext.len() < 12 {
            &&& result matches Err(e) && e.is_decryption("Ciphertext too short"@)
            &&& after == before
        } else if before.out_of_order(ciphertext) {
            &&& result matches Err(e) && e.is_decryption("Message out of order"@)
            &&& after == before
        } else if before.hpke_context@.sequence == u64::MAX {
            &&& result matches Err(e) && e.is_decryption("sequence exhausted"@)
            &&& after == before
        } else {
            &&& open_outcome(before.hpke_context@, ciphertext, after.hpke_context@, result)
            &&& after.same_binding(&before)
            &&& after.message_count == before.message_count
            &&& after.last_activity == now
            &&& match result {
                Ok(_) => after.highest_received == embedded_sequence(ciphertext)
                    && !after.compromised,
                Err(_) => after.highest_received == before.highest_received && after.compromised,
            }
        }
    }

    /// Decrypts a message on the session at the time `now`.
    pub fn decrypt_at(&mut self, ciphertext: &[u8], now: i64) -> (result: Result<Vec<u8>, Error>)
        ensures
            Session::decrypt_outcome(*old(self), ciphertext@, now, *final(self), result),
    {
        if self.is_expired_at(now) {
            return Err(Error::SessionExpired(self.session_id.clone()));
        }
        if self.compromised {
            return Err(Error::session("Session closed after authentication failure"));
        }
        if ciphertext.len() < 12 {
            return Err(Error::decryption("Ciphertext too short"));
        }
        let sequence = match HpkeContext::sequence_of(ciphertext) {
            Some(sequence) => sequence,
            None => {
                return Err(Error::decryption("Message out of order"));
            },
        };
        match self.highest_received {
            Some(highest) => {
                if sequence <= highest {
                    return Err(Error::decryption("Message out of order"));
                }
            },
            None => {},
        }
        if self.hpke_context.sequence() == u64::MAX {
            return Err(Error::decryption("sequence exhausted"));
        }
        self.last_activity = now;
        match self.hpke_context.open(ciphertext) {
            Ok(plaintext) => {
                self.highest_received = Some(sequence);
                Ok(plaintext)
            },
            Err(e) => {
                self.compromised = true;
                Err(e)
            },
        }
    }

    /// Decrypts a message on the session now, by the clock. Whatever the
    /// clock reads, no message is counted.
    pub fn decrypt(&mut self, ciphertext: &[u8]) -> (result: Result<Vec<u8>, Error>)
        ensures
            exists|now: i64|
                #[trigger] clock_reading(now) && Session::decrypt_outcome(
                    *old(self),
                    ciphertext@,
                    now,
                    *final(self),
                    result,
                ),
            final(self).message_count == old(self).message_count,
    {
        let now = utc_now();
        assert(clock_reading(now));
        self.decrypt_at(ciphertext, now)
    }
}

/// Which stored sessions a sweep keeps.
pub enum Rule {
    /// Those that have not expired at the given time.
    LiveAt(i64),
    /// Those stored under another identifier than the given one.
    OtherThan(Seq<char>),
}

impl Rule {
    /// Whether the rule keeps a session stored under `id`.
    pub open spec fn keeps(self, id: String, session: Session) -> bool {
        match self {
            Rule::LiveAt(now) => !session.expired_at(now),
            Rule::OtherThan(other) => id@ != other,
        }
    }
}

/// A rule in the form the sweep runs it.
enum Keep<'a> {
    LiveAt(i64),
    OtherThan(&'a str),
}

impl<'a> Keep<'a> {
    /// The rule that this stands for.
    spec fn rule(self) -> Rule {
        match self {
            Keep::LiveAt(now) => Rule::LiveAt(now),
            Keep::OtherThan(other) => Rule::OtherThan(other@),
        }
    }

    /// Decides whether the rule keeps a session stored under `id`.
    fn check(&self, id: &String, session: &Session) -> (keeps: bool)
        ensures
            keeps == self.rule().keeps(*id, *session),
    {
        match self {
            Keep::LiveAt(now) => !session.is_expired_at(*now),
            Keep::OtherThan(other) => !same_text(id.as_str(), other),
        }
    }
}

/// The stored sessions, with the identifiers they are stored under, that a
/// rule keeps; their order stays.
pub open spec fn kept(ids: Seq<String>, sessions: Seq<Session>, rule: Rule) -> (
    Seq<String>,
    Seq<Session>,
)
    decreases ids.len(),
{
    if ids.len() == 0 || sessions.len() != ids.len() {
        (Seq::empty(), Seq::empty())
    } else {
        let rest = kept(ids.drop_last(), sessions.drop_last(), rule);
        if rule.keeps(ids.last(), sessions.last()) {
            (rest.0.push(ids.last()), rest.1.push(sessions.last()))
        } else {
            rest
        }
    }
}

/// Whether no identifier occurs twice.
pub open spec fn distinct(ids: Seq<String>) -> bool {
    forall|i: int, j: int| 0 <= i < j < ids.len() ==> ids[i]@ != ids[j]@
}

/// The first place at which `id` is stored, if any.
pub open spec fn position_of(ids: Seq<String>, id: Seq<char>) -> Option<int>
    decreases ids.len(),
{
    if ids.len() == 0 {
        None
    } else {
        match position_of(ids.drop_last(), id) {
            Some(i) => Some(i),
            None => if ids.last()@ == id {
                Some(ids.len() - 1)
            } else {
                None
            },
        }
    }
}

/// `position_of` finds the first place that holds `id`, and `None` where no
/// place does.
pub proof fn position_of_is_first(ids: Seq<String>, id: Seq<char>)
    ensures
        match position_of(ids, id) {
            Some(i) => 0 <= i < ids.len() && ids[i]@ == id && forall|j: int|
                0 <= j < i ==> ids[j]@ != id,
            None => forall|j: int| 0 <= j < ids.len() ==> ids[j]@ != id,
        },
    decreases ids.len(),
{
    if ids.len() > 0 {
        position_of_is_first(ids.drop_last(), id);
        match position_of(ids.drop_last(), id) {
            Some(i) => {
                assert(ids.drop_last()[i] == ids[i]);
                assert forall|j: int| 0 <= j < i implies ids[j]@ != id by {
                    assert(ids.drop_last()[j] == ids[j]);
                }
            },
            None => {
                assert forall|j: int| 0 <= j < ids.len() - 1 implies ids[j]@ != id by {
                    assert(ids.drop_last()[j] == ids[j]);
                }
            },
        }
    }
}

/// What a sweep keeps is part of what was stored: as many identifiers as
/// sessions, no more than before, each kept by the rule and stored before,
/// and no identifier twice where none was twice before.
pub proof fn kept_is_part(ids: Seq<String>, sessions: Seq<Session>, rule: Rule)
    requires
        ids.len() == sessions.len(),
    ensures
        kept(ids, sessions, rule).0.len() == kept(ids, sessions, rule).1.len(),
        kept(ids, sessions, rule).0.len() <= ids.len(),
        forall|j: int|
            0 <= j < kept(ids, sessions, rule).0.len() ==> exists|i: int|
                0 <= i < ids.len() && #[trigger] kept(ids, sessions, rule).0[j] == ids[i] && kept(
                    ids,
                    sessions,
                    rule,
                ).1[j] == sessions[i] && rule.keeps(ids[i], sessions[i]),
        distinct(ids) ==> distinct(kept(ids, sessions, rule).0),
    decreases ids.len(),
{
    if ids.len() > 0 {
        let front_ids = ids.drop_last();
        let front_sessions = sessions.drop_last();
        kept_is_part(front_ids, front_sessions, rule);
        let rest = kept(front_ids, front_sessions, rule);
        let all = kept(ids, sessions, rule);
        assert forall|j: int| 0 <= j < all.0.len() implies exists|i: int|
            0 <= i < ids.len() && #[trigger] all.0[j] == ids[i] && all.1[j] == sessions[i]
                && rule.keeps(ids[i], sessions[i]) by {
            if j < rest.0.len() {
                let i = choose|i: int|
                    0 <= i < front_ids.len() && rest.0[j] == front_ids[i] && rest.1[j]
                        == front_sessions[i] && rule.keeps(front_ids[i], front_sessions[i]);
                assert(all.0[j] == ids[i] && all.1[j] == sessions[i]);
            } else {
                let i = ids.len() - 1;
                assert(all.0[j] == ids[i] && all.1[j] == sessions[i]);
            }
        }
        if distinct(ids) {
            assert(distinct(front_ids)) by {
                assert forall|i: int, j: int| 0 <= i < j < front_ids.len() implies front_ids[i]@
                    != front_ids[j]@ by {
                    assert(front_ids[i] == ids[i] && front_ids[j] == ids[j]);
                }
            }
            assert forall|a: int, b: int| 0 <= a < b < all.0.len() implies all.0[a]@
                != all.0[b]@ by {
                if b < rest.0.len() {
                    assert(all.0[a] == rest.0[a] && all.0[b] == rest.0[b]);
                } else {
                    let i = choose|i: int|
                        0 <= i < front_ids.len() && rest.0[a] == front_ids[i] && rest.1[a]
                            == front_sessions[i] && rule.keeps(front_ids[i], front_sessions[i]);
                    assert(all.0[a] == ids[i]);
                    assert(all.0[b] == ids[ids.len() - 1]);
                }
            }
        }
    }
}

/// Holds the sessions of a client, each under its identifier, up to a fixed
/// capacity. A full manager refuses a new session; it never drops a live one
/// to make room.
pub struct SessionManager {
    ids: Vec<String>,
    sessions: Vec<Session>,
    max_sessions: usize,
}

impl SessionManager {
    /// The identifiers that sessions are stored under, oldest first.
    pub closed spec fn ids(&self) -> Seq<String> {
        self.ids@
    }

    /// The stored sessions, in the order of their identifiers.
    pub closed spec fn sessions(&self) -> Seq<Session> {
        self.sessions@
    }

    /// The most sessions the manager holds.
    pub closed spec fn capacity(&self) -> usize {
        self.max_sessions
    }

    /// The invariant: one identifier for each session, none of them twice,
    /// and no more sessions than the capacity allows.
    pub open spec fn wf(&self) -> bool {
        &&& self.ids().len() == self.sessions().len()
        &&& distinct(self.ids())
        &&& self.ids().len() <= self.capacity()
    }

    /// Creates an empty manager for up to `max_sessions` sessions.
    pub fn new(max_sessions: usize) -> (manager: SessionManager)
        ensures
            manager.wf(),
            manager.ids().len() == 0,
            manager.capacity() == max_sessions,
    {
        SessionManager { ids: Vec::new(), sessions: Vec::new(), max_sessions }
    }

    /// The number of stored sessions, expired ones included; it never passes
    /// the capacity.
    pub fn len(&self) -> (count: usize)
        requires
            self.wf(),
        ensures
            count == self.sessions().len(),
            count <= self.capacity(),
    {
        self.sessions.len()
    }

    /// Drops the sessions that `rule` does not keep, and says how many.
    fn sweep(&mut self, rule: &Keep) -> (removed: usize)
        requires
            old(self).wf(),
        ensures
            final(self).wf(),
            final(self).capacity() == old(self).capacity(),
            (final(self).ids(), final(self).sessions()) == kept(
                old(self).ids(),
                old(self).sessions(),
                rule.rule(),
            ),
            removed == old(self).ids().len() - final(self).ids().len(),
    {
        let ghost before_ids = self.ids@;
        let ghost before_sessions = self.sessions@;
        let ghost mut seen: int = 0;
        let total = self.ids.len();
        let mut removed: usize = 0;
        let mut i: usize = 0;
        while i < self.ids.len()
            invariant
                before_ids.len() == before_sessions.len(),
                before_ids.len() == total,
                self.ids@.len() == self.sessions@.len(),
                self.max_sessions == old(self).max_sessions,
                0 <= i <= self.ids@.len(),
                0 <= seen <= before_ids.len(),
                seen == i + removed,
                self.ids@.len() - i == before_ids.len() - seen,
                self.ids@.subrange(0, i as int) == kept(
                    before_ids.take(seen),
                    before_sessions.take(seen),
                    rule.rule(),
                ).0,
                self.sessions@.subrange(0, i as int) == kept(
                    before_ids.take(seen),
                    before_sessions.take(seen),
                    rule.rule(),
                ).1,
                self.ids@.subrange(i as int, self.ids@.len() as int) == before_ids.skip(seen),
                self.sessions@.subrange(i as int, self.sessions@.len() as int)
                    == before_sessions.skip(seen),
            decreases self.ids@.len() - i,
        {
            proof {
                assert(self.ids@[i as int] == self.ids@.subrange(
                    i as int,
                    self.ids@.len() as int,
                )[0]);
                assert(self.sessions@[i as int] == self.sessions@.subrange(
                    i as int,
                    self.sessions@.len() as int,
                )[0]);
                assert(before_ids.take(seen + 1).drop_last() =~= before_ids.take(seen));
                assert(before_sessions.take(seen + 1).drop_last() =~= before_sessions.take(seen));
                assert(before_ids.take(seen + 1).last() == before_ids[seen]);
                assert(before_sessions.take(seen + 1).last() == before_sessions[seen]);
            }
            let ghost ids_now = self.ids@;
            let ghost sessions_now = self.sessions@;
            if rule.check(&self.ids[i], &self.sessions[i]) {
                proof {
                    assert(ids_now.subrange(0, i + 1) =~= ids_now.subrange(0, i as int).push(
                        ids_now[i as int],
                    ));
                    assert(sessions_now.subrange(0, i + 1) =~= sessions_now.subrange(
                        0,
                        i as int,
                    ).push(sessions_now[i as int]));
                    assert forall|m: int| i < m < ids_now.len() implies #[trigger] ids_now[m]
                        == before_ids[seen + m - i] by {
                        assert(ids_now.subrange(i as int, ids_now.len() as int)[m - i]
                            == before_ids.skip(seen)[m - i]);
                    }
                    assert forall|m: int|
                        i < m < sessions_now.len() implies #[trigger] sessions_now[m]
                        == before_sessions[seen + m - i] by {
                        assert(sessions_now.subrange(i as int, sessions_now.len() as int)[m - i]
                            == before_sessions.skip(seen)[m - i]);
                    }
                    assert(ids_now.subrange(i + 1, ids_now.len() as int) =~= before_ids.skip(
                        seen + 1,
                    ));
                    assert(sessions_now.subrange(i + 1, sessions_now.len() as int)
                        =~= before_sessions.skip(seen + 1));
                }
                i += 1;
            } else {
                self.ids.remove(i);
                self.sessions.remove(i);
                proof {
                    assert(self.ids@.subrange(0, i as int) =~= ids_now.subrange(0, i as int));
                    assert(self.sessions@.subrange(0, i as int) =~= sessions_now.subrange(
                        0,
                        i as int,
                    ));
                    assert forall|m: int| i < m < ids_now.len() implies #[trigger] ids_now[m]
                        == before_ids[seen + m - i] by {
                        assert(ids_now.subrange(i as int, ids_now.len() as int)[m - i]
                            == before_ids.skip(seen)[m - i]);
                    }
                    assert forall|m: int|
                        i < m < sessions_now.len() implies #[trigger] sessions_now[m]
                        == before_sessions[seen + m - i] by {
                        assert(sessions_now.subrange(i as int, sessions_now.len() as int)[m - i]
                            == before_sessions.skip(seen)[m - i]);
                    }
                    assert(self.ids@.subrange(i as int, self.ids@.len() as int)
                        =~= before_ids.skip(seen + 1));
                    assert(self.sessions@.subrange(i as int, self.sessions@.len() as int)
                        =~= before_sessions.skip(seen + 1));
                }
                removed += 1;
            }
            proof {
                seen = seen + 1;
            }
        }
        proof {
            assert(before_ids.take(seen) =~= before_ids);
            assert(before_sessions.take(seen) =~= before_sessions);
            assert(self.ids@.subrange(0, i as int) =~= self.ids@);
            assert(self.sessions@.subrange(0, i as int) =~= self.sessions@);
            kept_is_part(before_ids, before_sessions, rule.rule());
        }
        removed
    }

    /// Removes every session that has expired at `now`, and returns how
    /// many that were.
    pub fn cleanup_expired_at(&mut self, now: i64) -> (removed: usize)
        requires
            old(self).wf(),
        ensures
            final(self).wf(),
            final(self).capacity() == old(self).capacity(),
            (final(self).ids(), final(self).sessions()) == kept(
                old(self).ids(),
                old(self).sessions(),
                Rule::LiveAt(now),
            ),
            removed == old(self).ids().len() - final(self).ids().len(),
    {
        self.sweep(&Keep::LiveAt(now))
    }

    /// Removes the session stored under `session_id`, if there is one.
    pub fn remove_session(&mut self, session_id: &str)
        requires
            old(self).wf(),
        ensures
            final(self).wf(),
            final(self).capacity() == old(self).capacity(),
            (final(self).ids(), final(self).sessions()) == kept(
                old(self).ids(),
                old(self).sessions(),
                Rule::OtherThan(session_id@),
            ),
    {
        self.sweep(&Keep::OtherThan(session_id));
    }

    /// Removes all sessions.
    pub fn clear(&mut self)
        ensures
            final(self).wf(),
            final(self).capacity() == old(self).capacity(),
            final(self).ids().len() == 0,
            final(self).sessions().len() == 0,
    {
        self.ids.clear();
        self.sessions.clear();
    }

    /// Counts the sessions that are live at `now`, after removing the
    /// others; the count never passes the capacity.
    pub fn count_at(&mut self, now: i64) -> (count: usize)
        requires
            old(self).wf(),
        ensures
            final(self).wf(),
            final(self).capacity() == old(self).capacity(),
            (final(self).ids(), final(self).sessions()) == kept(
                old(self).ids(),
                old(self).sessions(),
                Rule::LiveAt(now),
            ),
            count == final(self).sessions().len(),
            count <= final(self).capacity(),
    {
        self.sweep(&Keep::LiveAt(now));
        self.sessions.len()
    }

    /// What storing `session` at `now` does.
    pub open spec fn add_outcome(
        before: SessionManager,
        session: Session,
        now: i64,
        after: SessionManager,
        result: Result<(), Error>,
    ) -> bool {
        let live = kept(before.ids(), before.sessions(), Rule::LiveAt(now));
        let others = kept(live.0, live.1, Rule::OtherThan(session.session_id@));
        &&& after.capacity() == before.capacity()
        &&& if live.0.len() >= before.capacity() {
            &&& result matches Err(e) && e.is_session(
                too_many_sessions(live.0.len(), before.capacity() as nat),
            )
            &&& (after.ids(), after.sessions()) == live
        } else {
            &&& result is Ok
            &&& after.ids() == others.0.push(session.session_id)
            &&& after.sessions() == others.1.push(session)
        }
    }

    /// What looking up `session_id` at `now` does. `found` is the session
    /// handed out, as it is then and as the caller leaves it.
    pub open spec fn get_outcome(
        before: SessionManager,
        session_id: Seq<char>,
        now: i64,
        after: SessionManager,
        found: Option<(Session, Session)>,
    ) -> bool {
        &&& after.capacity() == before.capacity()
        &&& match position_of(before.ids(), session_id) {
            None => {
                &&& found is None
                &&& after.ids() == before.ids()
                &&& after.sessions() == before.sessions()
            },
            Some(i) => if before.sessions()[i].expired_at(now) {
                &&& found is None
                &&& after.ids() == before.ids().remove(i)
                &&& after.sessions() == before.sessions().remove(i)
            } else {
                &&& found matches Some((handed, left))
                &&& handed == before.sessions()[i]
                &&& after.ids() == before.ids()
                &&& after.sessions() == before.sessions().update(i, left)
            },
        }
    }

    /// What a sweep of the expired at `now` does.
    pub open spec fn swept(before: SessionManager, now: i64, after: SessionManager) -> bool {
        &&& after.capacity() == before.capacity()
        &&& (after.ids(), after.sessions()) == kept(
            before.ids(),
            before.sessions(),
            Rule::LiveAt(now),
        )
    }

    /// Stores a session now, by the clock.
    pub fn add_session(&mut self, session: Session) -> (result: Result<(), Error>)
        requires
            old(self).wf(),
        ensures
            final(self).wf(),
            exists|now: i64|
                #[trigger] clock_reading(now) && SessionManager::add_outcome(
                    *old(self),
                    session,
                    now,
                    *final(self),
                    result,
                ),
    {
        let now = utc_now();
        assert(clock_reading(now));
        self.add_session_at(session, now)
    }

    /// Finds the session stored under `session_id` now, by the clock.
    pub fn get_session(&mut self, session_id: &str) -> (result: Option<&mut Session>)
        requires
            old(self).wf(),
        ensures
            final(self).wf(),
            exists|now: i64|
                #[trigger] clock_reading(now) && SessionManager::get_outcome(
                    *old(self),
                    session_id@,
                    now,
                    *final(self),
                    match result {
                        Some(session) => Some((*session, *final(session))),
                        None => None,
                    },
                ),
    {
        let now = utc_now();
        assert(clock_reading(now));
        self.get_session_at(session_id, now)
    }

    /// Removes every session that has expired now, by the clock, and
    /// returns how many that were.
    pub fn cleanup_expired(&mut self) -> (removed: usize)
        requires
            old(self).wf(),
        ensures
            final(self).wf(),
            exists|now: i64|
                #[trigger] clock_reading(now) && SessionManager::swept(
                    *old(self),
                    now,
                    *final(self),
                ),
            removed == old(self).ids().len() - final(self).ids().len(),
    {
        let now = utc_now();
        assert(clock_reading(now));
        self.cleanup_expired_at(now)
    }

    /// Counts the sessions that are live now, by the clock, after removing
    /// the others.
    pub fn count(&mut self) -> (count: usize)
        requires
            old(self).wf(),
        ensures
            final(self).wf(),
            exists|now: i64|
                #[trigger] clock_reading(now) && SessionManager::swept(
                    *old(self),
                    now,
                    *final(self),
                ),
            count == final(self).sessions().len(),
            count <= final(self).capacity(),
    {
        let now = utc_now();
        assert(clock_reading(now));
        self.count_at(now)
    }

    /// Stores a session at the time `now`. Expired sessions are removed
    /// first. A manager that is then at capacity refuses; else the session
    /// is stored under its identifier, in place of any session stored under
    /// the same.
    pub fn add_session_at(&mut self, session: Session, now: i64) -> (result: Result<(), Error>)
        requires
            old(self).wf(),
        ensures
            final(self).wf(),
            SessionManager::add_outcome(*old(self), session, now, *final(self), result),
    {
        self.sweep(&Keep::LiveAt(now));
        let held = self.sessions.len();
        if held >= self.max_sessions {
            let mut text = String::from_str("Too many sessions (");
            push_decimal(&mut text, held as u64);
            text.append("/");
            push_decimal(&mut text, self.max_sessions as u64);
            text.append(")");
            return Err(Error::Session(text));
        }
        let ghost live_ids = self.ids@;
        let ghost live_sessions = self.sessions@;
        self.sweep(&Keep::OtherThan(session.session_id.as_str()));
        proof {
            let rule = Rule::OtherThan(session.session_id@);
            kept_is_part(live_ids, live_sessions, rule);
            assert forall|i: int| 0 <= i < self.ids@.len() implies self.ids@[i]@
                != session.session_id@ by {
                assert(self.ids@[i] == kept(live_ids, live_sessions, rule).0[i]);
            }
        }
        self.ids.push(session.session_id.clone());
        self.sessions.push(session);
        Ok(())
    }

    /// Finds the session stored under `session_id` at the time `now`. A
    /// session that has expired is removed and not returned.
    pub fn get_session_at(&mut self, session_id: &str, now: i64) -> (result: Option<&mut Session>)
        requires
            old(self).wf(),
        ensures
            final(self).wf(),
            SessionManager::get_outcome(
                *old(self),
                session_id@,
                now,
                *final(self),
                match result {
                    Some(session) => Some((*session, *final(session))),
                    None => None,
                },
            ),
    {
        proof {
            position_of_is_first(self.ids@, session_id@);
        }
        let mut i: usize = 0;
        while i < self.ids.len()
            invariant
                i <= self.ids@.len(),
                *self == *old(self),
                forall|j: int| 0 <= j < i ==> self.ids@[j]@ != session_id@,
            ensures
                i < self.ids@.len() ==> self.ids@[i as int]@ == session_id@,
            decreases self.ids@.len() - i,
        {
            if same_text(self.ids[i].as_str(), session_id) {
                break ;
            }
            i += 1;
        }
        if i >= self.ids.len() {
            return None;
        }
        if self.sessions[i].is_expired_at(now) {
            self.ids.remove(i);
            self.sessions.remove(i);
            return None;
        }
        Some(&mut self.sessions[i])
    }
}

/// The text of the error of a manager at capacity.
pub open spec fn too_many_sessions(held: nat, capacity: nat) -> Seq<char> {
    "Too many sessions ("@ + decimal(held) + "/"@ + decimal(capacity) + ")"@
}

impl Default for SessionManager {
    /// An empty manager for up to a hundred sessions.
    fn default() -> (manager: SessionManager)
        ensures
            manager.wf(),
            manager.ids().len() == 0,
            manager.capacity() == 100,
    {
        SessionManager::new(100)
    }
}

} // verus!
