//! The verification hook: per-principal rate limits, cooldowns and a
//! blacklist, consulted before the registry accepts a registration.

use crate::pubkey::Pubkey;
use crate::registry::signature_valid;
use vstd::prelude::*;
use vstd::utf8::encode_utf8;

verus! {

/// Registrations a principal may make per UTC day.
pub const MAX_REGISTRATIONS_PER_DAY: u8 = 5;

/// Seconds that must pass between two registrations of one principal.
pub const REGISTRATION_COOLDOWN: i64 = 60;

/// Seconds in one UTC day.
pub const SECONDS_PER_DAY: i64 = 86400;

/// Fewest bytes a DID may have.
pub const MIN_DID_LEN: usize = 10;

/// Why the hook refused.
#[derive(Debug, Clone, Copy, PartialEq, Eq, Structural)]
pub enum ErrorCode {
    Blacklisted,
    CooldownActive,
    DailyLimitReached,
    InvalidDIDFormat,
    InvalidSignature,
    HookDisabled,
    /// The signer is not the hook's authority.
    Unauthorized,
    /// The count of registrations stands at its last value.
    CounterExhausted,
}

impl ErrorCode {
    /// The reason in words.
    pub open spec fn text(self) -> Seq<char> {
        match self {
            ErrorCode::Blacklisted => "User is blacklisted"@,
            ErrorCode::CooldownActive => "Registration cooldown active"@,
            ErrorCode::DailyLimitReached => "Daily registration limit reached"@,
            ErrorCode::InvalidDIDFormat => "Invalid DID format"@,
            ErrorCode::InvalidSignature => "Invalid signature"@,
            ErrorCode::HookDisabled => "Hook is disabled"@,
            ErrorCode::Unauthorized => "Signer is not authorized"@,
            ErrorCode::CounterExhausted => "Counter exhausted"@,
        }
    }

    /// The reason in words.
    pub fn message(&self) -> (message: &'static str)
        ensures
            message@ == self.text(),
    {
        match self {
            ErrorCode::Blacklisted => "User is blacklisted",
            ErrorCode::CooldownActive => "Registration cooldown active",
            ErrorCode::DailyLimitReached => "Daily registration limit reached",
            ErrorCode::InvalidDIDFormat => "Invalid DID format",
            ErrorCode::InvalidSignature => "Invalid signature",
            ErrorCode::HookDisabled => "Hook is disabled",
            ErrorCode::Unauthorized => "Signer is not authorized",
            ErrorCode::CounterExhausted => "Counter exhausted",
        }
    }
}

/// The singleton account of the hook.
#[derive(Debug, Clone, Copy, PartialEq, Eq)]
pub struct HookState {
    pub authority: Pubkey,
    pub enabled: bool,
}

impl HookState {
    /// Bytes the account takes on the ledger.
    pub const LEN: usize = 32 + 1;
}

/// What the hook remembers of one principal.
#[derive(Debug, Clone, Copy, PartialEq, Eq)]
pub struct UserState {
    /// Registrations recorded on `last_day`.
    pub registration_count: u8,
    /// When the last registration was recorded; zero before the first.
    pub last_registration: i64,
    /// The UTC day that `registration_count` counts.
    pub last_day: i64,
    pub blacklisted: bool,
}

impl UserState {
    /// Bytes the account takes on the ledger.
    pub const LEN: usize = 1 + 8 + 8 + 1;

    /// Whether the principal is within the daily quota.
    pub open spec fn within_quota(&self) -> bool {
        self.registration_count <= MAX_REGISTRATIONS_PER_DAY
    }
}

/// The accounts of `initialize`.
#[derive(Debug, Clone, Copy, PartialEq, Eq)]
pub struct Initialize {
    /// The hook account being created.
    pub hook_state: HookState,
    /// The signer, who becomes the authority.
    pub authority: Pubkey,
}

/// The accounts of `initialize_user_state`.
#[derive(Debug, Clone, Copy, PartialEq, Eq)]
pub struct InitializeUserState {
    /// The user account being created.
    pub user_state: UserState,
    pub signer: Pubkey,
}

/// The accounts of `verify_registration`.
#[derive(Debug, Clone, Copy, PartialEq, Eq)]
pub struct VerifyRegistration {
    pub user_state: UserState,
    pub hook_state: HookState,
    /// The registering principal, whose key verifies the signature.
    pub signer: Pubkey,
}

/// The accounts of `after_registration`.
#[derive(Debug, Clone, Copy, PartialEq, Eq)]
pub struct AfterRegistration {
    pub user_state: UserState,
    pub signer: Pubkey,
}

/// The accounts of the blacklist instructions.
#[derive(Debug, Clone, Copy, PartialEq, Eq)]
pub struct ManageBlacklist {
    pub user_state: UserState,
    pub hook_state: HookState,
    /// The signer.
    pub authority: Pubkey,
    /// The principal whose state is changed.
    pub target_user: Pubkey,
}

#[derive(Debug, Clone, Copy, PartialEq, Eq)]
pub struct RegistrationRecorded {
    pub user: Pubkey,
    pub timestamp: i64,
    pub count: u8,
}

#[derive(Debug, Clone, Copy, PartialEq, Eq)]
pub struct BlacklistUpdated {
    pub user: Pubkey,
    pub blacklisted: bool,
    pub authority: Pubkey,
}

/// The UTC day ordinal of a Unix timestamp: the quotient by 86400, rounded
/// toward zero.
pub open spec fn day_of(now: int) -> int {
    if now >= 0 {
        now / 86400
    } else {
        -((-now) / 86400)
    }
}

/// Computes the UTC day ordinal of a timestamp.
pub fn current_day(now: i64) -> (day: i64)
    ensures
        day == day_of(now as int),
{
    now / SECONDS_PER_DAY
}

/// Whether a principal who last registered at `last_registration` must
/// still wait at `now`. A principal who never registered need not.
pub open spec fn cooling_down(last_registration: i64, now: i64) -> bool {
    last_registration > 0 && now < last_registration + REGISTRATION_COOLDOWN
}

/// The user's state once the day of `now` has been taken into account: on a
/// new day the count starts again at zero.
pub open spec fn rolled_over(user: UserState, now: i64) -> UserState {
    if user.last_day != day_of(now as int) {
        UserState { registration_count: 0, last_day: day_of(now as int) as i64, ..user }
    } else {
        user
    }
}

/// The user's state once a registration at `now` has been recorded.
pub open spec fn recorded(user: UserState, now: i64) -> UserState {
    UserState {
        registration_count: (user.registration_count + 1) as u8,
        last_registration: now,
        ..user
    }
}

/// Whether a DID has the shape the hook asks for: it starts with `did:` and
/// is at least ten bytes long.
pub open spec fn did_well_formed(did: Seq<char>) -> bool {
    let bytes = encode_utf8(did);
    bytes.len() >= MIN_DID_LEN && bytes[0] == 100 && bytes[1] == 105 && bytes[2] == 100 && bytes[3]
        == 58
}

/// Why a registration attempt is refused, if it is. The checks run in this
/// order, and the first that fails decides.
pub open spec fn verification_error(
    ctx: VerifyRegistration,
    did: Seq<char>,
    signature: Seq<u8>,
    message: Seq<u8>,
    now: i64,
) -> Option<ErrorCode> {
    if !ctx.hook_state.enabled {
        Some(ErrorCode::HookDisabled)
    } else if ctx.user_state.blacklisted {
        Some(ErrorCode::Blacklisted)
    } else if cooling_down(ctx.user_state.last_registration, now) {
        Some(ErrorCode::CooldownActive)
    } else if rolled_over(ctx.user_state, now).registration_count >= MAX_REGISTRATIONS_PER_DAY {
        Some(ErrorCode::DailyLimitReached)
    } else if !did_well_formed(did) {
        Some(ErrorCode::InvalidDIDFormat)
    } else if signature.len() != 64 || !signature_valid(ctx.signer.bytes@, message, signature) {
        Some(ErrorCode::InvalidSignature)
    } else {
        None
    }
}

/// The user's state after a registration attempt. An attempt that gets as
/// far as the daily quota starts a new day's count, and keeps it started
/// whatever the later checks say; an attempt refused before that changes
/// nothing.
pub open spec fn state_after_verification(ctx: VerifyRegistration, now: i64) -> UserState {
    if !ctx.hook_state.enabled || ctx.user_state.blacklisted || cooling_down(
        ctx.user_state.last_registration,
        now,
    ) {
        ctx.user_state
    } else {
        rolled_over(ctx.user_state, now)
    }
}

/// Creates the hook: the signer becomes its authority, and it is enabled.
pub fn initialize(ctx: &mut Initialize) -> (result: Result<(), ErrorCode>)
    ensures
        result is Ok,
        final(ctx).authority == old(ctx).authority,
        final(ctx).hook_state == (HookState { authority: old(ctx).authority, enabled: true }),
{
    ctx.hook_state.authority = ctx.authority;
    ctx.hook_state.enabled = true;
    Ok(())
}

/// Creates a principal's state: nothing registered, not blacklisted.
pub fn initialize_user_state(ctx: &mut InitializeUserState) -> (result: Result<(), ErrorCode>)
    ensures
        result is Ok,
        final(ctx).signer == old(ctx).signer,
        final(ctx).user_state == (UserState {
            registration_count: 0,
            last_registration: 0,
            last_day: 0,
            blacklisted: false,
        }),
{
    ctx.user_state.registration_count = 0;
    ctx.user_state.last_registration = 0;
    ctx.user_state.last_day = 0;
    ctx.user_state.blacklisted = false;
    Ok(())
}

/// Checks whether a DID starts with `did:` and has at least ten bytes.
pub fn check_did_format(did: &str) -> (well_formed: bool)
    ensures
        well_formed == did_well_formed(did@),
{
    let bytes = did.as_bytes();
    bytes.len() >= MIN_DID_LEN && bytes[0] == 100 && bytes[1] == 105 && bytes[2] == 100 && bytes[3]
        == 58
}

/// Verifies an Ed25519 signature of exactly 64 bytes under a principal's
/// key; anything else is `InvalidSignature`.
pub fn verify_ed25519_signature(
    pubkey: &Pubkey,
    message: &[u8],
    signature: &[u8],
) -> (result: Result<(), ErrorCode>)
    ensures
        result == if signature@.len() == 64 && signature_valid(
            pubkey.bytes@,
            message@,
            signature@,
        ) {
            Ok::<(), ErrorCode>(())
        } else {
            Err::<(), ErrorCode>(ErrorCode::InvalidSignature)
        },
{
    let sig = match crate::bytes::to_array::<64>(signature) {
        Some(sig) => sig,
        None => {
            return Err(ErrorCode::InvalidSignature);
        },
    };
    match crate::registry::verify_ed25519_signature(&pubkey.bytes, message, &sig) {
        Ok(()) => Ok(()),
        Err(_) => Err(ErrorCode::InvalidSignature),
    }
}

/// Decides whether a principal may register now. In order: the hook must be
/// enabled, the principal not blacklisted and past the cooldown, and within
/// the daily quota once a new day has reset the count; the DID must be well
/// formed; and the signature over `message` must verify under the signer's
/// key.
pub fn verify_registration(
    ctx: &mut VerifyRegistration,
    did: String,
    signature: Vec<u8>,
    message: Vec<u8>,
    now: i64,
) -> (result: Result<(), ErrorCode>)
    ensures
        result == match verification_error(*old(ctx), did@, signature@, message@, now) {
            Some(code) => Err::<(), ErrorCode>(code),
            None => Ok::<(), ErrorCode>(()),
        },
        *final(ctx) == (VerifyRegistration {
            user_state: state_after_verification(*old(ctx), now),
            ..*old(ctx)
        }),
        result is Ok ==> final(ctx).user_state.registration_count < MAX_REGISTRATIONS_PER_DAY
            && final(ctx).user_state.last_day == day_of(now as int),
        old(ctx).user_state.within_quota() ==> final(ctx).user_state.within_quota(),
{
    if !ctx.hook_state.enabled {
        return Err(ErrorCode::HookDisabled);
    }
    if ctx.user_state.blacklisted {
        return Err(ErrorCode::Blacklisted);
    }
    let last = ctx.user_state.last_registration;
    if last > 0 && (last > i64::MAX - REGISTRATION_COOLDOWN || now < last + REGISTRATION_COOLDOWN) {
        return Err(ErrorCode::CooldownActive);
    }
    let day = current_day(now);
    if ctx.user_state.last_day != day {
        ctx.user_state.registration_count = 0;
        ctx.user_state.last_day = day;
    }
    if ctx.user_state.registration_count >= MAX_REGISTRATIONS_PER_DAY {
        return Err(ErrorCode::DailyLimitReached);
    }
    if !check_did_format(did.as_str()) {
        return Err(ErrorCode::InvalidDIDFormat);
    }
    verify_ed25519_signature(&ctx.signer, message.as_slice(), signature.as_slice())
}

/// Records a registration that the registry has committed: the day's count
/// grows by one and the cooldown starts at `now`. A count that stands at its
/// last value is not counted on, and nothing changes.
pub fn after_registration(
    ctx: &mut AfterRegistration,
    now: i64,
) -> (result: Result<RegistrationRecorded, ErrorCode>)
    ensures
        if old(ctx).user_state.registration_count == u8::MAX {
            &&& result == Err::<RegistrationRecorded, ErrorCode>(ErrorCode::CounterExhausted)
            &&& *final(ctx) == *old(ctx)
        } else {
            &&& result == Ok::<RegistrationRecorded, ErrorCode>(
                RegistrationRecorded {
                    user: old(ctx).signer,
                    timestamp: now,
                    count: (old(ctx).user_state.registration_count + 1) as u8,
                },
            )
            &&& *final(ctx) == (AfterRegistration {
                user_state: recorded(old(ctx).user_state, now),
                ..*old(ctx)
            })
        },
{
    if ctx.user_state.registration_count == u8::MAX {
        return Err(ErrorCode::CounterExhausted);
    }
    ctx.user_state.registration_count = ctx.user_state.registration_count + 1;
    ctx.user_state.last_registration = now;
    Ok(
        RegistrationRecorded {
            user: ctx.signer,
            timestamp: now,
            count: ctx.user_state.registration_count,
        },
    )
}

/// The accounts after the blacklist flag of the target has been set to
/// `blacklisted`.
pub open spec fn with_blacklisted(ctx: ManageBlacklist, blacklisted: bool) -> ManageBlacklist {
    ManageBlacklist { user_state: UserState { blacklisted, ..ctx.user_state }, ..ctx }
}

/// What a blacklist instruction does: the hook's authority sets the flag;
/// anyone else changes nothing.
pub open spec fn blacklist_outcome(
    before: ManageBlacklist,
    blacklisted: bool,
    after: ManageBlacklist,
    result: Result<BlacklistUpdated, ErrorCode>,
) -> bool {
    if before.hook_state.authority != before.authority {
        result == Err::<BlacklistUpdated, ErrorCode>(ErrorCode::Unauthorized) && after == before
    } else {
        &&& result == Ok::<BlacklistUpdated, ErrorCode>(
            BlacklistUpdated { user: before.target_user, blacklisted, authority: before.authority },
        )
        &&& after == with_blacklisted(before, blacklisted)
    }
}

/// Puts the target principal on the blacklist.
pub fn add_to_blacklist(ctx: &mut ManageBlacklist) -> (result: Result<BlacklistUpdated, ErrorCode>)
    ensures
        blacklist_outcome(*old(ctx), true, *final(ctx), result),
{
    if !ctx.hook_state.authority.same(&ctx.authority) {
        return Err(ErrorCode::Unauthorized);
    }
    ctx.user_state.blacklisted = true;
    Ok(BlacklistUpdated { user: ctx.target_user, blacklisted: true, authority: ctx.authority })
}

/// Takes the target principal off the blacklist.
pub fn remove_from_blacklist(
    ctx: &mut ManageBlacklist,
) -> (result: Result<BlacklistUpdated, ErrorCode>)
    ensures
        blacklist_outcome(*old(ctx), false, *final(ctx), result),
{
    if !ctx.hook_state.authority.same(&ctx.authority) {
        return Err(ErrorCode::Unauthorized);
    }
    ctx.user_state.blacklisted = false;
    Ok(BlacklistUpdated { user: ctx.target_user, blacklisted: false, authority: ctx.authority })
}

/// Setting the blacklist flag twice is the same as setting it once, and
/// the last setting wins: removing and then adding leaves the principal
/// blacklisted.
pub proof fn blacklist_last_setting_wins(ctx: ManageBlacklist, first: bool, second: bool)
    ensures
        with_blacklisted(with_blacklisted(ctx, first), second) == with_blacklisted(ctx, second),
        with_blacklisted(with_blacklisted(ctx, false), true).user_state.blacklisted,
        with_blacklisted(with_blacklisted(ctx, true), true) == with_blacklisted(ctx, true),
        with_blacklisted(with_blacklisted(ctx, false), false) == with_blacklisted(ctx, false),
{
}

/// A principal whose attempt passed the daily quota at `now` is within the
/// quota for that day once the registration is recorded, whatever the count
/// was before.
pub proof fn quota_holds_once_recorded(user: UserState, now: i64, recorded_at: i64)
    requires
        rolled_over(user, now).registration_count < MAX_REGISTRATIONS_PER_DAY,
    ensures
        recorded(rolled_over(user, now), recorded_at).within_quota(),
        recorded(rolled_over(user, now), recorded_at).last_day == day_of(now as int),
{
}

} // verus!
