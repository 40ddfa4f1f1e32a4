//! The OAuth token, its expiry rule, and the decisions taken before a
//! token is used, refreshed or saved.

use vstd::prelude::*;
use vstd::string::*;
use crate::error::SpotifyError;

verus! {

/// A token is treated as expired this many seconds before its real expiry,
/// to leave room for the time a request takes to reach Spotify.
pub const EXPIRY_MARGIN_SECS: u64 = 60;

/// A point in time, as the time elapsed since the Unix epoch.
#[derive(Clone, Copy, Debug, PartialEq, Eq)]
pub struct Timestamp {
    pub secs: u64,
    pub nanos: u32,
}

/// The Unix epoch itself.
pub open spec fn epoch() -> Timestamp {
    Timestamp { secs: 0, nanos: 0 }
}

/// Nanoseconds since the Unix epoch.
pub open spec fn nanos_since_epoch(t: Timestamp) -> int {
    t.secs * 1_000_000_000 + t.nanos
}

/// Whole seconds from `from` to `to`, as `Duration::as_secs` gives them for
/// `to.duration_since(from)` (meaningful when `from` is not later than `to`).
pub open spec fn elapsed_secs(from: Timestamp, to: Timestamp) -> int {
    (nanos_since_epoch(to) - nanos_since_epoch(from)) / 1_000_000_000
}

/// An access token as Spotify's token endpoint returns it, with the moment
/// it was obtained.
#[derive(Clone, Debug, PartialEq, Eq)]
pub struct Token {
    pub access_token: String,
    pub token_type: String,
    pub expires_in: u16,
    pub refresh_token: Option<String>,
    pub scope: String,
    pub obtained_at: Option<Timestamp>,
}

/// Why the saved token could not be read.
#[derive(Clone, Debug, PartialEq, Eq)]
pub enum TokenError {
    FileReadError(String),
    FileNotFound(String),
    InvalidTokenSaveFile(String),
}

/// The notice printed when the saved token cannot be used and a new login
/// starts.
pub open spec fn login_notice_text(e: TokenError) -> Seq<char> {
    match e {
        TokenError::FileNotFound(why) => "token.json dosyası bulunamadı: "@ + why@
            + " | yeni token alınıyor."@,
        TokenError::FileReadError(why) => "token.json dosyası bozuk: "@ + why@
            + " | yeni token alınıyor."@,
        TokenError::InvalidTokenSaveFile(why) => "token.json dosyası bozuk: "@ + why@
            + " | yeni token alınıyor."@,
    }
}

impl TokenError {
    /// The notice for a token file that could not be used.
    pub fn login_notice(&self) -> (r: String)
        ensures
            r@ == login_notice_text(*self),
    {
        let (mut s, why) = match self {
            TokenError::FileNotFound(why) => (String::from_str("token.json dosyası bulunamadı: "), why),
            TokenError::FileReadError(why) => (String::from_str("token.json dosyası bozuk: "), why),
            TokenError::InvalidTokenSaveFile(why) => (String::from_str("token.json dosyası bozuk: "), why),
        };
        s.append(why.as_str());
        s.append(" | yeni token alınıyor.");
        s
    }
}

/// When the token was obtained; a token without that moment counts as
/// obtained at the Unix epoch.
pub open spec fn obtained_or_epoch(t: Token) -> Timestamp {
    match t.obtained_at {
        Some(at) => at,
        None => epoch(),
    }
}

/// Whether `t` counts as expired when the clock reads `now`. `None` stands
/// for a clock that reads earlier than the Unix epoch. A token whose moment
/// of issue lies after `now` counts as expired; otherwise it is expired once
/// the elapsed whole seconds plus the safety margin exceed its lifetime.
pub open spec fn token_expired_at(t: Token, now: Option<Timestamp>) -> bool {
    match now {
        None => true,
        Some(n) => {
            let at = obtained_or_epoch(t);
            nanos_since_epoch(n) < nanos_since_epoch(at) || elapsed_secs(at, n)
                + EXPIRY_MARGIN_SECS > t.expires_in
        },
    }
}

/// What a reading of the system clock can be: a time with its nanoseconds
/// below one second, or `None` when the clock is before the Unix epoch.
pub open spec fn clock_reading(now: Option<Timestamp>) -> bool {
    now matches Some(t) ==> t.nanos < 1_000_000_000
}

#[verifier::external_type_specification]
#[verifier::external_body]
pub struct ExSystemTime(std::time::SystemTime);

/// Calls `SystemTime::now`. Nothing is claimed of the time it returns.
#[verifier::external_body]
fn system_time_now() -> std::time::SystemTime {
    std::time::SystemTime::now()
}

/// Calls `SystemTime::duration_since(UNIX_EPOCH)` and gives its whole seconds
/// and sub-second nanoseconds; `None` when the time is before the epoch.
/// Claims only that the nanoseconds stay below one second, as
/// `Duration::subsec_nanos` documents.
#[verifier::external_body]
fn since_unix_epoch(t: &std::time::SystemTime) -> (r: Option<Timestamp>)
    ensures
        clock_reading(r),
{
    match t.duration_since(std::time::UNIX_EPOCH) {
        Ok(d) => Some(Timestamp { secs: d.as_secs(), nanos: d.subsec_nanos() }),
        Err(_) => None,
    }
}

fn clock_now() -> (r: Option<Timestamp>)
    ensures
        clock_reading(r),
{
    let now = system_time_now();
    since_unix_epoch(&now)
}

fn total_nanos(t: Timestamp) -> (r: u128)
    ensures
        r == nanos_since_epoch(t),
{
    assert(t.secs * 1_000_000_000 <= 18_446_744_073_709_551_615 * 1_000_000_000) by (
    nonlinear_arith)
        requires
            t.secs <= 18_446_744_073_709_551_615u64,
    ;
    t.secs as u128 * 1_000_000_000 + t.nanos as u128
}

impl Token {
    /// Whether the token counts as expired when the clock reads `now`
    /// (`None`: the clock is before the Unix epoch).
    pub fn is_expired_at(&self, now: Option<Timestamp>) -> (r: bool)
        ensures
            r == token_expired_at(*self, now),
    {
        let at = match self.obtained_at {
            Some(t) => t,
            None => Timestamp { secs: 0, nanos: 0 },
        };
        match now {
            None => true,
            Some(n) => {
                let a = total_nanos(n);
                let b = total_nanos(at);
                if a < b {
                    true
                } else {
                    let elapsed = (a - b) / 1_000_000_000;
                    elapsed + EXPIRY_MARGIN_SECS as u128 > self.expires_in as u128
                }
            },
        }
    }

    /// Whether the token counts as expired now, with the safety margin.
    /// The clock is read once; the answer is the rule of `is_expired_at` for
    /// that reading.
    pub fn is_expired(&self) -> (r: bool)
        ensures
            exists|now: Option<Timestamp>|
                clock_reading(now) && r == #[trigger] token_expired_at(*self, now),
    {
        let now = clock_now();
        self.is_expired_at(now)
    }
}


/// What to do with the saved token before a request.
#[derive(Clone, Debug, PartialEq, Eq)]
pub enum TokenStep {
    /// The token is still valid: use it.
    Use(Token),
    /// The token has expired: ask for a new one with this refresh token.
    Refresh(String),
}

/// The step that the saved token calls for when the clock reads `now`:
/// no token means a login is needed; a valid token is used as it is; an
/// expired one is refreshed with its refresh token, or, without one, a
/// login is needed.
pub open spec fn token_step(saved: Option<Token>, now: Option<Timestamp>) -> Result<
    TokenStep,
    SpotifyError,
> {
    match saved {
        None => Err(SpotifyError::NeedsLogin),
        Some(t) => if !token_expired_at(t, now) {
            Ok(TokenStep::Use(t))
        } else {
            match t.refresh_token {
                Some(r) => Ok(TokenStep::Refresh(r)),
                None => Err(SpotifyError::NeedsLogin),
            }
        },
    }
}

/// Decides what the saved token calls for when the clock reads `now`.
pub fn plan_token_use_at(saved: Option<Token>, now: Option<Timestamp>) -> (r: Result<
    TokenStep,
    SpotifyError,
>)
    ensures
        r == token_step(saved, now),
{
    match saved {
        None => Err(SpotifyError::NeedsLogin),
        Some(t) => {
            if !t.is_expired_at(now) {
                Ok(TokenStep::Use(t))
            } else {
                match t.refresh_token {
                    Some(r) => Ok(TokenStep::Refresh(r)),
                    None => Err(SpotifyError::NeedsLogin),
                }
            }
        },
    }
}

/// Decides what the saved token calls for, reading the clock once.
pub fn plan_token_use(saved: Option<Token>) -> (r: Result<TokenStep, SpotifyError>)
    ensures
        exists|now: Option<Timestamp>| clock_reading(now) && r == #[trigger] token_step(saved, now),
{
    let now = clock_now();
    plan_token_use_at(saved, now)
}

/// The token that a refresh yields: the one Spotify returned, keeping the
/// previous refresh token when Spotify sent none.
pub open spec fn refreshed(fresh: Token, previous_refresh: String) -> Token {
    Token {
        refresh_token: match fresh.refresh_token {
            Some(r) => Some(r),
            None => Some(previous_refresh),
        },
        ..fresh
    }
}

/// Completes a token from the refresh endpoint: Spotify mostly sends no new
/// refresh token, and then the previous one is kept.
pub fn keep_refresh_token(fresh: Token, previous_refresh: String) -> (r: Token)
    ensures
        r == refreshed(fresh, previous_refresh),
        r.refresh_token is Some,
{
    let mut t = fresh;
    if t.refresh_token.is_none() {
        t.refresh_token = Some(previous_refresh);
    }
    t
}

/// The token marked as obtained at `at`.
pub open spec fn stamped(t: Token, at: Timestamp) -> Token {
    Token { obtained_at: Some(at), ..t }
}

/// Marks the token as obtained at `now` before it is saved; the clock before
/// the Unix epoch (`None`) cannot be saved, as serde refuses such a time.
pub fn stamp_at(token: &mut Token, now: Option<Timestamp>) -> (r: Result<(), SpotifyError>)
    ensures
        now is None ==> *final(token) == *old(token) && (r matches Err(SpotifyError::Json(m))
            && m@ == "SystemTime must be later than UNIX_EPOCH"@),
        now matches Some(t) ==> r is Ok && *final(token) == stamped(*old(token), t),
{
    match now {
        None => Err(SpotifyError::Json(String::from_str("SystemTime must be later than UNIX_EPOCH"))),
        Some(t) => {
            token.obtained_at = Some(t);
            Ok(())
        },
    }
}

/// Marks the token as obtained now, reading the clock once. It fails only
/// when the clock reads earlier than the Unix epoch, a time that cannot be
/// saved.
pub fn stamp_now(token: &mut Token) -> (r: Result<(), SpotifyError>)
    ensures
        r is Ok ==> exists|t: Timestamp|
            t.nanos < 1_000_000_000 && *final(token) == #[trigger] stamped(*old(token), t),
        r is Err ==> *final(token) == *old(token),
        r matches Err(e) ==> (e matches SpotifyError::Json(m)
            && m@ == "SystemTime must be later than UNIX_EPOCH"@),
{
    let now = clock_now();
    stamp_at(token, now)
}

/// A token checked at the moment it was obtained counts as expired exactly
/// when its lifetime is shorter than the safety margin.
pub proof fn lemma_fresh_token_usable(t: Token, now: Timestamp)
    requires
        t.obtained_at == Some(now),
    ensures
        token_expired_at(t, Some(now)) <==> t.expires_in < EXPIRY_MARGIN_SECS,
{
}

/// Once a token has expired, it stays expired as the clock moves forward
/// (for clock readings not before the moment it was obtained).
pub proof fn lemma_expiry_is_monotone(t: Token, n1: Timestamp, n2: Timestamp)
    requires
        nanos_since_epoch(obtained_or_epoch(t)) <= nanos_since_epoch(n1) <= nanos_since_epoch(n2),
        token_expired_at(t, Some(n1)),
    ensures
        token_expired_at(t, Some(n2)),
{
    let at = obtained_or_epoch(t);
    vstd::arithmetic::div_mod::lemma_div_is_ordered(
        nanos_since_epoch(n1) - nanos_since_epoch(at),
        nanos_since_epoch(n2) - nanos_since_epoch(at),
        1_000_000_000,
    );
}

/// A clock that reads earlier than the moment a token was obtained makes the
/// token count as expired.
pub proof fn lemma_clock_behind_means_expired(t: Token, now: Timestamp)
    requires
        nanos_since_epoch(now) < nanos_since_epoch(obtained_or_epoch(t)),
    ensures
        token_expired_at(t, Some(now)),
{
}

/// What the saved token calls for, by its age: with the clock at `now` and
/// the token obtained at `at`, it is used as it is exactly when `now` is not
/// before `at` and its whole seconds of age plus 60 do not exceed its
/// lifetime; otherwise it is refreshed with its own refresh token, or a
/// login is needed when it has none.
pub proof fn lemma_step_by_age(t: Token, at: Timestamp, now: Timestamp)
    requires
        t.obtained_at == Some(at),
    ensures
        (token_step(Some(t), Some(now)) == Ok::<TokenStep, SpotifyError>(TokenStep::Use(t))) <==> (
        at.secs * 1_000_000_000 + at.nanos <= now.secs * 1_000_000_000 + now.nanos && ((
        now.secs * 1_000_000_000 + now.nanos) - (at.secs * 1_000_000_000 + at.nanos))
            / 1_000_000_000 + 60 <= t.expires_in),
        !(at.secs * 1_000_000_000 + at.nanos <= now.secs * 1_000_000_000 + now.nanos && ((
        now.secs * 1_000_000_000 + now.nanos) - (at.secs * 1_000_000_000 + at.nanos))
            / 1_000_000_000 + 60 <= t.expires_in) ==> token_step(Some(t), Some(now)) == (match t.refresh_token {
            Some(r) => Ok(TokenStep::Refresh(r)),
            None => Err(SpotifyError::NeedsLogin),
        }),
{
}

/// With no saved token, or a clock before the Unix epoch and no refresh
/// token, a login is needed.
pub proof fn lemma_step_needs_login(saved: Option<Token>)
    ensures
        token_step(None, None) == Err::<TokenStep, SpotifyError>(SpotifyError::NeedsLogin),
        saved matches Some(t) && t.refresh_token is None ==> token_step(saved, None) == Err::<
            TokenStep,
            SpotifyError,
        >(SpotifyError::NeedsLogin),
{
}

/// A token used for a request is never one that counts as expired, and a
/// refresh is asked for only with the expired token's own refresh token.
pub proof fn lemma_plan_never_uses_expired(saved: Option<Token>, now: Option<Timestamp>)
    ensures
        token_step(saved, now) matches Ok(TokenStep::Use(t)) ==> (saved == Some(t)
            && !token_expired_at(t, now)),
        token_step(saved, now) matches Ok(TokenStep::Refresh(r)) ==> (saved matches Some(t)
            && token_expired_at(t, now) && t.refresh_token == Some(r)),
{
}

} // verus!
