//! The token entity: a bearer secret and the instant at which it expires.
use crate::error::Error;
use crate::json::{json_number_member, json_str_member, json_text_member, json_u64_member};
use crate::secret::{clone_secret, expose, new_secret, secret_text, SecretText};
use vstd::prelude::*;

verus! {

/// Seconds after which a token from a source that reports no expiry is taken to
/// expire. This is what the command-line tool has been seen to give in practice;
/// the tool does not promise it, so it is a best-effort assumption.
pub const DEFAULT_TOKEN_DURATION: u64 = 3600;

/// Nanoseconds in one second.
pub const NANOS_PER_SEC: u128 = 1_000_000_000;

/// The largest instant that a `Timestamp` can hold, in nanoseconds.
pub open spec fn max_instant() -> int {
    u128::MAX as int
}

/// The instant `secs` seconds after `t` (both in nanoseconds since the Unix
/// epoch), held at the largest representable instant where it would pass it.
pub open spec fn offset_by_secs(t: int, secs: int) -> int {
    if t + secs * NANOS_PER_SEC <= max_instant() {
        t + secs * NANOS_PER_SEC
    } else {
        max_instant()
    }
}

/// A wall-clock instant, in nanoseconds since the Unix epoch.
#[derive(Clone, Copy, Debug, PartialEq, Eq, Structural)]
pub struct Timestamp {
    pub nanos: u128,
}

impl Timestamp {
    pub fn from_nanos(nanos: u128) -> (r: Timestamp)
        ensures
            r.nanos == nanos,
    {
        Timestamp { nanos }
    }

    pub fn as_nanos(&self) -> (r: u128)
        ensures
            r == self.nanos,
    {
        self.nanos
    }

    /// The current wall-clock time.
    pub fn now() -> Timestamp {
        clock_now()
    }

    /// The instant `secs` seconds later.
    pub fn plus_secs(&self, secs: u64) -> (r: Timestamp)
        ensures
            r.nanos == offset_by_secs(self.nanos as int, secs as int),
    {
        let step: u128 = secs as u128 * NANOS_PER_SEC;
        if step <= u128::MAX - self.nanos {
            Timestamp { nanos: self.nanos + step }
        } else {
            Timestamp { nanos: u128::MAX }
        }
    }
}

/// Relies on `std::time::SystemTime::now`, read as the time since the Unix epoch
/// (a clock set before the epoch reads as the epoch). Nothing is promised of it.
#[verifier::external_body]
fn clock_now() -> (r: Timestamp) {
    let since = std::time::SystemTime::now().duration_since(std::time::UNIX_EPOCH);
    Timestamp { nanos: since.unwrap_or_default().as_nanos() }
}

/// What a token holds, as mathematical values.
pub struct TokenView {
    pub secret: Seq<char>,
    pub expires_at: int,
}

/// A bearer token: a secret, never shown by `Debug`, and the instant at which
/// it expires. It is never changed after it is built.
#[derive(Debug)]
pub struct Token {
    secret: SecretText,
    expires_at: Timestamp,
}

impl View for Token {
    type V = TokenView;

    closed spec fn view(&self) -> TokenView {
        TokenView { secret: secret_text(self.secret), expires_at: self.expires_at.nanos as int }
    }
}

impl Clone for Token {
    fn clone(&self) -> (r: Token)
        ensures
            r@ == self@,
    {
        Token { secret: clone_secret(&self.secret), expires_at: self.expires_at }
    }
}

impl Token {
    /// A token for a secret that came with no expiry, taken to expire
    /// `duration_secs` seconds after `now`.
    pub fn from_string_at(secret: SecretText, duration_secs: u64, now: Timestamp) -> (r:
        Token)
        ensures
            r@.secret == secret_text(secret),
            r@.expires_at == offset_by_secs(now.nanos as int, duration_secs as int),
    {
        Token { secret, expires_at: now.plus_secs(duration_secs) }
    }

    /// A token for a secret that came with no expiry, taken to expire
    /// `duration_secs` seconds from the current time.
    pub fn from_string(secret: SecretText, duration_secs: u64) -> (r: Token)
        ensures
            r@.secret == secret_text(secret),
            exists|t: Timestamp| #[trigger]
                offset_by_secs(t.nanos as int, duration_secs as int) == r@.expires_at,
    {
        let now = clock_now();
        let r = Token::from_string_at(secret, duration_secs, now);
        assert(offset_by_secs(now.nanos as int, duration_secs as int) == r@.expires_at);
        r
    }

    /// Whether the token has expired at the instant `now`.
    pub fn has_expired_at(&self, now: Timestamp) -> (r: bool)
        ensures
            r == (self@.expires_at <= now.nanos),
    {
        self.expires_at.nanos <= now.nanos
    }

    /// Whether the token has expired by the current time.
    pub fn has_expired(&self) -> (r: bool)
        ensures
            exists|t: Timestamp| r == (self@.expires_at <= #[trigger] t.nanos),
    {
        let now = clock_now();
        let r = self.has_expired_at(now);
        assert(r == (self@.expires_at <= now.nanos));
        r
    }

    pub fn expires_at(&self) -> (r: Timestamp)
        ensures
            r.nanos == self@.expires_at,
    {
        self.expires_at
    }

    /// The bearer value. Callers must not log it.
    pub fn secret(&self) -> (r: &str)
        ensures
            r@ == self@.secret,
    {
        expose(&self.secret)
    }

    /// A token from the fields of a structured payload: the access token and the
    /// number of seconds, counted from `now`, after which it expires. Both are
    /// required; a missing expiry is never replaced by a default.
    pub fn from_fields(access_token: Option<String>, expires_in: Option<u64>, now: Timestamp) -> (r:
        Result<Token, Error>)
        ensures
            (access_token is Some && expires_in is Some) <==> r is Ok,
            r is Err ==> r->Err_0 == Error::DeserializeFailed,
            r is Ok ==> r->Ok_0@.secret == access_token->Some_0@ && r->Ok_0@.expires_at
                == offset_by_secs(now.nanos as int, expires_in->Some_0 as int),
    {
        match (access_token, expires_in) {
            (Some(access), Some(secs)) => Ok(
                Token::from_string_at(new_secret(access), secs, now),
            ),
            _ => Err(Error::DeserializeFailed),
        }
    }
    /// A token from a JSON object with the members `access_token` (a string) and
    /// `expires_in` (whole seconds from `now`). Anything else, a missing expiry
    /// included, fails with `DeserializeFailed`.
    pub fn from_json_at(bytes: &[u8], now: Timestamp) -> (r: Result<Token, Error>)
        ensures
            match json_token(bytes@, now) {
                Some(t) => r is Ok && r->Ok_0@ == t,
                None => r == Err::<Token, Error>(Error::DeserializeFailed),
            },
    {
        let access_token = json_text_member(bytes, "access_token");
        let expires_in = json_number_member(bytes, "expires_in");
        Token::from_fields(access_token, expires_in, now)
    }

    /// A token from a JSON object, as `from_json_at` reads it at the current time.
    pub fn from_json(bytes: &[u8]) -> (r: Result<Token, Error>)
        ensures
            exists|t: Timestamp| #[trigger]
                json_token(bytes@, t) == match r {
                    Ok(token) => Some(token@),
                    Err(_) => None::<TokenView>,
                },
            r is Err ==> r->Err_0 == Error::DeserializeFailed,
    {
        let now = clock_now();
        let r = Token::from_json_at(bytes, now);
        assert(json_token(bytes@, now) == match r {
            Ok(token) => Some(token@),
            Err(_) => None::<TokenView>,
        });
        r
    }
}

/// The token that a JSON payload read at `now` gives: it needs a string member
/// `access_token` and a `u64` member `expires_in`, the seconds after `now` at
/// which the token expires.
pub open spec fn json_token(bytes: Seq<u8>, now: Timestamp) -> Option<TokenView> {
    match (json_str_member(bytes, "access_token"@), json_u64_member(bytes, "expires_in"@)) {
        (Some(secret), Some(secs)) => Some(
            TokenView { secret, expires_at: offset_by_secs(now.nanos as int, secs as int) },
        ),
        _ => None,
    }
}

/// A token built from a bare secret expires exactly `duration_secs` seconds after
/// the instant it was built, wherever that instant is representable.
pub proof fn lemma_expiry_is_build_time_plus_duration(now: Timestamp, duration_secs: u64)
    requires
        now.nanos + duration_secs * NANOS_PER_SEC <= max_instant(),
    ensures
        offset_by_secs(now.nanos as int, duration_secs as int) == now.nanos + duration_secs
            * NANOS_PER_SEC,
{
}

/// A token built from a bare secret for a positive duration has not expired at
/// the instant it was built, unless that instant is the last one a `Timestamp`
/// can hold.
pub proof fn lemma_fresh_token_unexpired(now: Timestamp, duration_secs: u64)
    requires
        duration_secs > 0,
        now.nanos < max_instant(),
    ensures
        !(offset_by_secs(now.nanos as int, duration_secs as int) <= now.nanos),
{
    assert(duration_secs * NANOS_PER_SEC >= NANOS_PER_SEC) by (nonlinear_arith)
        requires
            duration_secs > 0,
    ;
}

/// A JSON payload without a `u64` member `expires_in` gives no token: the expiry
/// of a parsed payload is never replaced by a default.
pub proof fn lemma_payload_without_expiry_gives_no_token(bytes: Seq<u8>, now: Timestamp)
    requires
        json_u64_member(bytes, "expires_in"@) is None,
    ensures
        json_token(bytes, now) is None,
{
}

} // verus!
