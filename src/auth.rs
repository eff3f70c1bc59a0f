//! Authentication: the claims of an access token, reading the bearer token
//! of a request, and the rules that a new password follows.

use vstd::prelude::*;
use vstd::string::StringSliceAdditionalSpecFns;
use crate::text::same_text;

verus! {

/// How long an access token stays valid, in seconds (thirty days).
pub const TOKEN_LIFETIME_SECS: i64 = 2592000;

/// The claims of an access token: its user, its expiry, and the moment from
/// which it is valid, both in seconds since the Unix epoch.
#[derive(Debug, Clone, Copy, PartialEq, Eq, Structural)]
pub struct JWTClaims {
    pub sub: u64,
    pub exp: usize,
    pub nbf: usize,
}

/// A login attempt.
#[derive(Debug)]
pub struct LoginRequest {
    pub username: String,
    pub password: String,
}

/// A registration.
#[derive(Debug)]
pub struct RegisterRequest {
    pub first_name: String,
    pub last_name: String,
    pub email: String,
    pub username: String,
    pub password: String,
    pub password_confirm: String,
}

/// The answer to a login or a registration.
#[derive(Debug)]
pub struct AuthResponse {
    pub token: String,
}

/// The guard that admits only requests with a valid bearer token.
#[derive(Debug, Clone, Copy)]
pub struct Authentication;

/// The guard wrapped around the service it protects.
#[derive(Debug)]
pub struct AuthenticationMiddleware<S> {
    pub service: S,
}

/// The claims of a token issued at `now` (seconds since the Unix epoch) for
/// `user_id`: valid from `now`, for thirty days.
pub fn token_claims(user_id: u64, now: i64) -> (r: JWTClaims)
    requires
        now + TOKEN_LIFETIME_SECS <= i64::MAX,
    ensures
        r.sub == user_id,
        r.exp == (now + TOKEN_LIFETIME_SECS) as usize,
        r.nbf == now as usize,
{
    let expiry: i64 = now + TOKEN_LIFETIME_SECS;
    JWTClaims { sub: user_id, exp: expiry as usize, nbf: now as usize }
}

/// Whether `header` is an `Authorization` value with the bearer scheme.
pub open spec fn is_bearer(header: Seq<char>) -> bool {
    header.len() >= 7 && header.take(7) == "Bearer "@
}

/// The token of an `Authorization` header of the form `Bearer <token>`.
pub fn bearer_token(header: &str) -> (r: Option<String>)
    ensures
        r is Some <==> is_bearer(header@),
        r matches Some(t) ==> t@ == header@.skip(7),
{
    let n = header.unicode_len();
    if n < 7 {
        return None;
    }
    if same_text(header.substring_char(0, 7), "Bearer ") {
        Some(header.substring_char(7, n).to_owned())
    } else {
        None
    }
}

/// Why a password is refused.
#[derive(Debug, Clone, Copy, PartialEq, Eq, Structural)]
pub enum PasswordError {
    /// Fewer than eight bytes.
    TooShort,
    /// Not both upper and lower case letters.
    SingleCase,
    /// No decimal digit.
    NoDigit,
}

impl PasswordError {
    /// The message shown for this refusal.
    pub fn message(&self) -> (r: &'static str)
        ensures
            *self == PasswordError::TooShort ==> r@ == "length is lower than 8"@,
            *self == PasswordError::SingleCase ==> r@
                == "does not contain both upper and lower case letters"@,
            *self == PasswordError::NoDigit ==> r@ == "does not contain a digit"@,
    {
        match self {
            PasswordError::TooShort => "length is lower than 8",
            PasswordError::SingleCase => "does not contain both upper and lower case letters",
            PasswordError::NoDigit => "does not contain a digit",
        }
    }
}

/// The lower-case form of a text, as `str::to_lowercase` gives it.
pub uninterp spec fn lower_of(s: Seq<char>) -> Seq<char>;

/// The upper-case form of a text, as `str::to_uppercase` gives it.
pub uninterp spec fn upper_of(s: Seq<char>) -> Seq<char>;

/// Relies on `str::to_lowercase`: its result depends on the text alone.
#[verifier::external_body]
fn lowercase(s: &str) -> (r: String)
    ensures
        r@ == lower_of(s@),
{
    s.to_lowercase()
}

/// Relies on `str::to_uppercase`: its result depends on the text alone.
#[verifier::external_body]
fn uppercase(s: &str) -> (r: String)
    ensures
        r@ == upper_of(s@),
{
    s.to_uppercase()
}

/// Whether `s` holds a decimal digit.
pub open spec fn has_digit(s: Seq<char>) -> bool {
    exists|i: int| 0 <= i < s.len() && '0' <= #[trigger] s[i] <= '9'
}

/// The verdict on a password of `byte_len` bytes, given its lower- and
/// upper-case forms; the checks run in this order.
pub open spec fn password_verdict(
    byte_len: nat,
    password: Seq<char>,
    lower: Seq<char>,
    upper: Seq<char>,
) -> Result<(), PasswordError> {
    if byte_len < 8 {
        Err(PasswordError::TooShort)
    } else if lower == password || upper == password {
        Err(PasswordError::SingleCase)
    } else if !has_digit(password) {
        Err(PasswordError::NoDigit)
    } else {
        Ok(())
    }
}

/// Judges `password`, given its lower- and upper-case forms.
pub fn check_password(password: &str, lower: &str, upper: &str) -> (r: Result<(), PasswordError>)
    ensures
        r == password_verdict(password.spec_bytes().len(), password@, lower@, upper@),
{
    if password.as_bytes().len() < 8 {
        return Err(PasswordError::TooShort);
    }
    if same_text(lower, password) || same_text(upper, password) {
        return Err(PasswordError::SingleCase);
    }
    let n = password.unicode_len();
    let mut i: usize = 0;
    while i < n
        invariant
            n == password@.len(),
            i <= n,
            password.spec_bytes().len() >= 8,
            lower@ != password@,
            upper@ != password@,
            forall|j: int| 0 <= j < i ==> !('0' <= #[trigger] password@[j] <= '9'),
        decreases n - i,
    {
        let c = password.get_char(i);
        if '0' <= c && c <= '9' {
            assert('0' <= password@[i as int] <= '9');
            assert(has_digit(password@));
            return Ok(());
        }
        i = i + 1;
    }
    Err(PasswordError::NoDigit)
}

/// Judges a new password: at least eight bytes, both upper and lower case
/// letters, and a decimal digit.
pub fn validate_password(password: &str) -> (r: Result<(), PasswordError>)
    ensures
        r == password_verdict(
            password.spec_bytes().len(),
            password@,
            lower_of(password@),
            upper_of(password@),
        ),
{
    let lower = lowercase(password);
    let upper = uppercase(password);
    check_password(password, lower.as_str(), upper.as_str())
}

} // verus!
