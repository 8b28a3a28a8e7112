//! Authentication logic that does not touch the token wire format: claim
//! construction, refresh-token checks, and password hashing through
//! bcrypt.

use crate::error::AppError;
use crate::error::AppResult;
use crate::text::starts_with;
use crate::text::str_equal;
use crate::text::str_starts_with;
use crate::text::strip_prefix_all;
use crate::text::strip_prefix_repeated;
use vstd::prelude::*;
use vstd::string::StringExecFns;

verus! {

/// The claims carried by an access or refresh token.
#[derive(Clone, Debug)]
pub struct Claims {
    /// Subject: the user's identifier.
    pub sub: u128,
    /// Current organization, if any.
    pub org: Option<u128>,
    /// The user's role, or `refresh` for refresh tokens.
    pub role: String,
    /// Issued-at, Unix epoch seconds.
    pub iat: i64,
    /// Expiry, Unix epoch seconds.
    pub exp: i64,
}

/// Issues and checks token claims; durations are in seconds.
#[derive(Clone, Debug)]
pub struct JwtService {
    pub secret: String,
    pub access_token_duration: i64,
    pub refresh_token_duration: i64,
}

impl JwtService {
    /// A new service with the given signing secret and token lifetimes.
    pub fn new(secret: &str, access_token_duration: i64, refresh_token_duration: i64) -> (r:
        JwtService)
        requires
            access_token_duration >= 0,
            refresh_token_duration >= 0,
        ensures
            r.secret@ == secret@,
            r.access_token_duration == access_token_duration,
            r.refresh_token_duration == refresh_token_duration,
    {
        JwtService { secret: secret.to_owned(), access_token_duration, refresh_token_duration }
    }

    /// Claims of an access token issued at `now`.
    pub fn access_claims(&self, user_id: u128, org_id: Option<u128>, role: &str, now: i64) -> (r:
        Claims)
        requires
            now <= i64::MAX - self.access_token_duration,
            self.access_token_duration >= 0,
        ensures
            r.sub == user_id,
            r.org == org_id,
            r.role@ == role@,
            r.iat == now,
            r.exp == now + self.access_token_duration,
    {
        Claims {
            sub: user_id,
            org: org_id,
            role: role.to_owned(),
            iat: now,
            exp: now + self.access_token_duration,
        }
    }

    /// Claims of a refresh token issued at `now`: the role is `refresh`
    /// and no organization is carried.
    pub fn refresh_claims(&self, user_id: u128, now: i64) -> (r: Claims)
        requires
            now <= i64::MAX - self.refresh_token_duration,
            self.refresh_token_duration >= 0,
        ensures
            r.sub == user_id,
            r.org is None,
            r.role@ == "refresh"@,
            r.iat == now,
            r.exp == now + self.refresh_token_duration,
    {
        Claims {
            sub: user_id,
            org: None,
            role: String::from_str("refresh"),
            iat: now,
            exp: now + self.refresh_token_duration,
        }
    }
}

impl Claims {
    /// Whether these are refresh-token claims.
    pub fn is_refresh(&self) -> (r: bool)
        ensures
            r == (self.role@ == "refresh"@),
    {
        str_equal(self.role.as_str(), "refresh")
    }
}

/// Check decoded claims against the stored refresh token: the claims must
/// carry the `refresh` role and the stored token must belong to the same
/// user. Exactly the failing check's error is returned.
pub fn validate_refresh_claims(claims: &Claims, stored_user_id: u128) -> (r: AppResult<()>)
    ensures
        r is Ok <==> (claims.role@ == "refresh"@ && stored_user_id == claims.sub),
        claims.role@ != "refresh"@ ==> (r matches Err(e) && e matches AppError::Auth(m) && m@
            == "Invalid refresh token"@),
        (claims.role@ == "refresh"@ && stored_user_id != claims.sub) ==> (r matches Err(e)
            && e matches AppError::Auth(m) && m@ == "Token mismatch"@),
{
    if !claims.is_refresh() {
        Err(AppError::auth("Invalid refresh token"))
    } else if stored_user_id != claims.sub {
        Err(AppError::auth("Token mismatch"))
    } else {
        Ok(())
    }
}

/// The token carried by an `Authorization` header: the part after the
/// `Bearer ` marker, with any repetition of the marker removed; `None`
/// when the header does not start with the marker.
pub fn bearer_token(header: &str) -> (r: Option<String>)
    ensures
        match r {
            Some(t) => starts_with(header@, "Bearer "@) && t@ == strip_prefix_all(
                header@,
                "Bearer "@,
            ),
            None => !starts_with(header@, "Bearer "@),
        },
{
    proof {
        reveal_strlit("Bearer ");
    }
    if str_starts_with(header, "Bearer ") {
        Some(strip_prefix_repeated(header, "Bearer "))
    } else {
        None
    }
}

/// Whether bcrypt accepts `password` against the bcrypt hash string
/// `hash`; the outcome depends on the two inputs alone.
pub uninterp spec fn bcrypt_verifies(password: Seq<char>, hash: Seq<char>) -> bool;

/// Relies on bcrypt::hash: it fails when the cost lies outside 4..=31 or
/// the OS randomness source fails, and a hash it returns verifies the
/// password it was made from.
#[verifier::external_body]
fn bcrypt_hash(password: &str, cost: u32) -> (r: Result<String, String>)
    ensures
        r matches Ok(h) ==> bcrypt_verifies(password@, h@),
        !(4 <= cost <= 31) ==> r is Err,
{
    bcrypt::hash(password, cost).map_err(|e| e.to_string())
}

/// Relies on bcrypt::verify: deterministic in the password and hash; it
/// fails when the hash string is not a well-formed bcrypt hash.
#[verifier::external_body]
fn bcrypt_check(password: &str, hash: &str) -> (r: Result<bool, String>)
    ensures
        r matches Ok(b) ==> b == bcrypt_verifies(password@, hash@),
{
    bcrypt::verify(password, hash).map_err(|e| e.to_string())
}

/// The bcrypt cost used for `rounds`: the crate default of 12 when zero.
pub open spec fn spec_bcrypt_cost(rounds: u32) -> u32 {
    if rounds == 0 {
        12
    } else {
        rounds
    }
}

/// Hash a password with bcrypt at the given cost (the default cost when
/// `rounds` is zero). A returned hash verifies the password; a cost
/// outside 4..=31 is an error.
pub fn hash_password(password: &str, rounds: u32) -> (r: AppResult<String>)
    ensures
        r matches Ok(h) ==> bcrypt_verifies(password@, h@),
        !(4 <= spec_bcrypt_cost(rounds) <= 31) ==> r is Err,
        r matches Err(e) ==> (e matches AppError::Internal(m) && m@
            == "Failed to hash password"@),
{
    let cost = if rounds == 0 {
        12
    } else {
        rounds
    };
    match bcrypt_hash(password, cost) {
        Ok(h) => Ok(h),
        Err(_) => Err(AppError::internal("Failed to hash password")),
    }
}

/// Verify a password against a bcrypt hash; a malformed hash is an error.
pub fn verify_password(password: &str, hash: &str) -> (r: AppResult<bool>)
    ensures
        r matches Ok(b) ==> b == bcrypt_verifies(password@, hash@),
        r matches Err(e) ==> (e matches AppError::Internal(m) && m@
            == "Failed to verify password"@),
{
    match bcrypt_check(password, hash) {
        Ok(b) => Ok(b),
        Err(_) => Err(AppError::internal("Failed to verify password")),
    }
}

} // verus!
