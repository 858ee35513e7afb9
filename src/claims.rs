//! The claims carried by access and refresh tokens.

use vstd::prelude::*;
use crate::role::Role;

verus! {

/// Lifetime of an access token: 24 hours.
pub const ACCESS_TTL_SECS: i64 = 86400;

/// Lifetime of a refresh token: 72 hours.
pub const REFRESH_TTL_SECS: i64 = 259200;

/// Relies on `chrono::Utc::now` and `DateTime::timestamp`: seconds since the
/// Unix epoch. `Utc::now` panics before the epoch and beyond chrono's last
/// representable year, so a returned value lies in that range.
#[verifier::external_body]
pub(crate) fn current_timestamp() -> (r: i64)
    ensures
        0 <= r <= 9_000_000_000_000,
{
    chrono::Utc::now().timestamp()
}

/// Claims of a short-lived access token.
#[derive(Clone, Copy, Debug, PartialEq, Eq, Structural)]
pub struct ClaimsAccessToken {
    pub sub: u128,
    pub exp: i64,
    pub iat: i64,
    pub role: Role,
}

/// Claims of a longer-lived refresh token.
#[derive(Clone, Copy, Debug, PartialEq, Eq, Structural)]
pub struct ClaimsRefreshToken {
    pub sub: u128,
    pub exp: i64,
    pub iat: i64,
    pub role: Role,
}

impl ClaimsAccessToken {
    /// Access claims issued at `now` (seconds since the epoch).
    pub fn issued_at(id: u128, role: Role, now: i64) -> (r: Self)
        requires
            now <= i64::MAX - ACCESS_TTL_SECS,
        ensures
            r == (ClaimsAccessToken { sub: id, exp: (now + ACCESS_TTL_SECS) as i64, iat: now, role }),
    {
        ClaimsAccessToken { sub: id, exp: now + ACCESS_TTL_SECS, iat: now, role }
    }

    /// Access claims issued now.
    pub fn new(id: u128, role: Role) -> (r: Self)
        ensures
            r.sub == id,
            r.role == role,
            r.iat >= 0,
            r.exp == r.iat + ACCESS_TTL_SECS,
    {
        Self::issued_at(id, role, current_timestamp())
    }
}

impl ClaimsRefreshToken {
    /// Refresh claims issued at `now` (seconds since the epoch).
    pub fn issued_at(id: u128, role: Role, now: i64) -> (r: Self)
        requires
            now <= i64::MAX - REFRESH_TTL_SECS,
        ensures
            r == (ClaimsRefreshToken { sub: id, exp: (now + REFRESH_TTL_SECS) as i64, iat: now, role }),
    {
        ClaimsRefreshToken { sub: id, exp: now + REFRESH_TTL_SECS, iat: now, role }
    }

    /// Refresh claims issued now.
    pub fn new(id: u128, role: Role) -> (r: Self)
        ensures
            r.sub == id,
            r.role == role,
            r.iat >= 0,
            r.exp == r.iat + REFRESH_TTL_SECS,
    {
        Self::issued_at(id, role, current_timestamp())
    }
}

} // verus!
