//! The request gates: the authentication gate admits a request that carries
//! a genuine, unexpired access token; the admin gate also asks that its
//! role be administrator.

use vstd::prelude::*;
use crate::claims::current_timestamp;
use crate::config::AccessToken;
use crate::error::AuthError;
use crate::role::Role;
use crate::session::Principal;
use crate::text::same_text;
use crate::token::access_reading;

verus! {

/// The token in an authorization header: the text after a leading
/// `Bearer `, or the whole value where it has no such prefix.
pub open spec fn bearer_token(h: Seq<char>) -> Seq<char> {
    if h.len() >= 7 && h.subrange(0, 7) == "Bearer "@ {
        h.subrange(7, h.len() as int)
    } else {
        h
    }
}

/// What the authentication gate decides for a header value at time `now`.
pub open spec fn auth_verdict(header: Option<Seq<char>>, key: AccessToken, now: i64) -> Result<
    Principal,
    AuthError,
> {
    match header {
        None => Err(AuthError::Unauthenticated),
        Some(h) => match access_reading(bearer_token(h), key, now) {
            Ok(c) => Ok(Principal { identity: c.sub, role: c.role }),
            Err(e) => Err(e),
        },
    }
}

/// What the admin gate decides: the authentication gate's answer, narrowed
/// to administrators.
pub open spec fn admin_verdict(header: Option<Seq<char>>, key: AccessToken, now: i64) -> Result<
    Principal,
    AuthError,
> {
    match auth_verdict(header, key, now) {
        Ok(p) => if p.role == Role::Admin {
            Ok(p)
        } else {
            Err(AuthError::Forbidden)
        },
        Err(e) => Err(e),
    }
}

pub open spec fn header_view(header: Option<&str>) -> Option<Seq<char>> {
    match header {
        Some(h) => Some(h@),
        None => None,
    }
}

/// Takes the token out of an authorization header value.
pub fn extract_token(h: &str) -> (r: &str)
    ensures
        r@ == bearer_token(h@),
{
    let n = h.unicode_len();
    if n >= 7 && same_text(h.substring_char(0, 7), "Bearer ") {
        h.substring_char(7, n)
    } else {
        h
    }
}

/// The authentication gate at time `now`: a missing, garbled or forged token
/// is unauthenticated, an expired one expired; otherwise the principal.
pub fn authenticate(header: Option<&str>, key: &AccessToken, now: i64) -> (r: Result<
    Principal,
    AuthError,
>)
    ensures
        r == auth_verdict(header_view(header), *key, now),
{
    match header {
        None => Err(AuthError::Unauthenticated),
        Some(h) => match crate::claims::ClaimsAccessToken::decode(extract_token(h), key, now) {
            Ok(c) => Ok(Principal { identity: c.sub, role: c.role }),
            Err(e) => Err(e),
        },
    }
}

/// Admits an authenticated principal to an admin-only route.
pub fn require_admin(p: Principal) -> (r: Result<Principal, AuthError>)
    ensures
        r == (if p.role == Role::Admin {
            Ok(p)
        } else {
            Err(AuthError::Forbidden)
        }),
{
    match p.role {
        Role::Admin => Ok(p),
        Role::User => Err(AuthError::Forbidden),
    }
}

/// The admin gate at time `now`.
pub fn authorize_admin(header: Option<&str>, key: &AccessToken, now: i64) -> (r: Result<
    Principal,
    AuthError,
>)
    ensures
        r == admin_verdict(header_view(header), *key, now),
{
    let p = authenticate(header, key, now)?;
    require_admin(p)
}

/// The authentication gate, at the current time.
pub fn auth_gate(header: Option<&str>, key: &AccessToken) -> (r: Result<Principal, AuthError>)
    ensures
        exists|now: i64| 0 <= now && r == auth_verdict(header_view(header), *key, now),
{
    let now = current_timestamp();
    authenticate(header, key, now)
}

/// The admin gate, at the current time.
pub fn admin_gate(header: Option<&str>, key: &AccessToken) -> (r: Result<Principal, AuthError>)
    ensures
        exists|now: i64| 0 <= now && r == admin_verdict(header_view(header), *key, now),
{
    let now = current_timestamp();
    authorize_admin(header, key, now)
}

/// The admin gate admits only what the authentication gate admits, and
/// only administrators; a genuine token of a plain user is forbidden.
pub proof fn lemma_admin_gate_within_auth_gate(
    header: Option<Seq<char>>,
    key: AccessToken,
    now: i64,
)
    ensures
        admin_verdict(header, key, now) matches Ok(p) ==> auth_verdict(header, key, now) == Ok::<
            Principal,
            AuthError,
        >(p) && p.role == Role::Admin,
        auth_verdict(header, key, now) is Err ==> admin_verdict(header, key, now)
            == auth_verdict(header, key, now),
        auth_verdict(header, key, now) matches Ok(p) && p.role == Role::User ==> admin_verdict(
            header,
            key,
            now,
        ) == Err::<Principal, AuthError>(AuthError::Forbidden),
{
}

/// A header `Bearer <t>` is read as the token `t`.
pub proof fn lemma_bearer_header(t: Seq<char>)
    ensures
        bearer_token("Bearer "@ + t) == t,
{
    reveal_strlit("Bearer ");
    let h = "Bearer "@ + t;
    assert(h.subrange(0, 7) =~= "Bearer "@);
    assert(h.subrange(7, h.len() as int) =~= t);
}

/// On a request whose header is `Bearer <t>`: a genuine unexpired token of
/// an administrator passes the admin gate, one of a plain user is
/// forbidden there and passes the authentication gate, and an expired or
/// unverifiable token is turned away by both gates with the decoder's error.
pub proof fn lemma_gates_on_bearer_token(t: Seq<char>, key: AccessToken, now: i64)
    ensures
        access_reading(t, key, now) matches Ok(c) ==> {
            &&& auth_verdict(Some("Bearer "@ + t), key, now) == Ok::<Principal, AuthError>(
                Principal { identity: c.sub, role: c.role },
            )
            &&& c.role == Role::Admin ==> admin_verdict(Some("Bearer "@ + t), key, now) == Ok::<
                Principal,
                AuthError,
            >(Principal { identity: c.sub, role: c.role })
            &&& c.role == Role::User ==> admin_verdict(Some("Bearer "@ + t), key, now) == Err::<
                Principal,
                AuthError,
            >(AuthError::Forbidden)
        },
        access_reading(t, key, now) matches Err(e) ==> auth_verdict(Some("Bearer "@ + t), key, now)
            == Err::<Principal, AuthError>(e) && admin_verdict(Some("Bearer "@ + t), key, now)
            == Err::<Principal, AuthError>(e),
{
    lemma_bearer_header(t);
}

} // verus!
