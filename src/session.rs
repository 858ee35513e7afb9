//! Login: checks the credentials, resolves the role from the stored record,
//! mints access and refresh claims, and signs each with its own secret.

use vstd::prelude::*;
use crate::claims::{ClaimsAccessToken, ClaimsRefreshToken, ACCESS_TTL_SECS, REFRESH_TTL_SECS};
use crate::config::{AccessToken, RefreshToken};
use crate::error::AuthError;
use crate::password::{hashed_with, password_check, verify_password};
use crate::role::Role;
use crate::token::{access_secret, refresh_secret, token_carries};

verus! {

/// The body of a login request.
pub struct UserLogin {
    pub email: String,
    pub passwd: String,
}

/// A stored credential record: the identity, its password hash and its role.
pub struct UserLoginUuid {
    pub usid: u128,
    pub passwd: String,
    pub role: Role,
}

/// An authenticated identity and its role.
#[derive(Clone, Copy, Debug, PartialEq, Eq, Structural)]
pub struct Principal {
    pub identity: u128,
    pub role: Role,
}

/// What the store answered when asked for the record of an identifier.
pub enum Lookup {
    Found(UserLoginUuid),
    Missing,
    Failed,
}

/// A successful login: both signed tokens and the claims they carry.
pub struct Session {
    pub access_token: String,
    pub refresh_token: String,
    pub access: ClaimsAccessToken,
    pub refresh: ClaimsRefreshToken,
}

/// Rejects a login request with an empty identifier or secret, before any
/// store is consulted.
pub fn check_login_input(req: &UserLogin) -> (r: Result<(), AuthError>)
    ensures
        r == (if req.email@.len() == 0 || req.passwd@.len() == 0 {
            Err(AuthError::BadRequest)
        } else {
            Ok(())
        }),
{
    if req.passwd.as_str().is_empty() || req.email.as_str().is_empty() {
        Err(AuthError::BadRequest)
    } else {
        Ok(())
    }
}

/// The role of a principal comes from its stored record, never from the client.
pub fn resolve_role(record: &UserLoginUuid) -> (r: Role)
    ensures
        r == record.role,
{
    record.role
}

pub open spec fn admission(lookup: Lookup, verdict: Result<bool, AuthError>) -> Result<
    Principal,
    AuthError,
> {
    match lookup {
        Lookup::Missing => Err(AuthError::InvalidCredentials),
        Lookup::Failed => Err(AuthError::Internal),
        Lookup::Found(rec) => match verdict {
            Ok(true) => Ok(Principal { identity: rec.usid, role: rec.role }),
            Ok(false) => Err(AuthError::InvalidCredentials),
            Err(_) => Err(AuthError::Internal),
        },
    }
}

/// Decides a login from the store's answer and the password check: an
/// unknown identifier and a wrong secret give the same error.
pub fn decide_login(lookup: &Lookup, verdict: Result<bool, AuthError>) -> (r: Result<
    Principal,
    AuthError,
>)
    ensures
        r == admission(*lookup, verdict),
{
    match lookup {
        Lookup::Missing => Err(AuthError::InvalidCredentials),
        Lookup::Failed => Err(AuthError::Internal),
        Lookup::Found(rec) => match verdict {
            Ok(true) => Ok(Principal { identity: rec.usid, role: resolve_role(rec) }),
            Ok(false) => Err(AuthError::InvalidCredentials),
            Err(_) => Err(AuthError::Internal),
        },
    }
}

/// The password check that login makes for a request and a store answer.
pub open spec fn login_verdict(req: UserLogin, lookup: Lookup) -> Result<bool, AuthError> {
    match lookup {
        Lookup::Found(rec) => password_check(req.passwd@, rec.passwd@),
        _ => Ok(false),
    }
}

/// Mints and signs the tokens of an admitted principal.
pub fn issue_session(p: Principal, access_key: &AccessToken, refresh_key: &RefreshToken) -> (r:
    Result<Session, AuthError>)
    ensures
        r matches Ok(s) ==> {
            &&& s.access.sub == p.identity && s.access.role == p.role
            &&& s.access.exp == s.access.iat + ACCESS_TTL_SECS
            &&& s.refresh.sub == p.identity && s.refresh.role == p.role
            &&& s.refresh.exp == s.refresh.iat + REFRESH_TTL_SECS
            &&& token_carries(
                s.access_token@,
                access_secret(*access_key),
                s.access.sub,
                s.access.exp,
                s.access.iat,
                s.access.role,
            )
            &&& token_carries(
                s.refresh_token@,
                refresh_secret(*refresh_key),
                s.refresh.sub,
                s.refresh.exp,
                s.refresh.iat,
                s.refresh.role,
            )
        },
        r is Ok,
{
    let access = ClaimsAccessToken::new(p.identity, p.role);
    let refresh = ClaimsRefreshToken::new(p.identity, p.role);
    let access_token = access.encode(access_key)?;
    let refresh_token = refresh.encode(refresh_key)?;
    Ok(Session { access_token, refresh_token, access, refresh })
}

/// Logs a user in, given the request and the store's answer for its
/// identifier. Empty fields are a bad request; an unknown identifier and a
/// wrong secret are the same invalid-credentials error; a store failure or a
/// corrupt stored hash is internal. Once the credentials verify, login
/// succeeds, and the tokens carry the record's identity and role.
pub fn login(
    req: &UserLogin,
    lookup: &Lookup,
    access_key: &AccessToken,
    refresh_key: &RefreshToken,
) -> (r: Result<Session, AuthError>)
    ensures
        (req.email@.len() == 0 || req.passwd@.len() == 0) ==> r == Err::<Session, AuthError>(
            AuthError::BadRequest,
        ),
        (req.email@.len() > 0 && req.passwd@.len() > 0) ==> match admission(
            *lookup,
            login_verdict(*req, *lookup),
        ) {
            Err(e) => r matches Err(f) && f == e,
            Ok(p) => match r {
                Err(_) => false,
                Ok(s) => {
                    &&& s.access.sub == p.identity && s.access.role == p.role
                    &&& s.access.exp == s.access.iat + ACCESS_TTL_SECS
                    &&& s.refresh.sub == p.identity && s.refresh.role == p.role
                    &&& s.refresh.exp == s.refresh.iat + REFRESH_TTL_SECS
                    &&& token_carries(
                        s.access_token@,
                        access_secret(*access_key),
                        s.access.sub,
                        s.access.exp,
                        s.access.iat,
                        s.access.role,
                    )
                    &&& token_carries(
                        s.refresh_token@,
                        refresh_secret(*refresh_key),
                        s.refresh.sub,
                        s.refresh.exp,
                        s.refresh.iat,
                        s.refresh.role,
                    )
                },
            },
        },
{
    check_login_input(req)?;
    let verdict = match lookup {
        Lookup::Found(rec) => verify_password(req.passwd.as_str(), rec.passwd.as_str()),
        _ => Ok(false),
    };
    let p = decide_login(lookup, verdict)?;
    issue_session(p, access_key, refresh_key)
}

/// A record whose stored hash was made from the very secret presented
/// admits that login, with the record's identity and role.
pub proof fn lemma_registered_secret_admitted(req: UserLogin, rec: UserLoginUuid, salt: Seq<char>)
    requires
        hashed_with(req.passwd@, salt, rec.passwd@),
    ensures
        admission(Lookup::Found(rec), login_verdict(req, Lookup::Found(rec))) == Ok::<
            Principal,
            AuthError,
        >(Principal { identity: rec.usid, role: rec.role }),
{
}

/// Where the stored hash does not match the secret presented, the login is
/// refused exactly as it is for an unknown identifier.
pub proof fn lemma_wrong_secret_like_unknown(req: UserLogin, rec: UserLoginUuid)
    requires
        password_check(req.passwd@, rec.passwd@) == Ok::<bool, AuthError>(false),
    ensures
        admission(Lookup::Found(rec), login_verdict(req, Lookup::Found(rec))) == admission(
            Lookup::Missing,
            login_verdict(req, Lookup::Missing),
        ),
        admission(Lookup::Missing, login_verdict(req, Lookup::Missing)) == Err::<
            Principal,
            AuthError,
        >(AuthError::InvalidCredentials),
{
}

/// The cookie that carries the refresh token: scoped to the login path and
/// the service's domain, sent only over TLS and hidden from scripts.
pub struct RefreshCookie {
    pub name: String,
    pub value: String,
    pub domain: String,
    pub path: String,
    pub secure: bool,
    pub http_only: bool,
}

/// The refresh-token cookie for a token, for the service's configured domain.
pub fn refresh_cookie(token: String, domain: String) -> (r: RefreshCookie)
    ensures
        r.value@ == token@,
        r.domain@ == domain@,
        r.name@ == "Refresh Token"@,
        r.path@ == "/api/v1/users/login"@,
        r.secure,
        r.http_only,
{
    RefreshCookie {
        name: "Refresh Token".to_owned(),
        value: token,
        domain,
        path: "/api/v1/users/login".to_owned(),
        secure: true,
        http_only: true,
    }
}

} // verus!
