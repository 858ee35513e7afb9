//! Signed, expiring tokens: claims written as a JSON object of texts,
//! signed with HMAC-SHA256 by `jsonwebtoken`, and read back with the
//! signature checked before any claim is trusted.

use vstd::prelude::*;
use vstd::utf8::encode_utf8;
use crate::claims::{ClaimsAccessToken, ClaimsRefreshToken};
use crate::config::{AccessToken, RefreshToken};
use crate::decimal::{
    decimal_text, i64_text, lemma_i64_round_trip, lemma_u128_round_trip, parse_i64, parse_u128,
    parsed_i64, parsed_u128, u128_text,
};
use crate::error::AuthError;
use crate::role::{lemma_role_text_round_trip, role_named, role_text, Role};
use crate::text::same_text;

verus! {

#[verifier::external_type_specification]
#[verifier::external_body]
pub struct ExJwtError(jsonwebtoken::errors::Error);

/// The claims that `jsonwebtoken::decode` (HS256, no registered-claim checks)
/// finds in `token` under `secret`, in key order; `None` where the token is
/// malformed or its signature does not verify under `secret`.
pub uninterp spec fn jwt_claims(token: Seq<char>, secret: Seq<u8>) -> Option<
    Seq<(Seq<char>, Seq<char>)>,
>;

pub open spec fn pairs_view(v: Seq<(String, String)>) -> Seq<(Seq<char>, Seq<char>)> {
    v.map_values(|p: (String, String)| (p.0@, p.1@))
}

/// The value of the first claim named `key`.
pub open spec fn find_claim(pairs: Seq<(Seq<char>, Seq<char>)>, key: Seq<char>) -> Option<
    Seq<char>,
>
    decreases pairs.len(),
{
    if pairs.len() == 0 {
        None
    } else if pairs[0].0 == key {
        Some(pairs[0].1)
    } else {
        find_claim(pairs.drop_first(), key)
    }
}

/// No claim uses the names `exp` or `nbf`, which the decoder reads as
/// numbers of its own and would refuse as texts.
pub open spec fn no_numeric_names(pairs: Seq<(Seq<char>, Seq<char>)>) -> bool {
    forall|i: int| 0 <= i < pairs.len() ==> pairs[i].0 != "exp"@ && pairs[i].0 != "nbf"@
}

pub open spec fn distinct_keys(pairs: Seq<(Seq<char>, Seq<char>)>) -> bool {
    forall|i: int, j: int| 0 <= i < j < pairs.len() ==> pairs[i].0 != pairs[j].0
}

/// Relies on `jsonwebtoken::encode` with the default (HS256) header, which
/// writes the claims as a JSON object and signs header and payload: the
/// token it returns, decoded as `open_claims` does with the same secret,
/// yields the claims that were put in, each under its own name (so long as
/// the names differ and none is `exp` or `nbf`). With an HMAC key from
/// `from_secret` the call cannot fail: the key matches the header's
/// algorithm, a map of texts always serialises, and HMAC signing returns `Ok`.
#[verifier::external_body]
fn sign_claims(claims: &Vec<(String, String)>, secret: &[u8]) -> (r: Result<
    String,
    jsonwebtoken::errors::Error,
>)
    requires
        distinct_keys(pairs_view(claims@)),
        no_numeric_names(pairs_view(claims@)),
    ensures
        r is Ok,
        r matches Ok(t) ==> (jwt_claims(t@, secret@) matches Some(p) && forall|k: Seq<char>|
            find_claim(p, k) == find_claim(pairs_view(claims@), k)),
{
    let map: std::collections::BTreeMap<&str, &str> = claims.iter().map(
        |p| (p.0.as_str(), p.1.as_str()),
    ).collect();
    jsonwebtoken::encode(
        &jsonwebtoken::Header::default(),
        &map,
        &jsonwebtoken::EncodingKey::from_secret(secret),
    )
}

/// Relies on `jsonwebtoken::decode` into a map of texts, with HS256 as the
/// only algorithm and no registered claim required or checked (expiry is
/// checked by the caller): the map's entries in key order, or an error.
#[verifier::external_body]
fn open_claims(token: &str, secret: &[u8]) -> (r: Result<
    Vec<(String, String)>,
    jsonwebtoken::errors::Error,
>)
    ensures
        match r {
            Ok(v) => jwt_claims(token@, secret@) == Some(pairs_view(v@)),
            Err(_) => jwt_claims(token@, secret@) is None,
        },
{
    let mut validation = jsonwebtoken::Validation::new(jsonwebtoken::Algorithm::HS256);
    validation.validate_exp = false;
    validation.required_spec_claims.clear();
    let key = jsonwebtoken::DecodingKey::from_secret(secret);
    let data = jsonwebtoken::decode::<std::collections::BTreeMap<String, String>>(
        token,
        &key,
        &validation,
    )?;
    Ok(data.claims.into_iter().collect())
}

/// The claims as they are written into a token, by name.
pub open spec fn claim_pairs(sub: u128, exp: i64, iat: i64, role: Role) -> Seq<
    (Seq<char>, Seq<char>),
> {
    seq![
        ("expires_at"@, decimal_text(exp as int)),
        ("issued_at"@, decimal_text(iat as int)),
        ("role"@, role_text(role)),
        ("sub"@, decimal_text(sub as int)),
    ]
}

/// The four claim names differ, so each claim is found under its own name.
pub proof fn lemma_claim_pairs(sub: u128, exp: i64, iat: i64, role: Role)
    ensures
        distinct_keys(claim_pairs(sub, exp, iat, role)),
        no_numeric_names(claim_pairs(sub, exp, iat, role)),
        find_claim(claim_pairs(sub, exp, iat, role), "expires_at"@) == Some(
            decimal_text(exp as int),
        ),
        find_claim(claim_pairs(sub, exp, iat, role), "issued_at"@) == Some(
            decimal_text(iat as int),
        ),
        find_claim(claim_pairs(sub, exp, iat, role), "role"@) == Some(role_text(role)),
        find_claim(claim_pairs(sub, exp, iat, role), "sub"@) == Some(decimal_text(sub as int)),
{
    reveal_strlit("expires_at");
    reveal_strlit("issued_at");
    reveal_strlit("role");
    reveal_strlit("sub");
    reveal_strlit("exp");
    reveal_strlit("nbf");
    let p = claim_pairs(sub, exp, iat, role);
    assert(p[3].0[0] == 's' && "exp"@[0] == 'e' && "nbf"@[0] == 'n');
    assert(p[0].0.len() == 10 && p[1].0.len() == 9 && p[2].0.len() == 4 && p[3].0.len() == 3);
    let after_exp = p.drop_first();
    let after_iat = after_exp.drop_first();
    let after_role = after_iat.drop_first();
    assert(after_exp[0] == p[1] && after_iat[0] == p[2] && after_role[0] == p[3]);
    assert(find_claim(p, "issued_at"@) == find_claim(after_exp, "issued_at"@));
    assert(find_claim(p, "role"@) == find_claim(after_exp, "role"@));
    assert(find_claim(after_exp, "role"@) == find_claim(after_iat, "role"@));
    assert(find_claim(p, "sub"@) == find_claim(after_exp, "sub"@));
    assert(find_claim(after_exp, "sub"@) == find_claim(after_iat, "sub"@));
    assert(find_claim(after_iat, "sub"@) == find_claim(after_role, "sub"@));
}

/// `token` is signed under `secret` and carries exactly these claims.
pub open spec fn token_carries(
    token: Seq<char>,
    secret: Seq<u8>,
    sub: u128,
    exp: i64,
    iat: i64,
    role: Role,
) -> bool {
    jwt_claims(token, secret) matches Some(p) && forall|k: Seq<char>|
        find_claim(p, k) == find_claim(claim_pairs(sub, exp, iat, role), k)
}

/// What a verified set of claims says at time `now`: the claims, if each is
/// present and well formed and the token has not expired.
pub open spec fn claims_reading(pairs: Seq<(Seq<char>, Seq<char>)>, now: i64) -> Result<
    (u128, i64, i64, Role),
    AuthError,
> {
    let sub = find_claim(pairs, "sub"@);
    let exp = find_claim(pairs, "expires_at"@);
    let iat = find_claim(pairs, "issued_at"@);
    let role = find_claim(pairs, "role"@);
    if sub is Some && exp is Some && iat is Some && role is Some {
        let s = parsed_u128(sub.unwrap());
        let e = parsed_i64(exp.unwrap());
        let i = parsed_i64(iat.unwrap());
        let r = role_named(role.unwrap());
        if s is Some && e is Some && i is Some && r is Some {
            if now < e.unwrap() {
                Ok((s.unwrap(), e.unwrap(), i.unwrap(), r.unwrap()))
            } else {
                Err(AuthError::Expired)
            }
        } else {
            Err(AuthError::Unauthenticated)
        }
    } else {
        Err(AuthError::Unauthenticated)
    }
}

/// What decoding `token` under `secret` at time `now` gives: a forged or
/// garbled token is unauthenticated; a genuine one is read by its claims.
pub open spec fn token_reading(token: Seq<char>, secret: Seq<u8>, now: i64) -> Result<
    (u128, i64, i64, Role),
    AuthError,
> {
    match jwt_claims(token, secret) {
        None => Err(AuthError::Unauthenticated),
        Some(p) => claims_reading(p, now),
    }
}

fn lookup<'a>(pairs: &'a Vec<(String, String)>, key: &str) -> (r: Option<&'a String>)
    ensures
        match r {
            Some(v) => find_claim(pairs_view(pairs@), key@) == Some(v@),
            None => find_claim(pairs_view(pairs@), key@) is None,
        },
{
    let ghost pv = pairs_view(pairs@);
    let n = pairs.len();
    let mut i: usize = 0;
    assert(pv.subrange(0, n as int) =~= pv);
    while i < n
        invariant
            n == pairs@.len(),
            pv == pairs_view(pairs@),
            i <= n,
            find_claim(pv, key@) == find_claim(pv.subrange(i as int, n as int), key@),
        decreases n - i,
    {
        let ghost rest = pv.subrange(i as int, n as int);
        assert(rest.drop_first() =~= pv.subrange(i + 1, n as int));
        assert(rest[0] == (pairs@[i as int].0@, pairs@[i as int].1@));
        if same_text(pairs[i].0.as_str(), key) {
            return Some(&pairs[i].1);
        }
        i = i + 1;
    }
    assert(pv.subrange(n as int, n as int).len() == 0);
    None
}

/// Reads the claims that a verified token carries, at time `now`.
pub fn read_claims(pairs: &Vec<(String, String)>, now: i64) -> (r: Result<
    (u128, i64, i64, Role),
    AuthError,
>)
    ensures
        r == claims_reading(pairs_view(pairs@), now),
{
    let sub = match lookup(pairs, "sub") {
        Some(v) => v,
        None => return Err(AuthError::Unauthenticated),
    };
    let exp = match lookup(pairs, "expires_at") {
        Some(v) => v,
        None => return Err(AuthError::Unauthenticated),
    };
    let iat = match lookup(pairs, "issued_at") {
        Some(v) => v,
        None => return Err(AuthError::Unauthenticated),
    };
    let role = match lookup(pairs, "role") {
        Some(v) => v,
        None => return Err(AuthError::Unauthenticated),
    };
    let s = parse_u128(sub.as_str());
    let e = parse_i64(exp.as_str());
    let i = parse_i64(iat.as_str());
    let r = Role::from_claim(role.as_str());
    match (s, e, i, r) {
        (Some(s), Some(e), Some(i), Some(r)) => {
            if now < e {
                Ok((s, e, i, r))
            } else {
                Err(AuthError::Expired)
            }
        },
        _ => Err(AuthError::Unauthenticated),
    }
}

/// Signs the claims under `secret`; signing always succeeds.
pub fn encode_claims(sub: u128, exp: i64, iat: i64, role: Role, secret: &[u8]) -> (r: Result<
    String,
    AuthError,
>)
    ensures
        r matches Ok(t) ==> token_carries(t@, secret@, sub, exp, iat, role),
        r is Ok,
{
    let mut claims: Vec<(String, String)> = Vec::new();
    claims.push(("expires_at".to_owned(), i64_text(exp)));
    claims.push(("issued_at".to_owned(), i64_text(iat)));
    claims.push(("role".to_owned(), role.to_string()));
    claims.push(("sub".to_owned(), u128_text(sub)));
    proof {
        assert(pairs_view(claims@) =~= claim_pairs(sub, exp, iat, role));
        lemma_claim_pairs(sub, exp, iat, role);
    }
    match sign_claims(&claims, secret) {
        Ok(t) => Ok(t),
        Err(_) => Err(AuthError::Internal),
    }
}

/// Checks the signature of `token` under `secret`, then reads its claims at
/// time `now`.
pub fn decode_claims(token: &str, secret: &[u8], now: i64) -> (r: Result<
    (u128, i64, i64, Role),
    AuthError,
>)
    ensures
        r == token_reading(token@, secret@, now),
{
    match open_claims(token, secret) {
        Ok(pairs) => read_claims(&pairs, now),
        Err(_) => Err(AuthError::Unauthenticated),
    }
}

/// A token decoded under the secret it was signed with, before it expires,
/// gives back exactly the claims it was signed with.
pub proof fn lemma_token_round_trip(
    token: Seq<char>,
    secret: Seq<u8>,
    sub: u128,
    exp: i64,
    iat: i64,
    role: Role,
    now: i64,
)
    requires
        token_carries(token, secret, sub, exp, iat, role),
        now < exp,
    ensures
        token_reading(token, secret, now) == Ok::<(u128, i64, i64, Role), AuthError>(
            (sub, exp, iat, role),
        ),
{
    lemma_genuine_claims_parse(token, secret, sub, exp, iat, role);
}

/// A genuine token decoded at or after its expiry time is reported as
/// expired, never as unauthenticated.
pub proof fn lemma_token_expired(
    token: Seq<char>,
    secret: Seq<u8>,
    sub: u128,
    exp: i64,
    iat: i64,
    role: Role,
    now: i64,
)
    requires
        token_carries(token, secret, sub, exp, iat, role),
        exp <= now,
    ensures
        token_reading(token, secret, now) == Err::<(u128, i64, i64, Role), AuthError>(
            AuthError::Expired,
        ),
{
    lemma_genuine_claims_parse(token, secret, sub, exp, iat, role);
}

/// A token whose signature does not verify under `secret` (or that is not a
/// token at all) is unauthenticated, whatever claims it shows.
pub proof fn lemma_unverified_token_rejected(token: Seq<char>, secret: Seq<u8>, now: i64)
    requires
        jwt_claims(token, secret) is None,
    ensures
        token_reading(token, secret, now) == Err::<(u128, i64, i64, Role), AuthError>(
            AuthError::Unauthenticated,
        ),
{
}

proof fn lemma_genuine_claims_parse(
    token: Seq<char>,
    secret: Seq<u8>,
    sub: u128,
    exp: i64,
    iat: i64,
    role: Role,
)
    requires
        token_carries(token, secret, sub, exp, iat, role),
    ensures
        jwt_claims(token, secret) matches Some(p) && find_claim(p, "sub"@) == Some(
            decimal_text(sub as int),
        ) && find_claim(p, "expires_at"@) == Some(decimal_text(exp as int)) && find_claim(
            p,
            "issued_at"@,
        ) == Some(decimal_text(iat as int)) && find_claim(p, "role"@) == Some(role_text(role)),
        parsed_u128(decimal_text(sub as int)) == Some(sub),
        parsed_i64(decimal_text(exp as int)) == Some(exp),
        parsed_i64(decimal_text(iat as int)) == Some(iat),
        role_named(role_text(role)) == Some(role),
{
    let p = jwt_claims(token, secret).unwrap();
    lemma_claim_pairs(sub, exp, iat, role);
    assert(find_claim(p, "sub"@) == find_claim(claim_pairs(sub, exp, iat, role), "sub"@));
    assert(find_claim(p, "expires_at"@) == find_claim(
        claim_pairs(sub, exp, iat, role),
        "expires_at"@,
    ));
    assert(find_claim(p, "issued_at"@) == find_claim(
        claim_pairs(sub, exp, iat, role),
        "issued_at"@,
    ));
    assert(find_claim(p, "role"@) == find_claim(claim_pairs(sub, exp, iat, role), "role"@));
    lemma_u128_round_trip(sub);
    lemma_i64_round_trip(exp);
    lemma_i64_round_trip(iat);
    lemma_role_text_round_trip(role);
}

/// The bytes of the access-token secret.
pub open spec fn access_secret(key: AccessToken) -> Seq<u8> {
    encode_utf8(key.accesstoken@)
}

/// The bytes of the refresh-token secret.
pub open spec fn refresh_secret(key: RefreshToken) -> Seq<u8> {
    encode_utf8(key.refreshtoken@)
}

pub open spec fn access_reading(token: Seq<char>, key: AccessToken, now: i64) -> Result<
    ClaimsAccessToken,
    AuthError,
> {
    match token_reading(token, access_secret(key), now) {
        Ok(c) => Ok(ClaimsAccessToken { sub: c.0, exp: c.1, iat: c.2, role: c.3 }),
        Err(e) => Err(e),
    }
}

pub open spec fn refresh_reading(token: Seq<char>, key: RefreshToken, now: i64) -> Result<
    ClaimsRefreshToken,
    AuthError,
> {
    match token_reading(token, refresh_secret(key), now) {
        Ok(c) => Ok(ClaimsRefreshToken { sub: c.0, exp: c.1, iat: c.2, role: c.3 }),
        Err(e) => Err(e),
    }
}

impl ClaimsAccessToken {
    /// Signs these claims with the access-token secret.
    pub fn encode(&self, key: &AccessToken) -> (r: Result<String, AuthError>)
        ensures
            r matches Ok(t) ==> token_carries(
                t@,
                access_secret(*key),
                self.sub,
                self.exp,
                self.iat,
                self.role,
            ),
            r is Ok,
    {
        encode_claims(self.sub, self.exp, self.iat, self.role, key.accesstoken.as_str().as_bytes())
    }

    /// Checks an access token against the access-token secret and reads its
    /// claims at time `now`.
    pub fn decode(token: &str, key: &AccessToken, now: i64) -> (r: Result<Self, AuthError>)
        ensures
            r == access_reading(token@, *key, now),
    {
        match decode_claims(token, key.accesstoken.as_str().as_bytes(), now) {
            Ok(c) => Ok(ClaimsAccessToken { sub: c.0, exp: c.1, iat: c.2, role: c.3 }),
            Err(e) => Err(e),
        }
    }
}

impl ClaimsRefreshToken {
    /// Signs these claims with the refresh-token secret.
    pub fn encode(&self, key: &RefreshToken) -> (r: Result<String, AuthError>)
        ensures
            r matches Ok(t) ==> token_carries(
                t@,
                refresh_secret(*key),
                self.sub,
                self.exp,
                self.iat,
                self.role,
            ),
            r is Ok,
    {
        encode_claims(
            self.sub,
            self.exp,
            self.iat,
            self.role,
            key.refreshtoken.as_str().as_bytes(),
        )
    }

    /// Checks a refresh token against the refresh-token secret and reads its
    /// claims at time `now`.
    pub fn decode(token: &str, key: &RefreshToken, now: i64) -> (r: Result<Self, AuthError>)
        ensures
            r == refresh_reading(token@, *key, now),
    {
        match decode_claims(token, key.refreshtoken.as_str().as_bytes(), now) {
            Ok(c) => Ok(ClaimsRefreshToken { sub: c.0, exp: c.1, iat: c.2, role: c.3 }),
            Err(e) => Err(e),
        }
    }
}

} // verus!
