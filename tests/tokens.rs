use shopauth::claims::{ClaimsAccessToken, ClaimsRefreshToken, ACCESS_TTL_SECS, REFRESH_TTL_SECS};
use shopauth::config::{load_secrets, AccessToken, RefreshToken};
use shopauth::error::AuthError;
use shopauth::role::Role;
use shopauth::token::{decode_claims, encode_claims, read_claims};

fn access_key(s: &str) -> AccessToken {
    AccessToken { accesstoken: s.to_string() }
}

fn refresh_key(s: &str) -> RefreshToken {
    RefreshToken { refreshtoken: s.to_string() }
}

#[test]
fn access_claims_last_a_day() {
    let c = ClaimsAccessToken::issued_at(7, Role::User, 1_000);
    assert_eq!(c.iat, 1_000);
    assert_eq!(c.exp, 87_400);
    assert_eq!(c.sub, 7);
    assert_eq!(c.role, Role::User);
}

#[test]
fn refresh_claims_last_three_days() {
    let c = ClaimsRefreshToken::issued_at(7, Role::Admin, 1_000);
    assert_eq!(c.iat, 1_000);
    assert_eq!(c.exp, 260_200);
    assert_eq!(c.role, Role::Admin);
}

#[test]
fn claims_issued_now_keep_their_lifetimes() {
    for role in [Role::User, Role::Admin] {
        let a = ClaimsAccessToken::new(99, role);
        let r = ClaimsRefreshToken::new(99, role);
        assert_eq!(a.exp - a.iat, 24 * 3600);
        assert_eq!(r.exp - r.iat, 72 * 3600);
        assert_eq!(ACCESS_TTL_SECS, 86_400);
        assert_eq!(REFRESH_TTL_SECS, 259_200);
        assert!(a.iat > 1_600_000_000);
    }
}

#[test]
fn access_token_round_trip() {
    let key = access_key("access-secret");
    let c = ClaimsAccessToken::issued_at(0x1234_5678_9abc_def0_1122_3344_5566_7788, Role::Admin, 1_000);
    let t = c.encode(&key).unwrap();
    assert_eq!(t.split('.').count(), 3);
    assert_eq!(ClaimsAccessToken::decode(&t, &key, 2_000), Ok(c));
}

#[test]
fn refresh_token_round_trip() {
    let key = refresh_key("refresh-secret");
    let c = ClaimsRefreshToken::issued_at(u128::MAX, Role::User, 5);
    let t = c.encode(&key).unwrap();
    assert_eq!(ClaimsRefreshToken::decode(&t, &key, 6), Ok(c));
}

#[test]
fn round_trip_of_negative_times() {
    let t = encode_claims(3, -5, -100, Role::User, b"k").unwrap();
    assert_eq!(decode_claims(&t, b"k", -6), Ok((3, -5, -100, Role::User)));
}

#[test]
fn token_under_another_secret_is_unauthenticated() {
    let c = ClaimsAccessToken::issued_at(1, Role::User, 1_000);
    let t = c.encode(&access_key("right")).unwrap();
    assert_eq!(
        ClaimsAccessToken::decode(&t, &access_key("wrong"), 2_000),
        Err(AuthError::Unauthenticated)
    );
}

#[test]
fn refresh_token_is_not_an_access_token() {
    let c = ClaimsRefreshToken::issued_at(1, Role::User, 1_000);
    let t = c.encode(&refresh_key("refresh")).unwrap();
    assert_eq!(
        ClaimsAccessToken::decode(&t, &access_key("access"), 2_000),
        Err(AuthError::Unauthenticated)
    );
}

#[test]
fn expired_token_is_expired_not_unauthenticated() {
    let key = access_key("s");
    let c = ClaimsAccessToken::issued_at(1, Role::User, 1_000);
    let t = c.encode(&key).unwrap();
    assert_eq!(ClaimsAccessToken::decode(&t, &key, 87_399), Ok(c));
    assert_eq!(ClaimsAccessToken::decode(&t, &key, 87_400), Err(AuthError::Expired));
    assert_eq!(ClaimsAccessToken::decode(&t, &key, 1_000_000), Err(AuthError::Expired));
}

#[test]
fn garbled_token_is_unauthenticated() {
    let key = access_key("s");
    assert_eq!(ClaimsAccessToken::decode("", &key, 0), Err(AuthError::Unauthenticated));
    assert_eq!(ClaimsAccessToken::decode("a.b.c", &key, 0), Err(AuthError::Unauthenticated));
    let t = ClaimsAccessToken::issued_at(1, Role::User, 0).encode(&key).unwrap();
    let mut tampered = t.clone();
    tampered.push('x');
    assert_eq!(ClaimsAccessToken::decode(&tampered, &key, 1), Err(AuthError::Unauthenticated));
}

fn pairs(v: &[(&str, &str)]) -> Vec<(String, String)> {
    v.iter().map(|(k, x)| (k.to_string(), x.to_string())).collect()
}

#[test]
fn claims_are_read_by_name() {
    let p = pairs(&[("expires_at", "100"), ("issued_at", "+7"), ("role", "Admin"), ("sub", "42")]);
    assert_eq!(read_claims(&p, 99), Ok((42, 100, 7, Role::Admin)));
    assert_eq!(read_claims(&p, 100), Err(AuthError::Expired));
}

#[test]
fn malformed_claims_are_unauthenticated() {
    let missing = pairs(&[("expires_at", "100"), ("role", "User"), ("sub", "42")]);
    assert_eq!(read_claims(&missing, 0), Err(AuthError::Unauthenticated));
    let bad_role = pairs(&[("expires_at", "100"), ("issued_at", "1"), ("role", "Root"), ("sub", "42")]);
    assert_eq!(read_claims(&bad_role, 0), Err(AuthError::Unauthenticated));
    let bad_sub = pairs(&[("expires_at", "100"), ("issued_at", "1"), ("role", "User"), ("sub", "-1")]);
    assert_eq!(read_claims(&bad_sub, 0), Err(AuthError::Unauthenticated));
    let bad_exp = pairs(&[("expires_at", "1e3"), ("issued_at", "1"), ("role", "User"), ("sub", "4")]);
    assert_eq!(read_claims(&bad_exp, 0), Err(AuthError::Unauthenticated));
}

#[test]
fn secrets_must_all_be_present() {
    let s = load_secrets(Some("a".to_string()), Some("r".to_string()), Some("p".to_string())).unwrap();
    assert_eq!(s.access.accesstoken, "a");
    assert_eq!(s.refresh.refreshtoken, "r");
    assert_eq!(s.recovery.passrecovertoken, "p");
    assert!(load_secrets(None, Some("r".to_string()), Some("p".to_string())).is_none());
    assert!(load_secrets(Some("a".to_string()), Some("r".to_string()), None).is_none());
}

#[test]
fn role_reading_and_names() {
    assert_eq!(Role::_from_str("Admin"), Role::Admin);
    assert_eq!(Role::_from_str("admin"), Role::User);
    assert_eq!(Role::_from_str(""), Role::User);
    assert_eq!(Role::from_claim("User"), Some(Role::User));
    assert_eq!(Role::from_claim("Admin"), Some(Role::Admin));
    assert_eq!(Role::from_claim("Owner"), None);
    assert_eq!(Role::Admin.to_string(), "Admin");
    assert_eq!(Role::User.to_string(), "User");
}

#[test]
fn error_codes_and_messages() {
    assert_eq!(AuthError::BadRequest.status_code(), 400);
    assert_eq!(AuthError::InvalidCredentials.status_code(), 400);
    assert_eq!(AuthError::Unauthenticated.status_code(), 401);
    assert_eq!(AuthError::Expired.status_code(), 401);
    assert_eq!(AuthError::Forbidden.status_code(), 403);
    assert_eq!(AuthError::Conflict.status_code(), 400);
    assert_eq!(AuthError::Internal.status_code(), 500);
    assert_eq!(AuthError::InvalidCredentials.message(), "Invalid email or password");
    assert_eq!(AuthError::Conflict.message(), "User already exists");
}
