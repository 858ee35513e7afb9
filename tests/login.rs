use shopauth::claims::ClaimsAccessToken;
use shopauth::claims::ClaimsRefreshToken;
use shopauth::config::{AccessToken, RefreshToken};
use shopauth::error::AuthError;
use shopauth::gate::{authenticate, authorize_admin, auth_gate, admin_gate, extract_token, require_admin};
use shopauth::password::{hash_password, hash_password_salted, hash_password_with_salt, verify_password};
use shopauth::register::{
    prepare_registration, registration_result, registration_step, RegAction, RegStage, StoreOutcome,
    UserReg,
};
use shopauth::role::Role;
use shopauth::session::{
    check_login_input, decide_login, login, refresh_cookie, Lookup, Principal, UserLogin,
    UserLoginUuid,
};

fn keys() -> (AccessToken, RefreshToken) {
    (
        AccessToken { accesstoken: "access-secret".to_string() },
        RefreshToken { refreshtoken: "refresh-secret".to_string() },
    )
}

fn request(email: &str, passwd: &str) -> UserLogin {
    UserLogin { email: email.to_string(), passwd: passwd.to_string() }
}

#[test]
fn hashed_secret_verifies_and_others_do_not() {
    let h = hash_password("pw1").unwrap();
    assert_ne!(h, "pw1");
    assert_eq!(verify_password("pw1", &h), Ok(true));
    assert_eq!(verify_password("pw2", &h), Ok(false));
    assert_eq!(verify_password("", &h), Ok(false));
}

#[test]
fn corrupt_stored_hash_is_an_error_not_a_mismatch() {
    assert_eq!(verify_password("pw1", "not a hash"), Err(AuthError::Internal));
    assert_eq!(verify_password("pw1", ""), Err(AuthError::Internal));
}

#[test]
fn empty_login_fields_are_a_bad_request() {
    let (a, r) = keys();
    assert_eq!(check_login_input(&request("", "pw")), Err(AuthError::BadRequest));
    assert_eq!(check_login_input(&request("a@x.com", "")), Err(AuthError::BadRequest));
    assert_eq!(check_login_input(&request("a@x.com", "pw")), Ok(()));
    let e = login(&request("", ""), &Lookup::Missing, &a, &r).err().unwrap();
    assert_eq!(e, AuthError::BadRequest);
    assert_eq!(e.status_code(), 400);
}

#[test]
fn login_with_unknown_identifier() {
    let (a, r) = keys();
    let e = login(&request("a@x.com", "pw1"), &Lookup::Missing, &a, &r).err().unwrap();
    assert_eq!(e, AuthError::InvalidCredentials);
    assert_eq!(e.status_code(), 400);
    assert_eq!(e.message(), "Invalid email or password");
}

#[test]
fn login_with_wrong_secret_looks_the_same() {
    let (a, r) = keys();
    let rec = UserLoginUuid { usid: 5, passwd: hash_password("pw1").unwrap(), role: Role::User };
    let e = login(&request("a@x.com", "pw2"), &Lookup::Found(rec), &a, &r).err().unwrap();
    let unknown = login(&request("a@x.com", "pw1"), &Lookup::Missing, &a, &r).err().unwrap();
    assert_eq!(e, AuthError::InvalidCredentials);
    assert_eq!(e, unknown);
    assert_eq!(e.status_code(), unknown.status_code());
    assert_eq!(e.message(), unknown.message());
}

#[test]
fn login_store_failure_is_internal() {
    let (a, r) = keys();
    let e = login(&request("a@x.com", "pw1"), &Lookup::Failed, &a, &r).err().unwrap();
    assert_eq!(e, AuthError::Internal);
    assert_eq!(e.status_code(), 500);
}

#[test]
fn login_issues_both_tokens_with_the_stored_role() {
    let (a, r) = keys();
    let rec = UserLoginUuid { usid: 77, passwd: hash_password("pw1").unwrap(), role: Role::Admin };
    let s = login(&request("a@x.com", "pw1"), &Lookup::Found(rec), &a, &r).unwrap();
    assert_eq!(s.access.sub, 77);
    assert_eq!(s.access.role, Role::Admin);
    assert_eq!(s.refresh.role, Role::Admin);
    assert_eq!(s.access.exp - s.access.iat, 86_400);
    assert_eq!(s.refresh.exp - s.refresh.iat, 259_200);
    let now = s.access.iat + 1;
    assert_eq!(ClaimsAccessToken::decode(&s.access_token, &a, now), Ok(s.access));
    assert_eq!(ClaimsRefreshToken::decode(&s.refresh_token, &r, now), Ok(s.refresh));
    assert_eq!(authenticate(Some(&s.access_token), &a, now), Ok(Principal { identity: 77, role: Role::Admin }));
    assert_eq!(auth_gate(Some(&s.access_token), &a), Ok(Principal { identity: 77, role: Role::Admin }));
    assert_eq!(admin_gate(Some(&s.access_token), &a), Ok(Principal { identity: 77, role: Role::Admin }));
}

#[test]
fn login_decision_table() {
    let rec = || UserLoginUuid { usid: 3, passwd: String::new(), role: Role::User };
    assert_eq!(decide_login(&Lookup::Found(rec()), Ok(true)), Ok(Principal { identity: 3, role: Role::User }));
    assert_eq!(decide_login(&Lookup::Found(rec()), Ok(false)), Err(AuthError::InvalidCredentials));
    assert_eq!(decide_login(&Lookup::Found(rec()), Err(AuthError::Internal)), Err(AuthError::Internal));
    assert_eq!(decide_login(&Lookup::Missing, Ok(true)), Err(AuthError::InvalidCredentials));
    assert_eq!(decide_login(&Lookup::Failed, Ok(true)), Err(AuthError::Internal));
}

#[test]
fn refresh_cookie_is_scoped_and_hidden() {
    let c = refresh_cookie("tok".to_string(), "shop.example.com".to_string());
    assert_eq!(c.value, "tok");
    assert_eq!(c.name, "Refresh Token");
    assert_eq!(c.path, "/api/v1/users/login");
    assert_eq!(c.domain, "shop.example.com");
    assert!(c.secure && c.http_only);
}

fn token_for(role: Role, key: &AccessToken) -> String {
    ClaimsAccessToken::issued_at(11, role, 1_000).encode(key).unwrap()
}

#[test]
fn admin_route_with_user_token_is_forbidden() {
    let (a, _) = keys();
    let t = token_for(Role::User, &a);
    assert_eq!(authenticate(Some(&t), &a, 2_000), Ok(Principal { identity: 11, role: Role::User }));
    let e = authorize_admin(Some(&t), &a, 2_000).err().unwrap();
    assert_eq!(e, AuthError::Forbidden);
    assert_eq!(e.status_code(), 403);
}

#[test]
fn admin_route_with_admin_token_proceeds() {
    let (a, _) = keys();
    let t = token_for(Role::Admin, &a);
    assert_eq!(authorize_admin(Some(&t), &a, 2_000), Ok(Principal { identity: 11, role: Role::Admin }));
}

#[test]
fn protected_route_with_token_under_wrong_secret() {
    let (a, _) = keys();
    let other = AccessToken { accesstoken: "someone-else".to_string() };
    let t = token_for(Role::Admin, &other);
    let e = authenticate(Some(&t), &a, 2_000).err().unwrap();
    assert_eq!(e, AuthError::Unauthenticated);
    assert_eq!(e.status_code(), 401);
    assert_eq!(authorize_admin(Some(&t), &a, 2_000), Err(AuthError::Unauthenticated));
}

#[test]
fn gate_without_token_or_with_expired_token() {
    let (a, _) = keys();
    assert_eq!(authenticate(None, &a, 0), Err(AuthError::Unauthenticated));
    assert_eq!(authorize_admin(None, &a, 0), Err(AuthError::Unauthenticated));
    let t = token_for(Role::Admin, &a);
    assert_eq!(authenticate(Some(&t), &a, 87_400), Err(AuthError::Expired));
    assert_eq!(authorize_admin(Some(&t), &a, 87_400), Err(AuthError::Expired));
}

#[test]
fn gate_accepts_bearer_prefix() {
    let (a, _) = keys();
    let t = token_for(Role::User, &a);
    let h = format!("Bearer {}", t);
    assert_eq!(extract_token(&h), t.as_str());
    assert_eq!(extract_token("abc"), "abc");
    assert_eq!(authenticate(Some(&h), &a, 2_000), Ok(Principal { identity: 11, role: Role::User }));
}

#[test]
fn require_admin_checks_the_role() {
    let p = Principal { identity: 1, role: Role::User };
    assert_eq!(require_admin(p), Err(AuthError::Forbidden));
    let q = Principal { identity: 1, role: Role::Admin };
    assert_eq!(require_admin(q), Ok(q));
}

#[test]
fn registering_twice_conflicts_and_rolls_back() {
    // first registration: both rows go in, then the transaction commits
    assert_eq!(registration_step(RegStage::UserRow, StoreOutcome::Done), RegAction::InsertAddress);
    let first = registration_step(RegStage::AddressRow, StoreOutcome::Done);
    assert_eq!(first, RegAction::Commit);
    assert_eq!(registration_result(first), Ok(()));
    // second registration of the same identifier: the user row is a duplicate
    let second = registration_step(RegStage::UserRow, StoreOutcome::Duplicate);
    assert_eq!(second, RegAction::Rollback(AuthError::Conflict));
    assert_eq!(registration_result(second), Err(AuthError::Conflict));
}

#[test]
fn registration_failures_roll_back() {
    assert_eq!(
        registration_step(RegStage::AddressRow, StoreOutcome::Duplicate),
        RegAction::Rollback(AuthError::Conflict)
    );
    assert_eq!(
        registration_step(RegStage::AddressRow, StoreOutcome::Failed),
        RegAction::Rollback(AuthError::Internal)
    );
    assert_eq!(
        registration_step(RegStage::UserRow, StoreOutcome::Failed),
        RegAction::Rollback(AuthError::Internal)
    );
}

#[test]
fn prepared_registration_stores_a_verifying_hash() {
    let req = UserReg {
        fullname: "A B".to_string(),
        username: "ab".to_string(),
        dob: "2000-01-01".to_string(),
        gender: "x".to_string(),
        mob_phone: "0".to_string(),
        email: "a@x.com".to_string(),
        passwd: "pw1".to_string(),
        address: "1 St".to_string(),
        city: "C".to_string(),
        postcode: "P".to_string(),
    };
    let acc = prepare_registration(&req).unwrap();
    assert_ne!(acc.passwd_hash, "pw1");
    assert!(acc.passwd_hash.contains(&format!("${}$", acc.salt)));
    assert_ne!(acc.usid, acc.addrid);
    assert_eq!(verify_password("pw1", &acc.passwd_hash), Ok(true));
}

#[test]
fn corrupt_hash_of_another_kind_is_an_error() {
    // parses as a PHC string, but names an algorithm Argon2 does not verify
    let other = "$pbkdf2-sha256$i=1000$c2FsdHNhbHQ$aGFzaGhhc2hoYXNo";
    assert_eq!(verify_password("pw1", other), Err(AuthError::Internal));
}

#[test]
fn hash_with_given_salt_embeds_it() {
    let salt = "c29tZXNhbHRzb21lc2FsdA";
    let h = hash_password_with_salt("pw1", salt).unwrap();
    assert!(h.starts_with("$argon2id$v=19$m=19456,t=2,p=1$c29tZXNhbHRzb21lc2FsdA$"));
    assert_eq!(verify_password("pw1", &h), Ok(true));
    assert_eq!(hash_password_with_salt("pw1", "no$dollars"), Err(AuthError::Internal));
}

#[test]
fn fresh_salts_give_different_hashes() {
    let (s1, h1) = hash_password_salted("pw1").unwrap();
    let (s2, h2) = hash_password_salted("pw1").unwrap();
    assert_ne!(s1, s2);
    assert_ne!(h1, h2);
    assert!(h1.contains(&s1) && h2.contains(&s2));
}
