use medkit::auth::admin_auth::AdminAuth;
use medkit::auth::jwt::{Claim, ClaimValue, CodecKey, SigningScheme};
use medkit::auth::password::{hash_password, verify_password};
use medkit::auth::staff_auth::StaffAuth;
use medkit::auth::user_auth::{
    apply_floor, extract_token, find_last_dot, gen_token_cookie, guard, issue, read_claims,
    take_bearer_token, token_or_error, verify, GuardRejection, RawClaims, Rejection,
    RequestCredentials, TokenClaims, UserDigest, TOKEN_VALIDITY_SECONDS,
};
use medkit::auxiliary::responses::GenericError;
use medkit::models::users::RoleEnum;

const T0: i64 = 1_700_000_000;

/// The key of the tests: one shared phrase signs and checks.
fn key() -> CodecKey {
    CodecKey { scheme: SigningScheme::Hs256, material: b"a phrase that the tests share".to_vec() }
}

fn other_key() -> CodecKey {
    CodecKey { scheme: SigningScheme::Hs256, material: b"a phrase of somebody else".to_vec() }
}

/// A key for RSA that holds no key at all.
fn unreadable_rsa_key() -> CodecKey {
    CodecKey { scheme: SigningScheme::Rs256, material: b"no key at all".to_vec() }
}

fn token_for(user_id: i32, role: RoleEnum) -> String {
    issue(user_id, role, T0, &key()).expect("a token")
}

fn bearer(token: &str) -> RequestCredentials {
    RequestCredentials { authorization: Some(format!("Bearer {}", token)), token_cookie: None }
}

fn tamper(token: &str, at: usize) -> String {
    let mut bytes = token.as_bytes().to_vec();
    bytes[at] = if bytes[at] == b'A' { b'B' } else { b'A' };
    String::from_utf8(bytes).expect("ascii")
}

#[test]
fn issued_token_verifies_inside_the_window() {
    let token = token_for(7, RoleEnum::Staff);
    let expected = TokenClaims { exp: T0 + TOKEN_VALIDITY_SECONDS, user_id: 7, user_role: RoleEnum::Staff };
    assert_eq!(verify(&token, T0, &key()), Ok(expected));
    assert_eq!(verify(&token, T0 + 1, &key()), Ok(expected));
    assert_eq!(verify(&token, T0 + TOKEN_VALIDITY_SECONDS - 1, &key()), Ok(expected));
}

#[test]
fn issued_token_expires_at_the_end_of_the_window() {
    let token = token_for(7, RoleEnum::Staff);
    assert_eq!(
        verify(&token, T0 + TOKEN_VALIDITY_SECONDS, &key()),
        Err(Rejection::Expired)
    );
    assert_eq!(
        verify(&token, T0 + TOKEN_VALIDITY_SECONDS + 1, &key()),
        Err(Rejection::Expired)
    );
    assert_eq!(verify(&token, i64::MAX, &key()), Err(Rejection::Expired));
}

#[test]
fn validity_window_is_seven_days() {
    assert_eq!(TOKEN_VALIDITY_SECONDS, 7 * 24 * 60 * 60);
}

#[test]
fn issuing_is_deterministic() {
    assert_eq!(token_for(1, RoleEnum::User), token_for(1, RoleEnum::User));
    assert_ne!(token_for(1, RoleEnum::User), token_for(2, RoleEnum::User));
    assert_ne!(token_for(1, RoleEnum::User), token_for(1, RoleEnum::Admin));
}

#[test]
fn tampered_signature_is_a_bad_signature() {
    let token = token_for(7, RoleEnum::Admin);
    let dot = token.rfind('.').expect("a dot");
    for at in [dot + 1, dot + 10, (dot + token.len()) / 2, token.len() - 2, token.len() - 1] {
        let forged = tamper(&token, at);
        assert_ne!(forged, token);
        assert_eq!(verify(&forged, T0, &key()), Err(Rejection::BadSignature));
        assert_eq!(
            verify(&forged, T0 + 2 * TOKEN_VALIDITY_SECONDS, &key()),
            Err(Rejection::BadSignature)
        );
    }
}

#[test]
fn signature_with_a_foreign_character_is_a_bad_signature() {
    let token = token_for(7, RoleEnum::Admin);
    let mut forged = token.clone();
    forged.pop();
    forged.push('!');
    assert_eq!(verify(&forged, T0, &key()), Err(Rejection::BadSignature));
    let mut cut = token.clone();
    cut.pop();
    assert_eq!(verify(&cut, T0, &key()), Err(Rejection::BadSignature));
}

#[test]
fn tampered_claims_are_a_bad_signature() {
    let token = token_for(7, RoleEnum::User);
    let first = token.find('.').expect("a dot");
    let forged = tamper(&token, first + 5);
    assert_eq!(verify(&forged, T0, &key()), Err(Rejection::BadSignature));
}

#[test]
fn token_under_another_key_is_a_bad_signature() {
    let token = token_for(7, RoleEnum::User);
    assert_eq!(verify(&token, T0, &other_key()), Err(Rejection::BadSignature));
    assert_eq!(verify(&token, T0, &unreadable_rsa_key()), Err(Rejection::BadSignature));
    let empty = CodecKey { scheme: SigningScheme::Hs256, material: Vec::new() };
    assert_eq!(verify(&token, T0, &empty), Err(Rejection::BadSignature));
}

#[test]
fn token_without_a_dot_is_malformed() {
    assert_eq!(verify("", T0, &key()), Err(Rejection::Malformed));
    assert_eq!(verify("abcdef", T0, &key()), Err(Rejection::Malformed));
}

#[test]
fn token_of_dots_has_a_bad_signature() {
    assert_eq!(verify("a.b.c", T0, &key()), Err(Rejection::BadSignature));
    assert_eq!(verify(".", T0, &key()), Err(Rejection::BadSignature));
}

#[test]
fn issue_fails_without_a_key() {
    assert_eq!(issue(1, RoleEnum::User, T0, &unreadable_rsa_key()), Err(GenericError::TokenError));
    let empty = CodecKey { scheme: SigningScheme::Rs256, material: Vec::new() };
    assert_eq!(issue(1, RoleEnum::User, T0, &empty), Err(GenericError::TokenError));
}

#[test]
fn schemes_do_not_mix() {
    let token = token_for(7, RoleEnum::Admin);
    let as_rsa = CodecKey { scheme: SigningScheme::Rs256, material: key().material };
    assert_eq!(verify(&token, T0, &as_rsa), Err(Rejection::BadSignature));
    assert_eq!(verify("a.b.c", T0, &unreadable_rsa_key()), Err(Rejection::BadSignature));
    assert_eq!(verify("abc", T0, &unreadable_rsa_key()), Err(Rejection::Malformed));
}

#[test]
fn token_has_three_parts() {
    let token = token_for(7, RoleEnum::Admin);
    let parts: Vec<&str> = token.split('.').collect();
    assert_eq!(parts.len(), 3);
    assert!(parts.iter().all(|part| !part.is_empty()));
    // 32 bytes of HMAC-SHA256 in base64 without padding
    assert_eq!(parts[2].len(), 43);
    assert_eq!(find_last_dot(&token), Some(token.len() - 44));
}

#[test]
fn issue_fails_where_the_expiry_overflows() {
    assert_eq!(
        issue(1, RoleEnum::User, i64::MAX - TOKEN_VALIDITY_SECONDS + 1, &key()),
        Err(GenericError::TokenError)
    );
    assert!(issue(1, RoleEnum::User, i64::MAX - TOKEN_VALIDITY_SECONDS, &key()).is_ok());
    assert_eq!(TokenClaims::issued(1, RoleEnum::User, i64::MAX), None);
    assert_eq!(
        TokenClaims::issued(3, RoleEnum::Admin, 10),
        Some(TokenClaims { exp: 10 + 604800, user_id: 3, user_role: RoleEnum::Admin })
    );
}

#[test]
fn token_or_error_maps_both_outcomes() {
    assert_eq!(token_or_error(Some("t".to_string())), Ok("t".to_string()));
    assert_eq!(token_or_error(None), Err(GenericError::TokenError));
}

#[test]
fn claims_are_listed_by_name() {
    let claims = TokenClaims { exp: 1700604800, user_id: 5, user_role: RoleEnum::Admin };
    assert_eq!(
        claims.members(),
        vec![
            Claim { name: "exp".to_string(), value: ClaimValue::Integer(1700604800) },
            Claim { name: "user_id".to_string(), value: ClaimValue::Integer(5) },
            Claim { name: "user_role".to_string(), value: ClaimValue::Text("Admin".to_string()) },
        ]
    );
    let negative = TokenClaims { exp: -12, user_id: i32::MIN, user_role: RoleEnum::User };
    assert_eq!(
        negative.members(),
        vec![
            Claim { name: "exp".to_string(), value: ClaimValue::Integer(-12) },
            Claim { name: "user_id".to_string(), value: ClaimValue::Integer(-2147483648) },
            Claim { name: "user_role".to_string(), value: ClaimValue::Text("User".to_string()) },
        ]
    );
}

#[test]
fn token_carries_the_claims() {
    let token = token_for(5, RoleEnum::Staff);
    let read = jsonwebtoken::dangerous_insecure_decode::<serde_json::Value>(&token).expect("claims");
    let expected: serde_json::Value =
        serde_json::from_str("{\"exp\":1700604800,\"user_id\":5,\"user_role\":\"Staff\"}").expect("json");
    assert_eq!(read.claims, expected);
    assert_eq!(read.header.alg, jsonwebtoken::Algorithm::HS256);
    let raw = read_claims(&read.claims.to_string());
    assert_eq!(raw.exp, Some(T0 + 604800));
    assert_eq!(raw.user_id, Some(5));
    assert_eq!(raw.user_role.as_deref(), Some("Staff"));
}

#[test]
fn claims_are_read_from_json() {
    let raw = read_claims("{\"exp\":12,\"user_id\":34,\"user_role\":\"Staff\",\"more\":true}");
    assert_eq!(raw.exp, Some(12));
    assert_eq!(raw.user_id, Some(34));
    assert_eq!(raw.user_role.as_deref(), Some("Staff"));
    let odd = read_claims("{\"exp\":\"12\",\"user_id\":3.5}");
    assert_eq!(odd.exp, None);
    assert_eq!(odd.user_id, None);
    assert_eq!(odd.user_role, None);
    let none = read_claims("not json");
    assert_eq!(none.exp, None);
}

fn raw(exp: Option<i64>, user_id: Option<i64>, role: Option<&str>) -> RawClaims {
    RawClaims { exp, user_id, user_role: role.map(|r| r.to_string()) }
}

#[test]
fn accept_judges_claims() {
    let good = raw(Some(100), Some(7), Some("Admin"));
    assert_eq!(
        good.accept(99),
        Ok(TokenClaims { exp: 100, user_id: 7, user_role: RoleEnum::Admin })
    );
    assert_eq!(good.accept(100), Err(Rejection::Expired));
    assert_eq!(good.accept(101), Err(Rejection::Expired));
    assert_eq!(raw(None, Some(7), Some("Admin")).accept(0), Err(Rejection::Malformed));
    assert_eq!(raw(Some(100), None, Some("Admin")).accept(0), Err(Rejection::Malformed));
    assert_eq!(raw(Some(100), Some(7), None).accept(0), Err(Rejection::Malformed));
    assert_eq!(raw(Some(100), Some(7), Some("admin")).accept(0), Err(Rejection::Malformed));
    assert_eq!(raw(Some(100), Some(7), Some("Root")).accept(0), Err(Rejection::Malformed));
    assert_eq!(raw(Some(100), Some(2147483648), Some("User")).accept(0), Err(Rejection::Malformed));
    assert_eq!(raw(Some(100), Some(-2147483649), Some("User")).accept(0), Err(Rejection::Malformed));
    assert_eq!(
        raw(Some(100), Some(2147483647), Some("User")).accept(0),
        Ok(TokenClaims { exp: 100, user_id: 2147483647, user_role: RoleEnum::User })
    );
    // A malformed token is malformed even after its expiry.
    assert_eq!(raw(Some(100), Some(7), Some("Root")).accept(500), Err(Rejection::Malformed));
}

#[test]
fn last_dot_is_found() {
    assert_eq!(find_last_dot(""), None);
    assert_eq!(find_last_dot("abc"), None);
    assert_eq!(find_last_dot("."), Some(0));
    assert_eq!(find_last_dot("a.b.c"), Some(3));
    assert_eq!(find_last_dot("a.b."), Some(3));
    assert_eq!(find_last_dot("é.ü"), Some(1));
}

#[test]
fn bearer_prefix_is_required() {
    assert_eq!(take_bearer_token("Bearer abc"), Some("abc"));
    assert_eq!(take_bearer_token("Bearer "), Some(""));
    assert_eq!(take_bearer_token("Bearer"), None);
    assert_eq!(take_bearer_token("Bearerabc"), None);
    assert_eq!(take_bearer_token("bearer abc"), None);
    assert_eq!(take_bearer_token("Basic abc"), None);
    assert_eq!(take_bearer_token(""), None);
    assert_eq!(take_bearer_token("Bearer é"), Some("é"));
}

#[test]
fn header_comes_before_cookie() {
    let both = RequestCredentials {
        authorization: Some("Bearer from-header".to_string()),
        token_cookie: Some("from-cookie".to_string()),
    };
    assert_eq!(extract_token(&both), Ok("from-header"));
    let cookie = RequestCredentials { authorization: None, token_cookie: Some("from-cookie".to_string()) };
    assert_eq!(extract_token(&cookie), Ok("from-cookie"));
    let bad_header = RequestCredentials {
        authorization: Some("Token abc".to_string()),
        token_cookie: Some("from-cookie".to_string()),
    };
    assert_eq!(extract_token(&bad_header), Err(GuardRejection::TokenFormatError));
    let none = RequestCredentials { authorization: None, token_cookie: None };
    assert_eq!(extract_token(&none), Err(GuardRejection::MissingCredential));
}

#[test]
fn floor_is_applied_to_the_role() {
    let claims = |role| Ok(TokenClaims { exp: 9, user_id: 4, user_role: role });
    let who = |role| Ok(UserDigest { user_id: 4, user_role: role });
    for role in [RoleEnum::User, RoleEnum::Staff, RoleEnum::Admin] {
        assert_eq!(apply_floor(RoleEnum::User, claims(role)), who(role));
    }
    assert_eq!(apply_floor(RoleEnum::Staff, claims(RoleEnum::User)), Err(GuardRejection::PermissionDenied));
    assert_eq!(apply_floor(RoleEnum::Staff, claims(RoleEnum::Staff)), who(RoleEnum::Staff));
    assert_eq!(apply_floor(RoleEnum::Staff, claims(RoleEnum::Admin)), who(RoleEnum::Admin));
    assert_eq!(apply_floor(RoleEnum::Admin, claims(RoleEnum::User)), Err(GuardRejection::PermissionDenied));
    assert_eq!(apply_floor(RoleEnum::Admin, claims(RoleEnum::Staff)), Err(GuardRejection::PermissionDenied));
    assert_eq!(apply_floor(RoleEnum::Admin, claims(RoleEnum::Admin)), who(RoleEnum::Admin));
    assert_eq!(
        apply_floor(RoleEnum::User, Err(Rejection::Expired)),
        Err(GuardRejection::Rejected(Rejection::Expired))
    );
}

#[test]
fn guards_let_the_right_roles_pass() {
    let key = &key();
    let user = bearer(&token_for(1, RoleEnum::User));
    let staff = bearer(&token_for(2, RoleEnum::Staff));
    let admin = bearer(&token_for(3, RoleEnum::Admin));

    assert_eq!(UserDigest::from_request(&user, T0, key), Ok(UserDigest { user_id: 1, user_role: RoleEnum::User }));
    assert_eq!(UserDigest::from_request(&staff, T0, key), Ok(UserDigest { user_id: 2, user_role: RoleEnum::Staff }));
    assert_eq!(UserDigest::from_request(&admin, T0, key), Ok(UserDigest { user_id: 3, user_role: RoleEnum::Admin }));

    assert_eq!(StaffAuth::from_request(&user, T0, key), Err(GuardRejection::PermissionDenied));
    assert_eq!(StaffAuth::from_request(&staff, T0, key), Ok(StaffAuth { user_id: 2, user_role: RoleEnum::Staff }));
    assert_eq!(StaffAuth::from_request(&admin, T0, key), Ok(StaffAuth { user_id: 3, user_role: RoleEnum::Admin }));

    assert_eq!(AdminAuth::from_request(&user, T0, key), Err(GuardRejection::PermissionDenied));
    assert_eq!(AdminAuth::from_request(&staff, T0, key), Err(GuardRejection::PermissionDenied));
    assert_eq!(AdminAuth::from_request(&admin, T0, key), Ok(AdminAuth));
}

#[test]
fn guards_reject_bad_credentials() {
    let key = &key();
    let nothing = RequestCredentials { authorization: None, token_cookie: None };
    assert_eq!(guard(RoleEnum::User, &nothing, T0, key), Err(GuardRejection::MissingCredential));
    assert_eq!(AdminAuth::from_request(&nothing, T0, key), Err(GuardRejection::MissingCredential));

    let token = token_for(3, RoleEnum::Admin);
    let wrong_prefix = RequestCredentials { authorization: Some(format!("Token {}", token)), token_cookie: None };
    assert_eq!(guard(RoleEnum::User, &wrong_prefix, T0, key), Err(GuardRejection::TokenFormatError));

    let late = T0 + TOKEN_VALIDITY_SECONDS;
    assert_eq!(
        guard(RoleEnum::User, &bearer(&token), late, key),
        Err(GuardRejection::Rejected(Rejection::Expired))
    );
    assert_eq!(
        StaffAuth::from_request(&bearer("garbage"), T0, key),
        Err(GuardRejection::Rejected(Rejection::Malformed))
    );
    let forged = tamper(&token, token.len() - 3);
    assert_eq!(
        AdminAuth::from_request(&bearer(&forged), T0, key),
        Err(GuardRejection::Rejected(Rejection::BadSignature))
    );

    let cookie = RequestCredentials { authorization: None, token_cookie: Some(token) };
    assert_eq!(AdminAuth::from_request(&cookie, T0, key), Ok(AdminAuth));
}

#[test]
fn rejections_map_to_errors_and_statuses() {
    assert_eq!(GuardRejection::MissingCredential.error(), GenericError::AuthError);
    assert_eq!(GuardRejection::TokenFormatError.error(), GenericError::TokenError);
    assert_eq!(GuardRejection::Rejected(Rejection::Expired).error(), GenericError::AuthError);
    assert_eq!(GuardRejection::Rejected(Rejection::Malformed).error(), GenericError::AuthError);
    assert_eq!(GuardRejection::Rejected(Rejection::BadSignature).error(), GenericError::AuthError);
    assert_eq!(GuardRejection::PermissionDenied.error(), GenericError::PermissionDeniedError);
    assert_eq!(GuardRejection::MissingCredential.error().status(), 401);
    assert_eq!(GuardRejection::TokenFormatError.error().status(), 401);
    assert_eq!(GuardRejection::PermissionDenied.error().status(), 403);
}

#[test]
fn cookie_carries_the_token() {
    let cookie = gen_token_cookie(9, RoleEnum::Staff, T0, &key()).expect("a cookie");
    assert_eq!(cookie.name, "token");
    assert_eq!(cookie.expires, T0 + 604800);
    assert_eq!(cookie.value, token_for(9, RoleEnum::Staff));
    assert_eq!(
        verify(&cookie.value, T0 + 5, &key()),
        Ok(TokenClaims { exp: T0 + 604800, user_id: 9, user_role: RoleEnum::Staff })
    );
    assert!(gen_token_cookie(9, RoleEnum::Staff, i64::MAX, &key()).is_err());
}

#[test]
fn own_password_verifies() {
    let digest = hash_password("correct horse", "saltsaltsalt").expect("a digest");
    assert!(verify_password("correct horse", &digest));
    assert!(!verify_password("correct horsf", &digest));
    assert!(!verify_password("", &digest));
    assert!(!verify_password("correct horse ", &digest));
}

#[test]
fn digest_is_deterministic_and_salted() {
    let a = hash_password("secret", "saltsaltsalt").expect("a digest");
    let b = hash_password("secret", "saltsaltsalt").expect("a digest");
    let c = hash_password("secret", "othersaltsalt").expect("a digest");
    assert_eq!(a, b);
    assert_ne!(a, c);
    assert_ne!(a, "secret");
    assert!(a.starts_with("$argon2"));
}

#[test]
fn known_digest() {
    assert_eq!(
        hash_password("password", "somesalt"),
        Ok("$argon2i$v=19$m=4096,t=3,p=1$c29tZXNhbHQ$iWh06vD8Fy27wf9npn6FXWiCX4K6pW6Ue1Bnzz07Z8A".to_string())
    );
    assert!(verify_password(
        "password",
        "$argon2i$v=19$m=4096,t=3,p=1$c29tZXNhbHQ$iWh06vD8Fy27wf9npn6FXWiCX4K6pW6Ue1Bnzz07Z8A"
    ));
}

#[test]
fn short_salt_is_an_internal_error() {
    assert_eq!(hash_password("secret", "short"), Err(GenericError::ServerInternalError));
    assert_eq!(hash_password("secret", ""), Err(GenericError::ServerInternalError));
}

#[test]
fn unreadable_digest_fails_closed() {
    assert!(!verify_password("secret", "not a digest"));
    assert!(!verify_password("secret", ""));
    assert!(!verify_password("secret", "$argon2i$v=19$m=4096,t=3,p=1$c29tZXNhbHQ"));
}
