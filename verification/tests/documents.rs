use medkit::auth::jwt::{Claim, ClaimValue};
use medkit::auth::password::keyed_digest;
use medkit::auth::session::{Claims, JWTAuthService, SessionFailure};
use medkit::profile::Profile;
use medkit::routes::documents::{
    fail, gen_std_json_response, get_profile, init_product, login, new_product, open_session,
    product_uuid, query_profile, random_suffix, raw_register, redeemed, session_url,
    submit_profile, succeed,
    verify_token, CreateData, DocumentReply, DocumentRequest, DocumentStep, GetData, InitData,
    InitProductState, LoginData, LoginRequest, NewProductState, OpenIDResponse, QueryData,
    RegisterState, STDJSONResponse, StoredUser, SubmitProfileState, UpdateData,
};

const SECRET: &str = "session secret";
const SALT: &str = "pepper";
const NOW: i64 = 1_700_000_000;

fn session_token(usr: &str, now: i64) -> String {
    Claims::issued(usr.to_string(), now).expect("claims").encode(SECRET).expect("a token")
}

fn draft(uuid: &str, code: &str) -> Profile {
    Profile {
        uuid: uuid.to_string(),
        init: true,
        name: "Li Lei".to_string(),
        delete: false,
        gender: "m".to_string(),
        time: "2023-11-14".to_string(),
        phone: "13800000000".to_string(),
        address: "1 Main Street".to_string(),
        age: 33,
        email: "li@example.org".to_string(),
        hospital: "General".to_string(),
        firstTime: true,
        profession: "teacher".to_string(),
        openID: code.to_string(),
    }
}

fn answer(errcode: i64, openid: Option<&str>) -> OpenIDResponse {
    OpenIDResponse {
        openid: openid.map(|o| o.to_string()),
        session_key: None,
        unionid: None,
        errcode,
        errmsg: "".to_string(),
        hint: None,
    }
}

#[test]
fn keyed_digest_matches_a_known_vector() {
    assert_eq!(
        keyed_digest("key", "The quick brown fox jumps over the lazy dog"),
        "F7BC83F430538424B13298E6AA6FB143EF4D59A14946175997479DBC2D1A3CD8"
    );
    assert_ne!(keyed_digest("key", "a"), keyed_digest("kez", "a"));
    assert_ne!(keyed_digest("key", "a"), keyed_digest("key", "b"));
    assert_eq!(keyed_digest("", "").len(), 64);
}

#[test]
fn session_round_trips() {
    let token = session_token("alice", NOW);
    let claims = Claims::decode(&token, SECRET, NOW).expect("claims");
    assert_eq!(claims.usr, "alice");
    assert_eq!(claims.exp, (NOW + 604800) as u64);
    assert!(Claims::decode(&token, SECRET, NOW + 604799).is_some());
    assert_eq!(Claims::decode(&token, SECRET, NOW + 604800), None);
    assert_eq!(Claims::decode(&token, "another secret", NOW), None);
    assert_eq!(Claims::decode("garbage", SECRET, NOW), None);
    let mut forged = token.clone();
    forged.pop();
    assert_eq!(Claims::decode(&forged, SECRET, NOW), None);
}

#[test]
fn session_names_of_every_kind_come_back() {
    for name in ["a\"b\\c\nd 小明", "", "{\"exp\":1}", "\u{0}\u{1f}"] {
        let token = session_token(name, NOW);
        assert_eq!(Claims::decode(&token, SECRET, NOW).map(|c| c.usr), Some(name.to_string()));
    }
}

#[test]
fn session_claims_are_listed_by_name() {
    let claims = Claims { exp: 12, usr: "a\"b".to_string() };
    assert_eq!(
        claims.members(),
        vec![
            Claim { name: "exp".to_string(), value: ClaimValue::Unsigned(12) },
            Claim { name: "usr".to_string(), value: ClaimValue::Text("a\"b".to_string()) },
        ]
    );
    let late = Claims { exp: u64::MAX, usr: "x".to_string() };
    let token = late.encode(SECRET).expect("a token");
    let read = jsonwebtoken::dangerous_insecure_decode::<serde_json::Value>(&token).expect("claims");
    let expected: serde_json::Value =
        serde_json::from_str("{\"exp\":18446744073709551615,\"usr\":\"x\"}").expect("json");
    assert_eq!(read.claims, expected);
}

#[test]
fn session_claims_are_judged() {
    assert_eq!(Claims::accept(Some(10), Some("u".to_string()), 9), Some(Claims { exp: 10, usr: "u".to_string() }));
    assert_eq!(Claims::accept(Some(10), Some("u".to_string()), 10), None);
    assert_eq!(Claims::accept(Some(-1), Some("u".to_string()), -5), None);
    assert_eq!(Claims::accept(None, Some("u".to_string()), 9), None);
    assert_eq!(Claims::accept(Some(10), None, 9), None);
    assert_eq!(Claims::issued("u".to_string(), -1), None);
    assert_eq!(Claims::issued("u".to_string(), i64::MAX), None);
    assert_eq!(Claims::issued("u".to_string(), 5), Some(Claims { exp: 604805, usr: "u".to_string() }));
}

#[test]
fn session_guard() {
    let token = session_token("alice", NOW);
    assert_eq!(JWTAuthService::from_request(Some(&token), SECRET, NOW + 1), Ok(JWTAuthService));
    assert_eq!(JWTAuthService::from_request(None, SECRET, NOW), Err(SessionFailure::Missing));
    assert_eq!(JWTAuthService::from_request(Some("x.y.z"), SECRET, NOW), Err(SessionFailure::Invalid));
    assert_eq!(
        JWTAuthService::from_request(Some(&token), SECRET, NOW + 604800),
        Err(SessionFailure::Invalid)
    );
    assert_eq!(SessionFailure::Missing.message(), "未包含认证信息！");
    assert_eq!(SessionFailure::Invalid.message(), "认证无效！");
}

#[test]
fn token_is_verified_for_its_user() {
    let token = session_token("alice", NOW);
    let good = verify_token(JWTAuthService, &token, SECRET, NOW);
    assert_eq!(good.success, true);
    assert_eq!(good.data.map(|d| d.username), Some("alice".to_string()));
    assert_eq!(good.errmsg, None);
    let late = verify_token(JWTAuthService, &token, SECRET, NOW + 604800);
    assert_eq!(late.success, false);
    assert_eq!(late.data, None);
    assert_eq!(late.errmsg.as_deref(), Some("认证无效！"));
}

#[test]
fn envelope_succeeds_with_data() {
    let with = gen_std_json_response(Some(InitData { exist: true }), None);
    assert_eq!(with, STDJSONResponse { success: true, data: Some(InitData { exist: true }), errmsg: None });
    let without = gen_std_json_response::<InitData>(None, Some("no".to_string()));
    assert_eq!(without, STDJSONResponse { success: false, data: None, errmsg: Some("no".to_string()) });
    let both = gen_std_json_response(Some(1), Some("odd".to_string()));
    assert_eq!(both.success, true);
    assert_eq!(fail::<InitData>("m"), DocumentStep::Done(STDJSONResponse { success: false, data: None, errmsg: Some("m".to_string()) }));
    assert_eq!(succeed(7), DocumentStep::Done(STDJSONResponse { success: true, data: Some(7), errmsg: None }));
}

#[test]
fn new_products_get_a_stamped_uuid() {
    let (state, step) = new_product(NewProductState::Start, DocumentReply::Begin, JWTAuthService, 0, 0);
    let uuid = match &state {
        NewProductState::AwaitCreate { uuid } => uuid.clone(),
        _ => panic!("not waiting"),
    };
    assert_eq!(uuid.len(), 16);
    assert_eq!(&uuid[..12], "197001010000");
    assert!(uuid[12..].chars().all(|c| c.is_ascii_digit()));
    assert_eq!(step, DocumentStep::Ask(DocumentRequest::CreateProfile { uuid: uuid.clone(), init: false, delete: Some(false) }));
    let (state, step) = new_product(state, DocumentReply::Created, JWTAuthService, 0, 0);
    assert_eq!(state, NewProductState::Finished);
    assert_eq!(step, succeed(CreateData { uuid }));
    let failed = new_product(NewProductState::AwaitCreate { uuid: "1".to_string() }, DocumentReply::Failed, JWTAuthService, 0, 0);
    assert_eq!(failed.1, fail("服务器插入错误！"));
}

#[test]
fn minute_stamp_follows_the_local_clock() {
    let at = |now: i64, offset: i32| match new_product(NewProductState::Start, DocumentReply::Begin, JWTAuthService, now, offset).0 {
        NewProductState::AwaitCreate { uuid } => Some(uuid[..12].to_string()),
        _ => None,
    };
    assert_eq!(at(NOW, 0), Some("202311142213".to_string()));
    assert_eq!(at(NOW, 8 * 3600), Some("202311150613".to_string()));
    assert_eq!(at(NOW, -5 * 3600), Some("202311141713".to_string()));
    assert_eq!(at(NOW, 86_400), None);
    assert_eq!(at(i64::MAX, 0), None);
    let none = new_product(NewProductState::Start, DocumentReply::Begin, JWTAuthService, i64::MAX, 0);
    assert_eq!(none.0, NewProductState::Finished);
    assert_eq!(none.1, fail("服务器插入错误！"));
}

#[test]
fn suffixes_are_four_digits() {
    for _ in 0..50 {
        let suffix = random_suffix();
        assert_eq!(suffix.chars().count(), 4);
        assert!(suffix.chars().all(|c| ('0'..='9').contains(&c)));
    }
    assert_eq!(product_uuid("202311142213", "0042"), "2023111422130042");
}

#[test]
fn first_scan_creates_a_draft() {
    let (state, step) = init_product(InitProductState::AwaitLookup, DocumentReply::Begin, "ab12", JWTAuthService);
    assert_eq!(state, InitProductState::AwaitLookup);
    assert_eq!(step, DocumentStep::Ask(DocumentRequest::FindProfile { uuid: "ab12".to_string() }));
    let (state, step) = init_product(state, DocumentReply::Missing, "ab12", JWTAuthService);
    assert_eq!(state, InitProductState::AwaitCreate);
    assert_eq!(step, DocumentStep::Ask(DocumentRequest::CreateProfile { uuid: "ab12".to_string(), init: false, delete: None }));
    let (state, step) = init_product(state, DocumentReply::Created, "ab12", JWTAuthService);
    assert_eq!(state, InitProductState::Finished);
    assert_eq!(step, succeed(InitData { exist: false }));
    let known = init_product(InitProductState::AwaitLookup, DocumentReply::Profile { init: false, document: None }, "ab12", JWTAuthService);
    assert_eq!(known.1, succeed(InitData { exist: true }));
    let lookup_failed = init_product(InitProductState::AwaitLookup, DocumentReply::Failed, "ab12", JWTAuthService);
    assert_eq!(lookup_failed.1, fail("数据库查询错误！"));
    let create_failed = init_product(InitProductState::AwaitCreate, DocumentReply::Failed, "ab12", JWTAuthService);
    assert_eq!(create_failed.1, fail("数据库插入错误！"));
}

#[test]
fn drafts_are_queried_and_read() {
    assert_eq!(query_profile(DocumentReply::Begin, "ab12"), DocumentStep::Ask(DocumentRequest::FindProfile { uuid: "ab12".to_string() }));
    assert_eq!(query_profile(DocumentReply::Missing, "ab12"), succeed(QueryData { exist: false, init: false }));
    assert_eq!(query_profile(DocumentReply::Profile { init: false, document: None }, "ab12"), succeed(QueryData { exist: true, init: false }));
    assert_eq!(query_profile(DocumentReply::Profile { init: true, document: None }, "ab12"), succeed(QueryData { exist: true, init: true }));
    assert_eq!(query_profile(DocumentReply::Failed, "ab12"), fail("服务器查询错误！"));

    let filled = draft("ab12", "");
    assert_eq!(get_profile(DocumentReply::Begin, "ab12", JWTAuthService), DocumentStep::Ask(DocumentRequest::FindProfile { uuid: "ab12".to_string() }));
    assert_eq!(
        get_profile(DocumentReply::Profile { init: true, document: Some(filled.clone()) }, "ab12", JWTAuthService),
        succeed(GetData { profile: filled })
    );
    assert_eq!(get_profile(DocumentReply::Profile { init: false, document: None }, "ab12", JWTAuthService), fail("档案未填写！"));
    assert_eq!(get_profile(DocumentReply::Missing, "ab12", JWTAuthService), fail("档案不存在！"));
    assert_eq!(get_profile(DocumentReply::Failed, "ab12", JWTAuthService), fail("数据库查询错误！"));
}

#[test]
fn provider_codes_are_read() {
    assert_eq!(redeemed(answer(0, Some("OPENID"))), Ok("OPENID".to_string()));
    assert_eq!(redeemed(answer(0, None)), Err("微信服务器错误！".to_string()));
    assert_eq!(redeemed(answer(-1, None)), Err("微信服务器繁忙！".to_string()));
    assert_eq!(redeemed(answer(-1, Some("OPENID"))), Err("微信服务器繁忙！".to_string()));
    assert_eq!(redeemed(answer(40029, None)), Err("用户代码无效！".to_string()));
    assert_eq!(redeemed(answer(45011, None)), Err("达到频率上限！".to_string()));
    assert_eq!(redeemed(answer(40163, None)), Err("微信服务器错误！".to_string()));
    assert_eq!(redeemed(answer(1, Some("OPENID"))), Err("微信服务器错误！".to_string()));
}

#[test]
fn profile_with_a_code_is_stored_with_the_identity() {
    let form = draft("ab12", "CODE");
    let (state, step) = submit_profile(SubmitProfileState::AwaitLookup, DocumentReply::Begin, &form, "wx1", "s2");
    assert_eq!(step, DocumentStep::Ask(DocumentRequest::FindProfile { uuid: "ab12".to_string() }));
    let (state, step) = submit_profile(state, DocumentReply::Profile { init: false, document: None }, &form, "wx1", "s2");
    assert_eq!(state, SubmitProfileState::AwaitIdentity);
    assert_eq!(
        step,
        DocumentStep::Ask(DocumentRequest::RedeemCode {
            url: "https://api.weixin.qq.com/sns/jscode2session?appid=wx1&secret=s2&js_code=CODE&grant_type=authorization_code".to_string(),
        })
    );
    assert_eq!(
        session_url("a", "b", "c"),
        "https://api.weixin.qq.com/sns/jscode2session?appid=a&secret=b&js_code=c&grant_type=authorization_code"
    );
    let (state, step) = submit_profile(state, DocumentReply::Redeemed(answer(0, Some("OPENID"))), &form, "wx1", "s2");
    assert_eq!(state, SubmitProfileState::AwaitWrite);
    assert_eq!(step, DocumentStep::Ask(DocumentRequest::SetProfile { profile: draft("ab12", "OPENID") }));
    let (state, step) = submit_profile(state, DocumentReply::Modified(1), &form, "wx1", "s2");
    assert_eq!(state, SubmitProfileState::Finished);
    assert_eq!(step, succeed(UpdateData { exist: true, init: false, updated_count: 1 }));
}

#[test]
fn profile_without_a_code_is_stored_as_it_is() {
    let form = draft("ab12", "");
    let (state, step) = submit_profile(SubmitProfileState::AwaitLookup, DocumentReply::Profile { init: false, document: None }, &form, "wx1", "s2");
    assert_eq!(state, SubmitProfileState::AwaitWrite);
    assert_eq!(step, DocumentStep::Ask(DocumentRequest::SetProfile { profile: form.clone() }));
    let (_, step) = submit_profile(state, DocumentReply::Modified(0), &form, "wx1", "s2");
    assert_eq!(step, succeed(UpdateData { exist: true, init: false, updated_count: 0 }));
}

#[test]
fn profile_submission_stops_early() {
    let form = draft("ab12", "CODE");
    let filled = submit_profile(SubmitProfileState::AwaitLookup, DocumentReply::Profile { init: true, document: None }, &form, "wx1", "s2");
    assert_eq!(filled.0, SubmitProfileState::Finished);
    assert_eq!(filled.1, succeed(UpdateData { exist: true, init: true, updated_count: 0 }));
    let missing = submit_profile(SubmitProfileState::AwaitLookup, DocumentReply::Missing, &form, "wx1", "s2");
    assert_eq!(missing.1, succeed(UpdateData { exist: false, init: false, updated_count: 0 }));
    let lookup_failed = submit_profile(SubmitProfileState::AwaitLookup, DocumentReply::Failed, &form, "wx1", "s2");
    assert_eq!(lookup_failed.1, fail("数据库查询错误！"));
    let busy = submit_profile(SubmitProfileState::AwaitIdentity, DocumentReply::Redeemed(answer(-1, None)), &form, "wx1", "s2");
    assert_eq!(busy.0, SubmitProfileState::Finished);
    assert_eq!(busy.1, fail("微信服务器繁忙！"));
    let invalid = submit_profile(SubmitProfileState::AwaitIdentity, DocumentReply::Redeemed(answer(40029, None)), &form, "wx1", "s2");
    assert_eq!(invalid.1, fail("用户代码无效！"));
    let limited = submit_profile(SubmitProfileState::AwaitIdentity, DocumentReply::Redeemed(answer(45011, None)), &form, "wx1", "s2");
    assert_eq!(limited.1, fail("达到频率上限！"));
    let unreachable = submit_profile(SubmitProfileState::AwaitIdentity, DocumentReply::Failed, &form, "wx1", "s2");
    assert_eq!(unreachable.1, fail("微信服务器错误！"));
    let write_failed = submit_profile(SubmitProfileState::AwaitWrite, DocumentReply::Failed, &form, "wx1", "s2");
    assert_eq!(write_failed.1, fail("数据库修改错误！"));
}

#[test]
fn document_login_opens_a_session() {
    let request = LoginRequest { username: "alice".to_string(), pwhashed: "sent".to_string() };
    let stored = StoredUser { username: "alice".to_string(), pwhashed: keyed_digest(SALT, "sent") };
    assert_eq!(login(DocumentReply::Begin, &request, SALT, SECRET, NOW), DocumentStep::Ask(DocumentRequest::FindUser { username: "alice".to_string() }));
    let opened = login(DocumentReply::User(stored), &request, SALT, SECRET, NOW);
    assert_eq!(opened, succeed(LoginData { token: session_token("alice", NOW) }));
    let token = match opened {
        DocumentStep::Done(answer) => answer.data.expect("data").token,
        _ => panic!("not done"),
    };
    assert_eq!(JWTAuthService::from_request(Some(&token), SECRET, NOW + 10), Ok(JWTAuthService));
    assert_eq!(Claims::decode(&token, SECRET, NOW + 10).map(|c| c.usr), Some("alice".to_string()));
}

#[test]
fn document_login_tells_failures_apart() {
    let request = LoginRequest { username: "alice".to_string(), pwhashed: "sent".to_string() };
    let wrong = StoredUser { username: "alice".to_string(), pwhashed: keyed_digest(SALT, "other") };
    assert_eq!(login(DocumentReply::User(wrong), &request, SALT, SECRET, NOW), fail("密码不正确！"));
    let lower = StoredUser { username: "alice".to_string(), pwhashed: keyed_digest(SALT, "sent").to_lowercase() };
    assert_eq!(open_session(&lower, &request, SALT, SECRET, NOW), fail("密码不正确！"));
    assert_eq!(login(DocumentReply::Missing, &request, SALT, SECRET, NOW), fail("用户名不存在！"));
    assert_eq!(login(DocumentReply::Failed, &request, SALT, SECRET, NOW), fail("数据库查询错误！"));
    let stored = StoredUser { username: "alice".to_string(), pwhashed: keyed_digest(SALT, "sent") };
    assert_eq!(open_session(&stored, &request, SALT, SECRET, i64::MAX), fail("生成JWT错误！"));
    assert_eq!(open_session(&stored, &request, SALT, SECRET, -1), fail("生成JWT错误！"));
}

#[test]
fn document_registration() {
    let request = LoginRequest { username: "alice".to_string(), pwhashed: "sent".to_string() };
    let (state, step) = raw_register(RegisterState::AwaitLookup, DocumentReply::Begin, &request, SALT);
    assert_eq!(step, DocumentStep::Ask(DocumentRequest::FindUser { username: "alice".to_string() }));
    let (state, step) = raw_register(state, DocumentReply::Missing, &request, SALT);
    assert_eq!(state, RegisterState::AwaitCreate);
    assert_eq!(
        step,
        DocumentStep::Ask(DocumentRequest::CreateUser { username: "alice".to_string(), pwhashed: keyed_digest(SALT, "sent") })
    );
    let (state, step) = raw_register(state, DocumentReply::Created, &request, SALT);
    assert_eq!(state, RegisterState::Finished);
    assert_eq!(step, succeed(medkit::routes::documents::RegisterData { username: "alice".to_string() }));
    let taken = raw_register(
        RegisterState::AwaitLookup,
        DocumentReply::User(StoredUser { username: "alice".to_string(), pwhashed: "".to_string() }),
        &request,
        SALT,
    );
    assert_eq!(taken.1, fail("用户已存在！"));
    let failed = raw_register(RegisterState::AwaitLookup, DocumentReply::Failed, &request, SALT);
    assert_eq!(failed.1, fail("数据库查询错误！"));
    let create_failed = raw_register(RegisterState::AwaitCreate, DocumentReply::Failed, &request, SALT);
    assert_eq!(create_failed.1, fail("数据库查询错误！"));
}
