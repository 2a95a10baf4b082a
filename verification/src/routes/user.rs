//! The handlers for accounts.

use vstd::prelude::*;
use vstd::string::StringSliceAdditionalSpecFns;
use vstd::utf8::encode_utf8;
use crate::auth::admin_auth::AdminAuth;
use crate::auth::jwt::{jwt_token, CodecKey, SigningScheme};
use crate::auth::password::{argon2_digest, argon2_matches, hash_password, verify_encoded};
use crate::auth::user_auth::{
    cannot_issue, gen_token_cookie, issued_claims, members_of, TokenCookie, UserDigest, TOKEN_VALIDITY_SECONDS,
};
use crate::auxiliary::responses::GenericError;
use crate::models::users::{
    ClientChangeRoleData, ClientRemoveUserData, ClientUsernamePasswordData, ClientWechatLoginData,
    NewUserData, RoleEnum, User, UserLoggedInDigest, UserStatistics,
};
use crate::routes::flow::{
    ends_with, failure, failure_of, page_offset, Reply, Request, Step, PAGE_SIZE,
};
use crate::routes::reports::ends_finished;
use crate::text::same_text;

verus! {

/// What a client gets when it has logged in: the cookie with its credential,
/// and what it may know of its account.
#[derive(Debug, PartialEq, Eq)]
pub struct LoggedIn {
    pub cookie: TokenCookie,
    pub digest: UserLoggedInDigest,
}

/// Whether a handler ends here by logging `user` in at `now`: with a cookie
/// that carries a credential for the id and the role of the account, or, where
/// no credential could be issued, with an internal error. Under a shared
/// secret the error comes only where the expiry cannot be written or signing
/// the claims gives no token.
pub open spec fn logs_in(step: Step<LoggedIn>, user: User, now: i64, key: CodecKey) -> bool {
    match step {
        Step::Done(Ok(granted)) => {
            &&& now + TOKEN_VALIDITY_SECONDS <= i64::MAX
            &&& granted.cookie.name@ == "token"@
            &&& granted.cookie.expires == now + TOKEN_VALIDITY_SECONDS
            &&& jwt_token(
                key.scheme,
                members_of(issued_claims(user.id, user.user_role, now as int)),
                key.material@,
            ) == Some(granted.cookie.value@)
            &&& granted.digest.username == user.username
            &&& granted.digest.user_role == user.user_role
        },
        Step::Done(Err(e)) => {
            &&& e == GenericError::ServerInternalError
            &&& key.scheme == SigningScheme::Hs256 ==> cannot_issue(
                user.id,
                user.user_role,
                now,
                key,
            )
        },
        Step::Ask(_) => false,
    }
}

/// Logs an account in: issues its credential and wraps it in the cookie.
pub fn grant(user: User, now: i64, key: &CodecKey) -> (out: Step<LoggedIn>)
    ensures
        logs_in(out, user, now, *key),
        now + TOKEN_VALIDITY_SECONDS > i64::MAX ==> out matches Step::Done(Err(_)),
{
    match gen_token_cookie(user.id, user.user_role, now, key) {
        Ok(cookie) => Step::Done(
            Ok(
                LoggedIn {
                    cookie,
                    digest: UserLoggedInDigest {
                        username: user.username,
                        user_role: user.user_role,
                    },
                },
            ),
        ),
        Err(_) => Step::Done(Err(GenericError::ServerInternalError)),
    }
}

/// Tells the caller what account it is logged in with.
pub fn verify_login(event: Reply, user_digest: UserDigest) -> (out: Step<UserLoggedInDigest>)
    ensures
        match event {
            Reply::Begin => out matches Step::Ask(Request::FindUser { id }) && id
                == user_digest.user_id,
            Reply::User(user) => out == Step::Done(
                Ok::<UserLoggedInDigest, GenericError>(
                    UserLoggedInDigest { username: user.username, user_role: user.user_role },
                ),
            ),
            other => ends_with(out, failure_of(other)),
        },
{
    match event {
        Reply::Begin => Step::Ask(Request::FindUser { id: user_digest.user_id }),
        Reply::User(user) => Step::Done(
            Ok(UserLoggedInDigest { username: user.username, user_role: user.user_role }),
        ),
        other => Step::Done(Err(failure(&other))),
    }
}

/// What the check of a password means for a login: no answer is an
/// authentication error, a mismatch is a wrong password.
pub open spec fn spec_password_verdict(checked: Option<bool>) -> Result<(), GenericError> {
    match checked {
        None => Err(GenericError::AuthError),
        Some(false) => Err(GenericError::PasswordIncorrectError),
        Some(true) => Ok(()),
    }
}

/// What the check of a password means for a login.
pub fn password_verdict(checked: Option<bool>) -> (out: Result<(), GenericError>)
    ensures
        out == spec_password_verdict(checked),
{
    match checked {
        None => Err(GenericError::AuthError),
        Some(false) => Err(GenericError::PasswordIncorrectError),
        Some(true) => Ok(()),
    }
}

/// Logs a user in by name and password. An account that cannot be loaded
/// does not exist as far as the client is told. An account without a
/// password digest cannot log in this way. The password is checked against
/// the digest; then the credential is issued.
pub fn login(
    event: Reply,
    login_data: &ClientUsernamePasswordData,
    now: i64,
    key: &CodecKey,
) -> (out: Step<LoggedIn>)
    ensures
        match event {
            Reply::Begin => {
                &&& out matches Step::Ask(Request::FindUserByName { username })
                &&& username@ == login_data.username@
            },
            Reply::User(user) => match user.password_hashed {
                None => ends_with(out, GenericError::PasswordNotSetError),
                Some(digest) => match spec_password_verdict(
                    argon2_matches(digest@, encode_utf8(login_data.password@)),
                ) {
                    Err(e) => ends_with(out, e),
                    Ok(_) => logs_in(out, user, now, *key),
                },
            },
            _ => ends_with(out, GenericError::UserNotExistError),
        },
{
    match event {
        Reply::Begin => Step::Ask(
            Request::FindUserByName { username: login_data.username.clone() },
        ),
        Reply::User(user) => {
            let checked = match &user.password_hashed {
                None => { return Step::Done(Err(GenericError::PasswordNotSetError)); },
                Some(digest) => verify_encoded(
                    digest.as_str(),
                    login_data.password.as_str().as_bytes(),
                ),
            };
            match password_verdict(checked) {
                Err(e) => Step::Done(Err(e)),
                Ok(_) => grant(user, now, key),
            }
        },
        _ => Step::Done(Err(GenericError::UserNotExistError)),
    }
}

/// Where a registration stands.
#[derive(Clone, Copy, Debug, PartialEq, Eq, Structural)]
pub enum RegisterState {
    /// Waiting to learn whether the name is taken.
    AwaitLookup,
    /// Waiting for the account to be inserted.
    AwaitInsert,
    Finished,
}

/// Whether `user` is the account that a registration with `data` stores at
/// `now`: a plain user with the name and the digest of the password under
/// `salt`, and nothing else.
pub open spec fn is_registration(
    user: NewUserData,
    data: ClientUsernamePasswordData,
    salt: Seq<char>,
    now: i64,
) -> bool {
    &&& user.username matches Some(name) && name@ == data.username@
    &&& user.password_hashed matches Some(digest) && argon2_digest(
        encode_utf8(data.password@),
        encode_utf8(salt),
    ) == Some(digest@)
    &&& user.user_role == RoleEnum::User
    &&& user.wechat_id is None
    &&& user.phone_number is None
    &&& user.sign_up_time == now
}

/// Registers a user by name and password. A name that some account has
/// already is refused. Where the lookup finds no account, or fails, the
/// password is hashed with the salt of the installation and the account is
/// inserted as a plain user; then the user is logged in. A digest that
/// cannot be made and an insertion that fails end in an internal error.
pub fn register(
    state: RegisterState,
    event: Reply,
    register_data: &ClientUsernamePasswordData,
    salt: &str,
    now: i64,
    key: &CodecKey,
) -> (out: (RegisterState, Step<LoggedIn>))
    ensures
        match (state, event) {
            (RegisterState::AwaitLookup, Reply::Begin) => {
                &&& out.0 == RegisterState::AwaitLookup
                &&& out.1 matches Step::Ask(Request::FindUserByName { username })
                &&& username@ == register_data.username@
            },
            (RegisterState::AwaitLookup, Reply::User(_)) => out.0 is Finished && ends_with(
                out.1,
                GenericError::UserAlreadyExistsError,
            ),
            (RegisterState::AwaitLookup, _) => if argon2_digest(
                encode_utf8(register_data.password@),
                salt.spec_bytes(),
            ) is Some {
                &&& out.0 == RegisterState::AwaitInsert
                &&& out.1 matches Step::Ask(Request::InsertUser { user })
                &&& is_registration(user, *register_data, salt@, now)
            } else {
                out.0 is Finished && ends_with(out.1, GenericError::ServerInternalError)
            },
            (RegisterState::AwaitInsert, Reply::User(inserted)) => {
                out.0 is Finished && logs_in(out.1, inserted, now, *key)
            },
            (_, _) => out.0 is Finished && ends_with(out.1, GenericError::ServerInternalError),
        },
{
    match (state, event) {
        (RegisterState::AwaitLookup, Reply::Begin) => (
            RegisterState::AwaitLookup,
            Step::Ask(Request::FindUserByName { username: register_data.username.clone() }),
        ),
        (RegisterState::AwaitLookup, Reply::User(_)) => (
            RegisterState::Finished,
            Step::Done(Err(GenericError::UserAlreadyExistsError)),
        ),
        (RegisterState::AwaitLookup, _) => {
            match hash_password(register_data.password.as_str(), salt) {
                Err(e) => (RegisterState::Finished, Step::Done(Err(e))),
                Ok(digest) => (
                    RegisterState::AwaitInsert,
                    Step::Ask(
                        Request::InsertUser {
                            user: NewUserData {
                                username: Some(register_data.username.clone()),
                                wechat_id: None,
                                user_role: RoleEnum::User,
                                password_hashed: Some(digest),
                                phone_number: None,
                                sign_up_time: now,
                            },
                        },
                    ),
                ),
            }
        },
        (RegisterState::AwaitInsert, Reply::User(inserted)) => (
            RegisterState::Finished,
            grant(inserted, now, key),
        ),
        (_, _) => (RegisterState::Finished, Step::Done(Err(GenericError::ServerInternalError))),
    }
}

/// Lists one page of the accounts of a role.
pub fn get_users(event: Reply, page: i32, filter: RoleEnum) -> (out: Step<Vec<User>>)
    ensures
        match event {
            Reply::Begin => if page >= 0 {
                &&& out matches Step::Ask(Request::ListUsers { role, limit, offset })
                &&& role == Some(filter)
                &&& limit == PAGE_SIZE
                &&& offset == page * PAGE_SIZE
            } else {
                ends_with(out, GenericError::InvalidInputError)
            },
            Reply::Users(rows) => out == Step::Done(Ok::<Vec<User>, GenericError>(rows)),
            other => ends_with(out, failure_of(other)),
        },
{
    match event {
        Reply::Begin => match page_offset(page) {
            Ok(offset) => Step::Ask(
                Request::ListUsers { role: Some(filter), limit: PAGE_SIZE, offset },
            ),
            Err(e) => Step::Done(Err(e)),
        },
        Reply::Users(rows) => Step::Done(Ok(rows)),
        other => Step::Done(Err(failure(&other))),
    }
}

/// Lists one page of all accounts.
pub fn get_all_users(event: Reply, page: i32) -> (out: Step<Vec<User>>)
    ensures
        match event {
            Reply::Begin => if page >= 0 {
                &&& out matches Step::Ask(Request::ListUsers { role, limit, offset })
                &&& role is None
                &&& limit == PAGE_SIZE
                &&& offset == page * PAGE_SIZE
            } else {
                ends_with(out, GenericError::InvalidInputError)
            },
            Reply::Users(rows) => out == Step::Done(Ok::<Vec<User>, GenericError>(rows)),
            other => ends_with(out, failure_of(other)),
        },
{
    match event {
        Reply::Begin => match page_offset(page) {
            Ok(offset) => Step::Ask(Request::ListUsers { role: None, limit: PAGE_SIZE, offset }),
            Err(e) => Step::Done(Err(e)),
        },
        Reply::Users(rows) => Step::Done(Ok(rows)),
        other => Step::Done(Err(failure(&other))),
    }
}

/// Changes the role of an account. A write that changes no row ends in an
/// internal error.
pub fn change_user_role(
    event: Reply,
    change_user_role_data: ClientChangeRoleData,
    _admin: AdminAuth,
) -> (out: Step<String>)
    ensures
        match event {
            Reply::Begin => {
                &&& out matches Step::Ask(Request::WriteRole { user_id, role })
                &&& user_id == change_user_role_data.user_id
                &&& role == change_user_role_data.new_role
            },
            Reply::Rows(n) => if n == 0 {
                ends_with(out, GenericError::ServerInternalError)
            } else {
                ends_finished(out)
            },
            other => ends_with(out, failure_of(other)),
        },
{
    match event {
        Reply::Begin => Step::Ask(
            Request::WriteRole {
                user_id: change_user_role_data.user_id,
                role: change_user_role_data.new_role,
            },
        ),
        Reply::Rows(n) => {
            if n == 0 {
                Step::Done(Err(GenericError::ServerInternalError))
            } else {
                Step::Done(Ok("完成".to_owned()))
            }
        },
        other => Step::Done(Err(failure(&other))),
    }
}

/// Removes an account. Anything but exactly one removed row ends in an
/// internal error.
pub fn remove_user(event: Reply, remove_user_data: ClientRemoveUserData, _admin: AdminAuth) -> (out:
    Step<String>)
    ensures
        match event {
            Reply::Begin => out matches Step::Ask(Request::DeleteUser { id }) && id
                == remove_user_data.user_id,
            Reply::Rows(n) => if n == 1 {
                ends_finished(out)
            } else {
                ends_with(out, GenericError::ServerInternalError)
            },
            other => ends_with(out, failure_of(other)),
        },
{
    match event {
        Reply::Begin => Step::Ask(Request::DeleteUser { id: remove_user_data.user_id }),
        Reply::Rows(n) => {
            if n == 1 {
                Step::Done(Ok("完成".to_owned()))
            } else {
                Step::Done(Err(GenericError::ServerInternalError))
            }
        },
        other => Step::Done(Err(failure(&other))),
    }
}

/// Where a change of password stands.
#[derive(Clone, Copy, Debug, PartialEq, Eq, Structural)]
pub enum ChangePasswordState {
    AwaitUser,
    AwaitWrite,
    Finished,
}

/// Changes the password of the caller. The name that was sent must be the
/// name of the caller's own account; an account without a name, and any
/// other name, end in `PermissionDeniedError`. The new password is hashed
/// with the salt of the installation and written. Anything but exactly one
/// changed row ends in an internal error, and so does a digest that cannot be
/// made.
pub fn change_password(
    state: ChangePasswordState,
    event: Reply,
    change_password_data: &ClientUsernamePasswordData,
    user_digest: UserDigest,
    salt: &str,
) -> (out: (ChangePasswordState, Step<String>))
    ensures
        match (state, event) {
            (ChangePasswordState::AwaitUser, Reply::Begin) => {
                &&& out.0 == ChangePasswordState::AwaitUser
                &&& out.1 matches Step::Ask(Request::FindUser { id })
                &&& id == user_digest.user_id
            },
            (ChangePasswordState::AwaitUser, Reply::User(user)) => {
                if !(user.username matches Some(name) && name@ == change_password_data.username@) {
                    out.0 is Finished && ends_with(out.1, GenericError::PermissionDeniedError)
                } else {
                    match argon2_digest(
                        encode_utf8(change_password_data.password@),
                        salt.spec_bytes(),
                    ) {
                        None => out.0 is Finished && ends_with(
                            out.1,
                            GenericError::ServerInternalError,
                        ),
                        Some(made) => {
                            &&& out.0 == ChangePasswordState::AwaitWrite
                            &&& out.1 matches Step::Ask(
                                Request::WritePassword { user_id, digest },
                            )
                            &&& user_id == user_digest.user_id
                            &&& digest@ == made
                        },
                    }
                }
            },
            (ChangePasswordState::AwaitWrite, Reply::Rows(n)) => if n == 1 {
                out.0 is Finished && ends_finished(out.1)
            } else {
                out.0 is Finished && ends_with(out.1, GenericError::ServerInternalError)
            },
            (_, other) => out.0 is Finished && ends_with(out.1, failure_of(other)),
        },
{
    match (state, event) {
        (ChangePasswordState::AwaitUser, Reply::Begin) => (
            ChangePasswordState::AwaitUser,
            Step::Ask(Request::FindUser { id: user_digest.user_id }),
        ),
        (ChangePasswordState::AwaitUser, Reply::User(user)) => {
            let own = match &user.username {
                Some(name) => same_text(name.as_str(), change_password_data.username.as_str()),
                None => false,
            };
            if !own {
                return (
                    ChangePasswordState::Finished,
                    Step::Done(Err(GenericError::PermissionDeniedError)),
                );
            }
            match hash_password(change_password_data.password.as_str(), salt) {
                Err(e) => (ChangePasswordState::Finished, Step::Done(Err(e))),
                Ok(digest) => (
                    ChangePasswordState::AwaitWrite,
                    Step::Ask(Request::WritePassword { user_id: user_digest.user_id, digest }),
                ),
            }
        },
        (ChangePasswordState::AwaitWrite, Reply::Rows(n)) => {
            if n == 1 {
                (ChangePasswordState::Finished, Step::Done(Ok("完成".to_owned())))
            } else {
                (
                    ChangePasswordState::Finished,
                    Step::Done(Err(GenericError::ServerInternalError)),
                )
            }
        },
        (_, other) => (ChangePasswordState::Finished, Step::Done(Err(failure(&other)))),
    }
}

/// Logs the caller out. The answer tells whether there is a `token` cookie to
/// take away, and carries the message for the client. Logging out always
/// succeeds.
pub fn logout(has_token_cookie: bool) -> (out: (bool, String))
    ensures
        out.0 == has_token_cookie,
        out.1@ == crate::routes::reports::finished_text(),
{
    (has_token_cookie, "完成".to_owned())
}

/// The address at which a login code is redeemed.
pub open spec fn spec_openid_url(appid: Seq<char>, secret: Seq<char>, code: Seq<char>) -> Seq<
    char,
> {
    "https://api.weixin.qq.com/sns/oauth2/access_token?appid="@ + appid + "&secret="@ + secret
        + "&code="@ + code + "&grant_type=authorization_code"@
}

/// The address at which the identity provider tells who a user is.
pub open spec fn spec_userinfo_url(access_token: Seq<char>, openid: Seq<char>) -> Seq<char> {
    "https://api.weixin.qq.com/sns/userinfo?access_token="@ + access_token + "&openid="@ + openid
        + "&lang=zh_CN"@
}

/// The address at which a login code is redeemed.
pub fn openid_url(appid: &str, secret: &str, code: &str) -> (url: String)
    ensures
        url@ == spec_openid_url(appid@, secret@, code@),
{
    let mut url: String = "https://api.weixin.qq.com/sns/oauth2/access_token?appid=".to_owned();
    url.append(appid);
    url.append("&secret=");
    url.append(secret);
    url.append("&code=");
    url.append(code);
    url.append("&grant_type=authorization_code");
    url
}

/// The address at which the identity provider tells who a user is.
pub fn userinfo_url(access_token: &str, openid: &str) -> (url: String)
    ensures
        url@ == spec_userinfo_url(access_token@, openid@),
{
    let mut url: String = "https://api.weixin.qq.com/sns/userinfo?access_token=".to_owned();
    url.append(access_token);
    url.append("&openid=");
    url.append(openid);
    url.append("&lang=zh_CN");
    url
}

/// Where a login through the identity provider stands.
#[derive(Debug, PartialEq, Eq)]
pub enum WechatLoginState {
    /// Waiting for the provider to redeem the code.
    AwaitOpenId,
    /// Waiting to learn whether an account has this identity.
    AwaitLookup { access_token: String, openid: String },
    /// Waiting for the provider to tell who the user is.
    AwaitUserinfo { openid: String },
    /// Waiting for the new account to be inserted.
    AwaitInsert,
    Finished,
}

/// Whether `user` is the account stored for someone who logs in through the
/// identity provider for the first time: a plain user under the provider's
/// nickname, known by the provider's identity, without a password.
pub open spec fn is_provider_account(
    user: NewUserData,
    nickname: Seq<char>,
    openid: Seq<char>,
    now: i64,
) -> bool {
    &&& user.username matches Some(name) && name@ == nickname
    &&& user.wechat_id matches Some(id) && id@ == openid
    &&& user.user_role == RoleEnum::User
    &&& user.password_hashed is None
    &&& user.phone_number is None
    &&& user.sign_up_time == now
}

/// Logs a user in through the identity provider. The code is redeemed for an
/// identity; an account with that identity is logged in. Where there is none
/// the provider is asked who the user is, an account is stored for them, and
/// that account is logged in. A provider that fails ends the handler with the
/// error of the step at which it failed.
pub fn wechat_login(
    state: WechatLoginState,
    event: Reply,
    wechat_login_data: &ClientWechatLoginData,
    appid: &str,
    secret: &str,
    now: i64,
    key: &CodecKey,
) -> (out: (WechatLoginState, Step<LoggedIn>))
    ensures
        match (state, event) {
            (WechatLoginState::AwaitOpenId, Reply::Begin) => {
                &&& out.0 is AwaitOpenId
                &&& out.1 matches Step::Ask(Request::FetchOpenId { url })
                &&& url@ == spec_openid_url(appid@, secret@, wechat_login_data.code@)
            },
            (WechatLoginState::AwaitOpenId, Reply::OpenId(redeemed)) => {
                &&& out.0 matches WechatLoginState::AwaitLookup { access_token, openid }
                &&& access_token@ == redeemed.access_token@
                &&& openid@ == redeemed.openid@
                &&& out.1 matches Step::Ask(Request::FindUserByWechat { openid: wanted })
                &&& wanted@ == redeemed.openid@
            },
            (WechatLoginState::AwaitOpenId, _) => out.0 is Finished && ends_with(
                out.1,
                GenericError::GetWechatOpenIdError,
            ),
            (WechatLoginState::AwaitLookup { .. }, Reply::User(user)) => {
                out.0 is Finished && logs_in(out.1, user, now, *key)
            },
            (WechatLoginState::AwaitLookup { access_token, openid }, Reply::NoUser) => {
                &&& out.0 matches WechatLoginState::AwaitUserinfo { openid: kept }
                &&& kept@ == openid@
                &&& out.1 matches Step::Ask(Request::FetchUserinfo { url })
                &&& url@ == spec_userinfo_url(access_token@, openid@)
            },
            (WechatLoginState::AwaitUserinfo { openid }, Reply::Userinfo(info)) => {
                &&& out.0 is AwaitInsert
                &&& out.1 matches Step::Ask(Request::InsertUser { user })
                &&& is_provider_account(user, info.nickname@, openid@, now)
            },
            (WechatLoginState::AwaitUserinfo { .. }, _) => out.0 is Finished && ends_with(
                out.1,
                GenericError::GetWechatUserinfoError,
            ),
            (WechatLoginState::AwaitInsert, Reply::User(inserted)) => {
                out.0 is Finished && logs_in(out.1, inserted, now, *key)
            },
            (_, other) => out.0 is Finished && ends_with(out.1, failure_of(other)),
        },
{
    match (state, event) {
        (WechatLoginState::AwaitOpenId, Reply::Begin) => (
            WechatLoginState::AwaitOpenId,
            Step::Ask(
                Request::FetchOpenId {
                    url: openid_url(appid, secret, wechat_login_data.code.as_str()),
                },
            ),
        ),
        (WechatLoginState::AwaitOpenId, Reply::OpenId(redeemed)) => {
            let wanted = redeemed.openid.clone();
            (
                WechatLoginState::AwaitLookup {
                    access_token: redeemed.access_token,
                    openid: redeemed.openid,
                },
                Step::Ask(Request::FindUserByWechat { openid: wanted }),
            )
        },
        (WechatLoginState::AwaitOpenId, _) => (
            WechatLoginState::Finished,
            Step::Done(Err(GenericError::GetWechatOpenIdError)),
        ),
        (WechatLoginState::AwaitLookup { .. }, Reply::User(user)) => (
            WechatLoginState::Finished,
            grant(user, now, key),
        ),
        (WechatLoginState::AwaitLookup { access_token, openid }, Reply::NoUser) => {
            let url = userinfo_url(access_token.as_str(), openid.as_str());
            (WechatLoginState::AwaitUserinfo { openid }, Step::Ask(Request::FetchUserinfo { url }))
        },
        (WechatLoginState::AwaitUserinfo { openid }, Reply::Userinfo(info)) => (
            WechatLoginState::AwaitInsert,
            Step::Ask(
                Request::InsertUser {
                    user: NewUserData {
                        username: Some(info.nickname),
                        wechat_id: Some(openid),
                        user_role: RoleEnum::User,
                        password_hashed: None,
                        phone_number: None,
                        sign_up_time: now,
                    },
                },
            ),
        ),
        (WechatLoginState::AwaitUserinfo { .. }, _) => (
            WechatLoginState::Finished,
            Step::Done(Err(GenericError::GetWechatUserinfoError)),
        ),
        (WechatLoginState::AwaitInsert, Reply::User(inserted)) => (
            WechatLoginState::Finished,
            grant(inserted, now, key),
        ),
        (_, other) => (WechatLoginState::Finished, Step::Done(Err(failure(&other)))),
    }
}

/// Where the counting of the accounts stands: which count is awaited, and
/// the counts that came in so far.
#[derive(Clone, Copy, Debug, PartialEq, Eq, Structural)]
pub enum UserStatisticsState {
    AwaitTotal,
    AwaitAdmin { total: i64 },
    AwaitUser { total: i64, admin: i64 },
    AwaitStaff { total: i64, admin: i64, user: i64 },
    Finished,
}

/// Whether a handler asks here for the number of accounts of `wanted`.
pub open spec fn asks_users(step: Step<UserStatistics>, wanted: Option<RoleEnum>) -> bool {
    step matches Step::Ask(Request::CountUsers { role }) && role == wanted
}

/// Counts the accounts: all of them, then administrators, users and staff.
/// The first count that fails ends the handler.
pub fn get_user_statistics(state: UserStatisticsState, event: Reply, _admin: AdminAuth) -> (out: (
    UserStatisticsState,
    Step<UserStatistics>,
))
    ensures
        match (state, event) {
            (UserStatisticsState::AwaitTotal, Reply::Begin) => {
                out.0 == UserStatisticsState::AwaitTotal && asks_users(out.1, None)
            },
            (UserStatisticsState::AwaitTotal, Reply::Count(total)) => {
                out.0 == UserStatisticsState::AwaitAdmin { total } && asks_users(
                    out.1,
                    Some(RoleEnum::Admin),
                )
            },
            (UserStatisticsState::AwaitAdmin { total }, Reply::Count(admin)) => {
                out.0 == UserStatisticsState::AwaitUser { total, admin } && asks_users(
                    out.1,
                    Some(RoleEnum::User),
                )
            },
            (UserStatisticsState::AwaitUser { total, admin }, Reply::Count(user)) => {
                out.0 == UserStatisticsState::AwaitStaff { total, admin, user } && asks_users(
                    out.1,
                    Some(RoleEnum::Staff),
                )
            },
            (UserStatisticsState::AwaitStaff { total, admin, user }, Reply::Count(staff)) => {
                out.0 is Finished && out.1 == Step::Done(
                    Ok::<UserStatistics, GenericError>(
                        UserStatistics { total, admin, staff, user },
                    ),
                )
            },
            (_, other) => out.0 is Finished && ends_with(out.1, failure_of(other)),
        },
{
    match (state, event) {
        (UserStatisticsState::AwaitTotal, Reply::Begin) => (
            UserStatisticsState::AwaitTotal,
            Step::Ask(Request::CountUsers { role: None }),
        ),
        (UserStatisticsState::AwaitTotal, Reply::Count(total)) => (
            UserStatisticsState::AwaitAdmin { total },
            Step::Ask(Request::CountUsers { role: Some(RoleEnum::Admin) }),
        ),
        (UserStatisticsState::AwaitAdmin { total }, Reply::Count(admin)) => (
            UserStatisticsState::AwaitUser { total, admin },
            Step::Ask(Request::CountUsers { role: Some(RoleEnum::User) }),
        ),
        (UserStatisticsState::AwaitUser { total, admin }, Reply::Count(user)) => (
            UserStatisticsState::AwaitStaff { total, admin, user },
            Step::Ask(Request::CountUsers { role: Some(RoleEnum::Staff) }),
        ),
        (UserStatisticsState::AwaitStaff { total, admin, user }, Reply::Count(staff)) => (
            UserStatisticsState::Finished,
            Step::Done(Ok(UserStatistics { total, admin, staff, user })),
        ),
        (_, other) => (UserStatisticsState::Finished, Step::Done(Err(failure(&other)))),
    }
}

} // verus!
