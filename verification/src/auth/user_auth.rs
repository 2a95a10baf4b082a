//! The credential codec and the guard that any logged-in user passes.

use vstd::prelude::*;
use crate::auth::jwt::{
    check_signature, claim_views, decode_payload, json_integer, json_text, jwt_payload,
    jwt_token, read_json_integer, read_json_text, sign_claims, signature_holds, Claim,
    ClaimValue, ClaimValueView, ClaimView, CodecKey, SigningScheme,
};
use crate::auxiliary::responses::GenericError;
use crate::models::users::RoleEnum;

verus! {

/// How long a credential stays valid after it was issued: seven days, in
/// seconds.
pub const TOKEN_VALIDITY_SECONDS: i64 = 604800;

/// Why the codec refuses a token.
#[derive(Clone, Copy, Debug, PartialEq, Eq, Structural)]
pub enum Rejection {
    /// The token was good once; its time is over.
    Expired,
    /// The token cannot be read, or does not hold the claims it must hold.
    Malformed,
    /// The signature is not that of the token's content under the key.
    BadSignature,
}

/// What a credential says: who it was issued to, with which role, and the
/// second, counted from the epoch, at which it stops being valid.
#[derive(Clone, Copy, Debug, PartialEq, Eq, Structural)]
pub struct TokenClaims {
    pub exp: i64,
    pub user_id: i32,
    pub user_role: RoleEnum,
}

/// The claims as they were found in a token, before anything is known of
/// their values. A claim that is missing or of the wrong kind is `None`.
#[derive(Debug, PartialEq, Eq)]
pub struct RawClaims {
    pub exp: Option<i64>,
    pub user_id: Option<i64>,
    pub user_role: Option<String>,
}

/// The mathematical content of [`RawClaims`].
pub struct RawClaimsView {
    pub exp: Option<int>,
    pub user_id: Option<int>,
    pub user_role: Option<Seq<char>>,
}

impl View for RawClaims {
    type V = RawClaimsView;

    open spec fn view(&self) -> RawClaimsView {
        RawClaimsView {
            exp: match self.exp {
                Some(n) => Some(n as int),
                None => None,
            },
            user_id: match self.user_id {
                Some(n) => Some(n as int),
                None => None,
            },
            user_role: match self.user_role {
                Some(t) => Some(t@),
                None => None,
            },
        }
    }
}

/// The claims written into a credential issued at `now`.
pub open spec fn issued_claims(user_id: i32, user_role: RoleEnum, now: int) -> TokenClaims
    recommends
        now + TOKEN_VALIDITY_SECONDS <= i64::MAX,
        now >= i64::MIN,
{
    TokenClaims { exp: (now + TOKEN_VALIDITY_SECONDS) as i64, user_id, user_role }
}

/// The claims that a token carries, by name: the expiry, the subject and the
/// role.
pub open spec fn members_of(claims: TokenClaims) -> Seq<ClaimView> {
    seq![
        ClaimView { name: "exp"@, value: ClaimValueView::Integer(claims.exp as int) },
        ClaimView { name: "user_id"@, value: ClaimValueView::Integer(claims.user_id as int) },
        ClaimView {
            name: "user_role"@,
            value: ClaimValueView::Text(claims.user_role.spec_name()),
        },
    ]
}

/// The claims found in the JSON object of a token.
pub open spec fn raw_claims(json: Seq<char>) -> RawClaimsView {
    RawClaimsView {
        exp: json_integer(json, "exp"@),
        user_id: json_integer(json, "user_id"@),
        user_role: json_text(json, "user_role"@),
    }
}

/// What a token holds once its claims were read back unchanged.
pub open spec fn raw_of(claims: TokenClaims) -> RawClaimsView {
    RawClaimsView {
        exp: Some(claims.exp as int),
        user_id: Some(claims.user_id as int),
        user_role: Some(claims.user_role.spec_name()),
    }
}

/// The judgement on the claims of a token whose signature holds. All three
/// claims must be there, the subject must fit 32 signed bits and the role must
/// be one of the three names; then the token is good strictly before its
/// expiry and expired from that second on.
pub open spec fn accept(raw: RawClaimsView, now: int) -> Result<TokenClaims, Rejection> {
    if raw.exp is None || raw.user_id is None || raw.user_role is None {
        Err(Rejection::Malformed)
    } else if raw.exp->0 < i64::MIN || raw.exp->0 > i64::MAX {
        Err(Rejection::Malformed)
    } else if raw.user_id->0 < i32::MIN || raw.user_id->0 > i32::MAX {
        Err(Rejection::Malformed)
    } else if RoleEnum::spec_from_name(raw.user_role->0) is None {
        Err(Rejection::Malformed)
    } else if now >= raw.exp->0 {
        Err(Rejection::Expired)
    } else {
        Ok(
            TokenClaims {
                exp: raw.exp->0 as i64,
                user_id: raw.user_id->0 as i32,
                user_role: RoleEnum::spec_from_name(raw.user_role->0)->0,
            },
        )
    }
}

/// The place of the last dot in a token, which parts the signed content from
/// the signature.
pub open spec fn last_dot(token: Seq<char>) -> Option<int>
    decreases token.len(),
{
    if token.len() == 0 {
        None
    } else if token.last() == '.' {
        Some(token.len() - 1)
    } else {
        last_dot(token.drop_last())
    }
}

/// The judgement on a token at the second `now`, under the checking key
/// `key`. A token without a dot is malformed. A token whose signature
/// check does not succeed has a bad signature, whatever else it holds. A
/// token that cannot be decoded after that is malformed. Else its claims
/// decide.
pub open spec fn spec_verify(token: Seq<char>, now: int, key: CodecKey) -> Result<
    TokenClaims,
    Rejection,
> {
    match last_dot(token) {
        None => Err(Rejection::Malformed),
        Some(dot) => {
            let message = token.subrange(0, dot);
            let signature = token.subrange(dot + 1, token.len() as int);
            if signature_holds(key.scheme, signature, message, key.material@) != Some(true) {
                Err(Rejection::BadSignature)
            } else {
                match jwt_payload(key.scheme, token, key.material@) {
                    None => Err(Rejection::Malformed),
                    Some(json) => accept(raw_claims(json), now),
                }
            }
        },
    }
}

impl RawClaims {
    /// Judges the claims of a token whose signature holds.
    pub fn accept(&self, now: i64) -> (out: Result<TokenClaims, Rejection>)
        ensures
            out == accept(self@, now as int),
    {
        let (exp, user_id, role_name) = match (&self.exp, &self.user_id, &self.user_role) {
            (Some(exp), Some(user_id), Some(role_name)) => (*exp, *user_id, role_name),
            _ => { return Err(Rejection::Malformed); },
        };
        if user_id < -2147483648 || user_id > 2147483647 {
            return Err(Rejection::Malformed);
        }
        let user_role = match RoleEnum::from_name(role_name.as_str()) {
            Some(role) => role,
            None => { return Err(Rejection::Malformed); },
        };
        if now >= exp {
            return Err(Rejection::Expired);
        }
        Ok(TokenClaims { exp, user_id: user_id as i32, user_role })
    }
}

impl TokenClaims {
    /// The claims of a credential issued at `now`, or nothing where its
    /// expiry cannot be written in 64 signed bits.
    pub fn issued(user_id: i32, user_role: RoleEnum, now: i64) -> (claims: Option<TokenClaims>)
        ensures
            claims == if now + TOKEN_VALIDITY_SECONDS <= i64::MAX {
                Some(issued_claims(user_id, user_role, now as int))
            } else {
                None
            },
    {
        match now.checked_add(TOKEN_VALIDITY_SECONDS) {
            Some(exp) => Some(TokenClaims { exp, user_id, user_role }),
            None => None,
        }
    }

    /// The claims as a token carries them, by name.
    pub fn members(&self) -> (list: Vec<Claim>)
        ensures
            claim_views(list@) == members_of(*self),
    {
        let mut list: Vec<Claim> = Vec::new();
        list.push(Claim { name: "exp".to_owned(), value: ClaimValue::Integer(self.exp) });
        list.push(
            Claim { name: "user_id".to_owned(), value: ClaimValue::Integer(self.user_id as i64) },
        );
        list.push(
            Claim { name: "user_role".to_owned(), value: ClaimValue::Text(self.user_role.name()) },
        );
        assert(claim_views(list@) =~= members_of(*self));
        list
    }
}

/// Finds the last dot of a token.
pub fn find_last_dot(token: &str) -> (dot: Option<usize>)
    ensures
        match dot {
            Some(i) => last_dot(token@) == Some(i as int),
            None => last_dot(token@) is None,
        },
        dot matches Some(i) ==> i < token@.len(),
{
    let mut end: usize = token.unicode_len();
    assert(token@.subrange(0, end as int) =~= token@);
    while end > 0
        invariant
            end <= token@.len(),
            last_dot(token@) == last_dot(token@.subrange(0, end as int)),
        decreases end,
    {
        proof {
            let head = token@.subrange(0, end as int);
            assert(head.last() == token@[end - 1]);
            assert(head.drop_last() =~= token@.subrange(0, end - 1));
        }
        if token.get_char(end - 1) == '.' {
            return Some(end - 1);
        }
        end -= 1;
    }
    proof {
        assert(token@.subrange(0, token@.len() as int) =~= token@);
    }
    None
}

/// Reads the three claims out of the JSON object of a token.
pub fn read_claims(json: &str) -> (raw: RawClaims)
    ensures
        raw@ == raw_claims(json@),
{
    RawClaims {
        exp: read_json_integer(json, "exp"),
        user_id: read_json_integer(json, "user_id"),
        user_role: read_json_text(json, "user_role"),
    }
}

/// Checks a token at the second `now` against `key`: the shared secret, or
/// the public half of the RSA key.
/// Either the claims come back, or one rejection: never both, and never
/// claims with a warning.
pub fn verify(token: &str, now: i64, key: &CodecKey) -> (out: Result<TokenClaims, Rejection>)
    ensures
        out == spec_verify(token@, now as int, *key),
{
    let dot = match find_last_dot(token) {
        Some(dot) => dot,
        None => { return Err(Rejection::Malformed); },
    };
    let len: usize = token.unicode_len();
    let message = token.substring_char(0, dot);
    let signature = token.substring_char(dot + 1, len);
    match check_signature(key.scheme, signature, message, key.material.as_slice()) {
        Some(true) => {},
        _ => { return Err(Rejection::BadSignature); },
    }
    match decode_payload(key.scheme, token, key.material.as_slice()) {
        None => Err(Rejection::Malformed),
        Some(json) => read_claims(json.as_str()).accept(now),
    }
}

/// What becomes of the outcome of signing: the token, or the error that
/// tells that none could be made.
pub fn token_or_error(signed: Option<String>) -> (out: Result<String, GenericError>)
    ensures
        out == match signed {
            Some(token) => Ok::<String, GenericError>(token),
            None => Err::<String, GenericError>(GenericError::TokenError),
        },
{
    match signed {
        Some(token) => Ok(token),
        None => Err(GenericError::TokenError),
    }
}

/// Whether no credential can be issued for `user_id` with `user_role` at
/// `now` under `key`: the expiry cannot be written, or signing the claims
/// gives no token.
pub open spec fn cannot_issue(user_id: i32, user_role: RoleEnum, now: i64, key: CodecKey) -> bool {
    now + TOKEN_VALIDITY_SECONDS > i64::MAX || jwt_token(
        key.scheme,
        members_of(issued_claims(user_id, user_role, now as int)),
        key.material@,
    ) is None
}

/// Issues a credential for `user_id` with `user_role` at the second `now`,
/// signed with `key`: the shared secret, or the private RSA key. It is valid
/// for seven days. Where the expiry cannot be written, or signing fails, the
/// outcome is `TokenError`. With a shared secret that is the only way to
/// fail: the call succeeds unless the expiry cannot be written or signing
/// the claims gives no token. With an RSA key signing may also fail for want
/// of random numbers, and then nothing more is promised.
pub fn issue(user_id: i32, user_role: RoleEnum, now: i64, key: &CodecKey) -> (out: Result<
    String,
    GenericError,
>)
    ensures
        out matches Ok(token) ==> now + TOKEN_VALIDITY_SECONDS <= i64::MAX && jwt_token(
            key.scheme,
            members_of(issued_claims(user_id, user_role, now as int)),
            key.material@,
        ) == Some(token@),
        out matches Err(e) ==> e == GenericError::TokenError,
        now + TOKEN_VALIDITY_SECONDS > i64::MAX ==> out is Err,
        key.scheme == SigningScheme::Hs256 && out is Err ==> cannot_issue(
            user_id,
            user_role,
            now,
            *key,
        ),
{
    let claims = match TokenClaims::issued(user_id, user_role, now) {
        Some(claims) => claims,
        None => { return Err(GenericError::TokenError); },
    };
    let members = claims.members();
    token_or_error(sign_claims(key.scheme, &members, key.material.as_slice()))
}

/// A credential issued at `t0` is accepted `delta` seconds later exactly
/// while `delta` is less than the validity window, and is expired from then
/// on. This speaks of the claims as they were signed: it holds of every
/// token whose signature holds and whose claims are read back unchanged.
pub proof fn issued_claims_valid_within_window(
    user_id: i32,
    user_role: RoleEnum,
    t0: int,
    delta: int,
)
    requires
        i64::MIN <= t0,
        t0 + TOKEN_VALIDITY_SECONDS <= i64::MAX,
    ensures
        accept(raw_of(issued_claims(user_id, user_role, t0)), t0 + delta) == if delta
            < TOKEN_VALIDITY_SECONDS {
            Ok::<TokenClaims, Rejection>(issued_claims(user_id, user_role, t0))
        } else {
            Err::<TokenClaims, Rejection>(Rejection::Expired)
        },
{
    crate::models::users::role_name_round_trip(user_role);
}

/// The same for the token itself: a token whose signature holds under the
/// key, and from which the claims issued at `t0` are read back, is accepted
/// `delta` seconds after `t0` exactly while `delta` is less than the validity
/// window, and is expired from then on.
pub proof fn faithful_token_valid_within_window(
    token: Seq<char>,
    key: CodecKey,
    user_id: i32,
    user_role: RoleEnum,
    t0: int,
    delta: int,
)
    requires
        i64::MIN <= t0,
        t0 + TOKEN_VALIDITY_SECONDS <= i64::MAX,
        last_dot(token) matches Some(dot) && signature_holds(
            key.scheme,
            token.subrange(dot + 1, token.len() as int),
            token.subrange(0, dot),
            key.material@,
        ) == Some(true),
        jwt_payload(key.scheme, token, key.material@) matches Some(json) && raw_claims(json)
            == raw_of(issued_claims(user_id, user_role, t0)),
    ensures
        spec_verify(token, t0 + delta, key) == if delta < TOKEN_VALIDITY_SECONDS {
            Ok::<TokenClaims, Rejection>(issued_claims(user_id, user_role, t0))
        } else {
            Err::<TokenClaims, Rejection>(Rejection::Expired)
        },
{
    issued_claims_valid_within_window(user_id, user_role, t0, delta);
}

/// A token whose signature check does not succeed is rejected for its
/// signature, at every time and whatever its claims say.
pub proof fn bad_signature_always_rejected(token: Seq<char>, now: int, key: CodecKey)
    requires
        last_dot(token) matches Some(dot) && signature_holds(
            key.scheme,
            token.subrange(dot + 1, token.len() as int),
            token.subrange(0, dot),
            key.material@,
        ) != Some(true),
    ensures
        spec_verify(token, now, key) == Err::<TokenClaims, Rejection>(
            Rejection::BadSignature,
        ),
{
}

/// Verification fails closed: whenever claims come back, the signature check
/// succeeded, the token was decoded, and the time is strictly before the
/// expiry that the claims carry.
pub proof fn verify_fails_closed(token: Seq<char>, now: int, key: CodecKey)
    ensures
        spec_verify(token, now, key) matches Ok(claims) ==> {
            &&& last_dot(token) matches Some(dot) && signature_holds(
                key.scheme,
                token.subrange(dot + 1, token.len() as int),
                token.subrange(0, dot),
                key.material@,
            ) == Some(true)
            &&& jwt_payload(key.scheme, token, key.material@) is Some
            &&& now < claims.exp
        },
{
}

/// The credentials that a request carries: the `Authorization` header and the
/// `token` cookie, each as it was sent.
#[derive(Debug, PartialEq, Eq)]
pub struct RequestCredentials {
    pub authorization: Option<String>,
    pub token_cookie: Option<String>,
}

/// Why a guard turns a request away.
#[derive(Clone, Copy, Debug, PartialEq, Eq, Structural)]
pub enum GuardRejection {
    /// The request carries neither header nor cookie.
    MissingCredential,
    /// The header does not begin with `Bearer` and a space.
    TokenFormatError,
    /// The codec refused the token.
    Rejected(Rejection),
    /// The token is good, the role is too low.
    PermissionDenied,
}

impl GuardRejection {
    /// The error with which the rejection reaches the client.
    pub open spec fn spec_error(self) -> GenericError {
        match self {
            GuardRejection::MissingCredential => GenericError::AuthError,
            GuardRejection::TokenFormatError => GenericError::TokenError,
            GuardRejection::Rejected(_) => GenericError::AuthError,
            GuardRejection::PermissionDenied => GenericError::PermissionDeniedError,
        }
    }

    /// The error with which the rejection reaches the client.
    pub fn error(self) -> (e: GenericError)
        ensures
            e == self.spec_error(),
            e.spec_status() == if self == GuardRejection::PermissionDenied {
                403u16
            } else {
                401u16
            },
    {
        match self {
            GuardRejection::MissingCredential => GenericError::AuthError,
            GuardRejection::TokenFormatError => GenericError::TokenError,
            GuardRejection::Rejected(_) => GenericError::AuthError,
            GuardRejection::PermissionDenied => GenericError::PermissionDeniedError,
        }
    }
}

/// Who is behind a request, once a guard has let it pass.
#[derive(Clone, Copy, Debug, PartialEq, Eq, Structural)]
pub struct UserDigest {
    pub user_id: i32,
    pub user_role: RoleEnum,
}

/// The token inside an `Authorization` header: what follows `Bearer` and one
/// space.
pub open spec fn bearer_token(header: Seq<char>) -> Option<Seq<char>> {
    if crate::text::has_prefix(header, "Bearer "@) {
        Some(header.subrange(7, header.len() as int))
    } else {
        None
    }
}

/// The token that a request presents. The header is looked at first, and a
/// header of the wrong form is an error even when a cookie is there. The
/// cookie counts only where there is no header.
pub open spec fn presented_token(creds: &RequestCredentials) -> Result<Seq<char>, GuardRejection> {
    match creds.authorization {
        Some(header) => match bearer_token(header@) {
            Some(token) => Ok(token),
            None => Err(GuardRejection::TokenFormatError),
        },
        None => match creds.token_cookie {
            Some(cookie) => Ok(cookie@),
            None => Err(GuardRejection::MissingCredential),
        },
    }
}

/// What a guard that asks for `floor` makes of the codec's judgement.
pub open spec fn floor_applied(floor: RoleEnum, judged: Result<TokenClaims, Rejection>) -> Result<
    UserDigest,
    GuardRejection,
> {
    match judged {
        Err(why) => Err(GuardRejection::Rejected(why)),
        Ok(claims) => if claims.user_role.rank() >= floor.rank() {
            Ok(UserDigest { user_id: claims.user_id, user_role: claims.user_role })
        } else {
            Err(GuardRejection::PermissionDenied)
        },
    }
}

/// The decision of a guard that asks for `floor`, as a function of the
/// credentials, the time and the key.
pub open spec fn spec_guard(
    floor: RoleEnum,
    creds: &RequestCredentials,
    now: int,
    key: CodecKey,
) -> Result<UserDigest, GuardRejection> {
    match presented_token(creds) {
        Err(why) => Err(why),
        Ok(token) => floor_applied(floor, spec_verify(token, now, key)),
    }
}

/// Takes the token out of an `Authorization` header.
pub fn take_bearer_token(header: &str) -> (token: Option<&str>)
    ensures
        match token {
            Some(t) => bearer_token(header@) == Some(t@),
            None => bearer_token(header@) is None,
        },
{
    proof {
        reveal_strlit("Bearer ");
    }
    if crate::text::starts_with(header, "Bearer ") {
        Some(header.substring_char(7, header.unicode_len()))
    } else {
        None
    }
}

/// Finds the token that a request presents.
pub fn extract_token(creds: &RequestCredentials) -> (token: Result<&str, GuardRejection>)
    ensures
        match token {
            Ok(t) => presented_token(creds) == Ok::<Seq<char>, GuardRejection>(t@),
            Err(why) => presented_token(creds) == Err::<Seq<char>, GuardRejection>(why),
        },
{
    match &creds.authorization {
        Some(header) => match take_bearer_token(header.as_str()) {
            Some(token) => Ok(token),
            None => Err(GuardRejection::TokenFormatError),
        },
        None => match &creds.token_cookie {
            Some(cookie) => Ok(cookie.as_str()),
            None => Err(GuardRejection::MissingCredential),
        },
    }
}

/// Applies the floor of a guard to the codec's judgement on a token.
pub fn apply_floor(floor: RoleEnum, judged: Result<TokenClaims, Rejection>) -> (out: Result<
    UserDigest,
    GuardRejection,
>)
    ensures
        out == floor_applied(floor, judged),
{
    match judged {
        Err(why) => Err(GuardRejection::Rejected(why)),
        Ok(claims) => if claims.user_role.at_least(floor) {
            Ok(UserDigest { user_id: claims.user_id, user_role: claims.user_role })
        } else {
            Err(GuardRejection::PermissionDenied)
        },
    }
}

/// Decides whether a request may pass a guard that asks for `floor`. The
/// decision depends on the credentials, the time and the key, and on nothing
/// else.
pub fn guard(floor: RoleEnum, creds: &RequestCredentials, now: i64, key: &CodecKey) -> (out:
    Result<UserDigest, GuardRejection>)
    ensures
        out == spec_guard(floor, creds, now as int, *key),
{
    match extract_token(creds) {
        Err(why) => Err(why),
        Ok(token) => apply_floor(floor, verify(token, now, key)),
    }
}

impl UserDigest {
    /// The guard that any logged-in user passes.
    pub fn from_request(creds: &RequestCredentials, now: i64, key: &CodecKey) -> (out: Result<
        UserDigest,
        GuardRejection,
    >)
        ensures
            out == spec_guard(RoleEnum::User, creds, now as int, *key),
            out != Err::<UserDigest, GuardRejection>(GuardRejection::PermissionDenied),
    {
        guard(RoleEnum::User, creds, now, key)
    }
}

/// Who a request comes from, where it need not come from anyone.
#[derive(Clone, Copy, Debug, PartialEq, Eq, Structural)]
pub enum Identity {
    /// The request carries no credential.
    Anonymous,
    User(UserDigest),
    Staff(UserDigest),
    Admin(UserDigest),
}

/// The identity that good claims stand for.
pub open spec fn identity_of(claims: TokenClaims) -> Identity {
    let who = UserDigest { user_id: claims.user_id, user_role: claims.user_role };
    match claims.user_role {
        RoleEnum::User => Identity::User(who),
        RoleEnum::Staff => Identity::Staff(who),
        RoleEnum::Admin => Identity::Admin(who),
    }
}

/// The identity behind a request, as a function of the credentials, the time
/// and the key. A request without credentials is anonymous. A request that
/// carries a credential must carry a good one.
pub open spec fn spec_identify(creds: &RequestCredentials, now: int, key: CodecKey) -> Result<
    Identity,
    GuardRejection,
> {
    match presented_token(creds) {
        Err(GuardRejection::MissingCredential) => Ok(Identity::Anonymous),
        Err(why) => Err(why),
        Ok(token) => match spec_verify(token, now, key) {
            Err(why) => Err(GuardRejection::Rejected(why)),
            Ok(claims) => Ok(identity_of(claims)),
        },
    }
}

/// Tells who a request comes from, for handlers that serve anonymous
/// callers too.
pub fn identify(creds: &RequestCredentials, now: i64, key: &CodecKey) -> (out: Result<
    Identity,
    GuardRejection,
>)
    ensures
        out == spec_identify(creds, now as int, *key),
{
    match extract_token(creds) {
        Err(GuardRejection::MissingCredential) => Ok(Identity::Anonymous),
        Err(why) => Err(why),
        Ok(token) => match verify(token, now, key) {
            Err(why) => Err(GuardRejection::Rejected(why)),
            Ok(claims) => {
                let who = UserDigest { user_id: claims.user_id, user_role: claims.user_role };
                match claims.user_role {
                    RoleEnum::User => Ok(Identity::User(who)),
                    RoleEnum::Staff => Ok(Identity::Staff(who)),
                    RoleEnum::Admin => Ok(Identity::Admin(who)),
                }
            },
        },
    }
}

impl Identity {
    /// The logged-in user behind the identity, if there is one.
    pub fn digest(self) -> (who: Option<UserDigest>)
        ensures
            who == match self {
                Identity::Anonymous => None,
                Identity::User(d) | Identity::Staff(d) | Identity::Admin(d) => Some(d),
            },
    {
        match self {
            Identity::Anonymous => None,
            Identity::User(d) | Identity::Staff(d) | Identity::Admin(d) => Some(d),
        }
    }
}

/// The cookie that carries a fresh credential to the client.
#[derive(Debug, PartialEq, Eq)]
pub struct TokenCookie {
    pub name: String,
    pub value: String,
    /// The second, counted from the epoch, at which the client drops it.
    pub expires: i64,
}

/// Issues a credential and wraps it in the `token` cookie, which the client
/// keeps as long as the credential is valid.
pub fn gen_token_cookie(user_id: i32, user_role: RoleEnum, now: i64, key: &CodecKey) -> (out:
    Result<TokenCookie, GenericError>)
    ensures
        out matches Ok(cookie) ==> {
            &&& cookie.name@ == "token"@
            &&& cookie.expires == now + TOKEN_VALIDITY_SECONDS
            &&& jwt_token(
                key.scheme,
                members_of(issued_claims(user_id, user_role, now as int)),
                key.material@,
            ) == Some(cookie.value@)
        },
        out matches Err(e) ==> e == GenericError::TokenError,
        now + TOKEN_VALIDITY_SECONDS > i64::MAX ==> out is Err,
        key.scheme == SigningScheme::Hs256 && out is Err ==> cannot_issue(
            user_id,
            user_role,
            now,
            *key,
        ),
{
    match issue(user_id, user_role, now, key) {
        Ok(value) => Ok(
            TokenCookie { name: "token".to_owned(), value, expires: now + TOKEN_VALIDITY_SECONDS },
        ),
        Err(e) => Err(e),
    }
}

/// The three guards are nested: what passes the guard for administrators
/// passes the guard for staff, and what passes that one passes the guard for
/// any user, with the same identity.
pub proof fn guards_are_nested(creds: &RequestCredentials, now: int, key: CodecKey)
    ensures
        spec_guard(RoleEnum::Admin, creds, now, key) is Ok ==> spec_guard(
            RoleEnum::Staff,
            creds,
            now,
            key,
        ) == spec_guard(RoleEnum::Admin, creds, now, key),
        spec_guard(RoleEnum::Staff, creds, now, key) is Ok ==> spec_guard(
            RoleEnum::User,
            creds,
            now,
            key,
        ) == spec_guard(RoleEnum::Staff, creds, now, key),
        spec_guard(RoleEnum::Staff, creds, now, key) matches Ok(who) ==> who.user_role
            != RoleEnum::User,
        spec_guard(RoleEnum::Admin, creds, now, key) matches Ok(who) ==> who.user_role
            == RoleEnum::Admin,
{
}

} // verus!
