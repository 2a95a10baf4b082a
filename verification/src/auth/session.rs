//! The session credential of the document store: a token signed with a
//! shared secret, kept in the `JWT` cookie.

use vstd::prelude::*;
use vstd::string::StringSliceAdditionalSpecFns;
use crate::auth::jwt::{
    claim_views, decode_payload, json_integer, json_text, jwt_payload, jwt_token,
    read_json_integer, read_json_text, sign_claims, Claim, ClaimValue, ClaimValueView, ClaimView,
    SigningScheme,
};
use crate::auth::user_auth::TOKEN_VALIDITY_SECONDS;

verus! {

/// What a session credential says: whose session it is, and the second,
/// counted from the epoch, at which it ends.
#[derive(Debug, PartialEq, Eq)]
pub struct Claims {
    pub exp: u64,
    pub usr: String,
}

/// Proof that a request carries a good session credential.
#[derive(Clone, Copy, Debug, PartialEq, Eq, Structural)]
pub struct JWTAuthService;

/// Why a request has no session.
#[derive(Clone, Copy, Debug, PartialEq, Eq, Structural)]
pub enum SessionFailure {
    /// There is no `JWT` cookie.
    Missing,
    /// The cookie holds no good credential.
    Invalid,
}

impl SessionFailure {
    /// The message for the client.
    pub open spec fn spec_message(self) -> Seq<char> {
        match self {
            SessionFailure::Missing => "未包含认证信息！"@,
            SessionFailure::Invalid => "认证无效！"@,
        }
    }

    /// The message for the client.
    pub fn message(self) -> (text: String)
        ensures
            text@ == self.spec_message(),
    {
        match self {
            SessionFailure::Missing => "未包含认证信息！".to_owned(),
            SessionFailure::Invalid => "认证无效！".to_owned(),
        }
    }
}

/// The claims that a session token carries, by name: the expiry and the
/// user.
pub open spec fn session_members(exp: u64, usr: Seq<char>) -> Seq<ClaimView> {
    seq![
        ClaimView { name: "exp"@, value: ClaimValueView::Integer(exp as int) },
        ClaimView { name: "usr"@, value: ClaimValueView::Text(usr) },
    ]
}

/// Whether the claims found in a session token are good at `now`: the expiry
/// is a number that is not negative and lies after `now`, and the user is a
/// text.
pub open spec fn session_holds(exp: Option<int>, usr: Option<Seq<char>>, now: int) -> bool {
    exp matches Some(end) && end >= 0 && now < end && usr is Some
}

/// The session that a token stands for at `now` under `secret`, if it
/// stands for one: the token must be decoded and its claims must be good.
pub open spec fn spec_session(token: Seq<char>, secret: Seq<u8>, now: int) -> Option<
    (u64, Seq<char>),
> {
    match jwt_payload(SigningScheme::Hs256, token, secret) {
        None => None,
        Some(json) => if session_holds(json_integer(json, "exp"@), json_text(json, "usr"@), now) {
            Some((json_integer(json, "exp"@)->0 as u64, json_text(json, "usr"@)->0))
        } else {
            None
        },
    }
}

impl Claims {
    /// Judges the claims found in a session token.
    pub fn accept(exp: Option<i64>, usr: Option<String>, now: i64) -> (out: Option<Claims>)
        ensures
            match out {
                Some(claims) => {
                    &&& session_holds(
                        match exp {
                            Some(n) => Some(n as int),
                            None => None,
                        },
                        match usr {
                            Some(t) => Some(t@),
                            None => None,
                        },
                        now as int,
                    )
                    &&& claims.exp == exp->0
                    &&& claims.usr@ == usr->0@
                },
                None => !session_holds(
                    match exp {
                        Some(n) => Some(n as int),
                        None => None,
                    },
                    match usr {
                        Some(t) => Some(t@),
                        None => None,
                    },
                    now as int,
                ),
            },
    {
        match (exp, usr) {
            (Some(end), Some(usr)) => {
                if end >= 0 && now < end {
                    Some(Claims { exp: end as u64, usr })
                } else {
                    None
                }
            },
            _ => None,
        }
    }

    /// Reads the session out of a token, at the second `now` and under the
    /// shared secret.
    pub fn decode(token: &str, secret: &str, now: i64) -> (out: Option<Claims>)
        ensures
            match out {
                Some(claims) => spec_session(token@, secret.spec_bytes(), now as int) == Some(
                    (claims.exp, claims.usr@),
                ),
                None => spec_session(token@, secret.spec_bytes(), now as int) is None,
            },
    {
        match decode_payload(SigningScheme::Hs256, token, secret.as_bytes()) {
            None => None,
            Some(json) => Claims::accept(
                read_json_integer(json.as_str(), "exp"),
                read_json_text(json.as_str(), "usr"),
                now,
            ),
        }
    }

    /// The claims of a session that begins at `now`: it lasts seven days.
    /// There are none where `now` is negative or the end cannot be written.
    pub fn issued(usr: String, now: i64) -> (out: Option<Claims>)
        ensures
            match out {
                Some(claims) => 0 <= now && now + TOKEN_VALIDITY_SECONDS <= i64::MAX && claims.exp
                    == now + TOKEN_VALIDITY_SECONDS && claims.usr == usr,
                None => now < 0 || now + TOKEN_VALIDITY_SECONDS > i64::MAX,
            },
    {
        if now < 0 {
            return None;
        }
        match now.checked_add(TOKEN_VALIDITY_SECONDS) {
            Some(end) => Some(Claims { exp: end as u64, usr }),
            None => None,
        }
    }

    /// The claims as a token carries them, by name.
    pub fn members(&self) -> (list: Vec<Claim>)
        ensures
            claim_views(list@) == session_members(self.exp, self.usr@),
    {
        let mut list: Vec<Claim> = Vec::new();
        list.push(Claim { name: "exp".to_owned(), value: ClaimValue::Unsigned(self.exp) });
        list.push(Claim { name: "usr".to_owned(), value: ClaimValue::Text(self.usr.clone()) });
        assert(claim_views(list@) =~= session_members(self.exp, self.usr@));
        list
    }

    /// Signs the claims under the shared secret. Whether there is a token,
    /// and which, is what the claims and the secret determine.
    pub fn encode(&self, secret: &str) -> (token: Option<String>)
        ensures
            match token {
                Some(t) => jwt_token(
                    SigningScheme::Hs256,
                    session_members(self.exp, self.usr@),
                    secret.spec_bytes(),
                ) == Some(t@),
                None => jwt_token(
                    SigningScheme::Hs256,
                    session_members(self.exp, self.usr@),
                    secret.spec_bytes(),
                ) is None,
            },
    {
        sign_claims(SigningScheme::Hs256, &self.members(), secret.as_bytes())
    }
}

impl JWTAuthService {
    /// Lets a request pass if its `JWT` cookie holds a session that is good
    /// at `now`.
    pub fn from_request(cookie: Option<&str>, secret: &str, now: i64) -> (out: Result<
        JWTAuthService,
        SessionFailure,
    >)
        ensures
            out == match cookie {
                None => Err::<JWTAuthService, SessionFailure>(SessionFailure::Missing),
                Some(token) => if spec_session(token@, secret.spec_bytes(), now as int) is Some {
                    Ok::<JWTAuthService, SessionFailure>(JWTAuthService)
                } else {
                    Err::<JWTAuthService, SessionFailure>(SessionFailure::Invalid)
                },
            },
    {
        match cookie {
            None => Err(SessionFailure::Missing),
            Some(token) => match Claims::decode(token, secret, now) {
                Some(_) => Ok(JWTAuthService),
                None => Err(SessionFailure::Invalid),
            },
        }
    }
}

} // verus!
