//! The access token of the identity provider, shared by all requests and
//! fetched again when it has run out.

use vstd::prelude::*;
use crate::auxiliary::responses::GenericError;

verus! {

/// How many seconds before its end a token counts as run out.
pub const EXPIRY_MARGIN_SECONDS: i64 = 360;

/// What the identity provider answers when asked for an access token.
#[derive(Debug, PartialEq, Eq)]
pub struct WechatAccessTokenResponse {
    pub access_token: String,
    pub expires_in: i32,
}

/// The access token and the second, counted from the epoch, up to which it
/// is used.
#[derive(Debug, PartialEq, Eq)]
pub struct WechatAccessToken {
    pub access_token: String,
    pub expiration_time: i64,
}

/// The second up to which a token fetched at `now` is used: its lifetime less
/// the margin, counted from `now`. The result is kept within 64 signed bits.
pub open spec fn expiration_of(now: int, expires_in: int) -> int {
    let end = now + expires_in - EXPIRY_MARGIN_SECONDS;
    if end > i64::MAX {
        i64::MAX as int
    } else if end < i64::MIN {
        i64::MIN as int
    } else {
        end
    }
}

/// The second up to which a token fetched at `now` is used.
pub fn expiration(now: i64, expires_in: i32) -> (end: i64)
    ensures
        end == expiration_of(now as int, expires_in as int),
{
    let lifetime: i64 = expires_in as i64 - EXPIRY_MARGIN_SECONDS;
    match now.checked_add(lifetime) {
        Some(end) => end,
        None => if lifetime > 0 {
            i64::MAX
        } else {
            i64::MIN
        },
    }
}

/// The address at which the access token is fetched.
pub open spec fn spec_token_url(appid: Seq<char>, secret: Seq<char>) -> Seq<char> {
    "https://api.weixin.qq.com/cgi-bin/token?grant_type=client_credential&appid="@ + appid
        + "&secret="@ + secret
}

/// The address at which the access token is fetched.
pub fn token_url(appid: &str, secret: &str) -> (url: String)
    ensures
        url@ == spec_token_url(appid@, secret@),
{
    let mut url: String =
        "https://api.weixin.qq.com/cgi-bin/token?grant_type=client_credential&appid=".to_owned();
    url.append(appid);
    url.append("&secret=");
    url.append(secret);
    url
}

/// What a caller who needs the token does next.
#[derive(Debug, PartialEq, Eq)]
pub enum TokenStep {
    /// The token is still good: here it is.
    Ready(String),
    /// The token has run out: fetch a new one and hand it to `refetch`.
    Fetch,
}

/// The shared token of the server. The program that holds it lets many
/// callers read and one at a time refresh.
#[derive(Debug, PartialEq, Eq)]
pub struct WechatAccessTokenState {
    pub state: WechatAccessToken,
}

impl WechatAccessTokenState {
    /// Takes up the first token, fetched at `now`.
    pub fn new(response: WechatAccessTokenResponse, now: i64) -> (fresh: WechatAccessTokenState)
        ensures
            fresh.state.access_token@ == response.access_token@,
            fresh.state.expiration_time == expiration_of(now as int, response.expires_in as int),
    {
        WechatAccessTokenState {
            state: WechatAccessToken {
                access_token: response.access_token,
                expiration_time: expiration(now, response.expires_in),
            },
        }
    }

    /// Replaces the token by one fetched at `now`. Where the fetch failed the
    /// old token stays and the caller learns of the failure.
    pub fn refetch(&mut self, fetched: Option<WechatAccessTokenResponse>, now: i64) -> (out:
        Result<(), GenericError>)
        ensures
            match fetched {
                Some(response) => {
                    &&& out is Ok
                    &&& final(self).state.access_token@ == response.access_token@
                    &&& final(self).state.expiration_time == expiration_of(
                        now as int,
                        response.expires_in as int,
                    )
                },
                None => {
                    &&& out == Err::<(), GenericError>(GenericError::GetWechatAccessTokenError)
                    &&& *final(self) == *old(self)
                },
            },
    {
        match fetched {
            Some(response) => {
                self.state.expiration_time = expiration(now, response.expires_in);
                self.state.access_token = response.access_token;
                Ok(())
            },
            None => Err(GenericError::GetWechatAccessTokenError),
        }
    }

    /// Hands out the token if it is still good at `now`, and asks for a fetch
    /// once `now` is past its end.
    pub fn get(&self, now: i64) -> (step: TokenStep)
        ensures
            match step {
                TokenStep::Ready(token) => now <= self.state.expiration_time && token@
                    == self.state.access_token@,
                TokenStep::Fetch => now > self.state.expiration_time,
            },
    {
        if now > self.state.expiration_time {
            TokenStep::Fetch
        } else {
            TokenStep::Ready(self.state.access_token.clone())
        }
    }
}

} // verus!
