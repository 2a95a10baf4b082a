//! The guard that only administrators pass.

use vstd::prelude::*;
use crate::auth::jwt::CodecKey;
use crate::auth::user_auth::{guard, spec_guard, GuardRejection, RequestCredentials, UserDigest};
use crate::models::users::RoleEnum;

verus! {

/// Proof that a request comes from an administrator.
#[derive(Clone, Copy, Debug, PartialEq, Eq, Structural)]
pub struct AdminAuth;

impl AdminAuth {
    /// Lets a request pass only if its credential is good and its role is
    /// `Admin`.
    pub fn from_request(creds: &RequestCredentials, now: i64, key: &CodecKey) -> (out: Result<
        AdminAuth,
        GuardRejection,
    >)
        ensures
            match out {
                Ok(_) => spec_guard(RoleEnum::Admin, creds, now as int, *key) is Ok,
                Err(why) => spec_guard(RoleEnum::Admin, creds, now as int, *key) == Err::<
                    UserDigest,
                    GuardRejection,
                >(why),
            },
    {
        match guard(RoleEnum::Admin, creds, now, key) {
            Ok(_) => Ok(AdminAuth),
            Err(why) => Err(why),
        }
    }
}

} // verus!
