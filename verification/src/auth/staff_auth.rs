//! The guard that staff and administrators pass.

use vstd::prelude::*;
use crate::auth::jwt::CodecKey;
use crate::auth::user_auth::{guard, spec_guard, GuardRejection, RequestCredentials};
use crate::models::users::RoleEnum;

verus! {

/// Proof that a request comes from staff or from an administrator.
#[derive(Clone, Copy, Debug, PartialEq, Eq, Structural)]
pub struct StaffAuth {
    pub user_id: i32,
    pub user_role: RoleEnum,
}

impl StaffAuth {
    /// Lets a request pass unless its credential is missing or refused, or
    /// its role is `User`.
    pub fn from_request(creds: &RequestCredentials, now: i64, key: &CodecKey) -> (out: Result<
        StaffAuth,
        GuardRejection,
    >)
        ensures
            match out {
                Ok(staff) => spec_guard(RoleEnum::Staff, creds, now as int, *key) matches Ok(
                    who,
                ) && who.user_id == staff.user_id && who.user_role == staff.user_role
                    && staff.user_role != RoleEnum::User,
                Err(why) => spec_guard(RoleEnum::Staff, creds, now as int, *key) == Err::<
                    crate::auth::user_auth::UserDigest,
                    GuardRejection,
                >(why),
            },
    {
        match guard(RoleEnum::Staff, creds, now, key) {
            Ok(who) => Ok(StaffAuth { user_id: who.user_id, user_role: who.user_role }),
            Err(why) => Err(why),
        }
    }
}

} // verus!
