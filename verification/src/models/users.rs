//! Accounts, roles and the values exchanged when logging in.

use vstd::prelude::*;
use crate::auxiliary::responses::GenericError;
use crate::text::{lowercase_of, same_text, to_lowercase};

verus! {

/// The access level of an account. The three levels form a total order:
/// `User` below `Staff` below `Admin`.
#[derive(Clone, Copy, Debug, PartialEq, Eq, Structural)]
pub enum RoleEnum {
    User,
    Staff,
    Admin,
}

impl RoleEnum {
    /// Position of the role in the order of capabilities.
    pub open spec fn rank(self) -> nat {
        match self {
            RoleEnum::User => 0,
            RoleEnum::Staff => 1,
            RoleEnum::Admin => 2,
        }
    }

    /// The role that a lowercase word stands for, if any.
    pub open spec fn spec_from_lowercase(word: Seq<char>) -> Option<RoleEnum> {
        if word == "admin"@ {
            Some(RoleEnum::Admin)
        } else if word == "user"@ {
            Some(RoleEnum::User)
        } else if word == "staff"@ {
            Some(RoleEnum::Staff)
        } else {
            None
        }
    }

    /// The name under which the role is stored and carried in credentials.
    pub open spec fn spec_name(self) -> Seq<char> {
        match self {
            RoleEnum::User => "User"@,
            RoleEnum::Staff => "Staff"@,
            RoleEnum::Admin => "Admin"@,
        }
    }

    /// The role that a stored name stands for, if any.
    pub open spec fn spec_from_name(name: Seq<char>) -> Option<RoleEnum> {
        if name == "User"@ {
            Some(RoleEnum::User)
        } else if name == "Staff"@ {
            Some(RoleEnum::Staff)
        } else if name == "Admin"@ {
            Some(RoleEnum::Admin)
        } else {
            None
        }
    }

    /// Whether an account of this role may do what `floor` is needed for.
    pub fn at_least(self, floor: RoleEnum) -> (ok: bool)
        ensures
            ok == (self.rank() >= floor.rank()),
    {
        match floor {
            RoleEnum::User => true,
            RoleEnum::Staff => !matches!(self, RoleEnum::User),
            RoleEnum::Admin => matches!(self, RoleEnum::Admin),
        }
    }

    /// Reads a role from a word that is already in lowercase.
    pub fn from_lowercase(word: &str) -> (role: Result<RoleEnum, GenericError>)
        ensures
            role == match RoleEnum::spec_from_lowercase(word@) {
                Some(r) => Ok::<RoleEnum, GenericError>(r),
                None => Err::<RoleEnum, GenericError>(GenericError::InvalidInputError),
            },
    {
        if same_text(word, "admin") {
            Ok(RoleEnum::Admin)
        } else if same_text(word, "user") {
            Ok(RoleEnum::User)
        } else if same_text(word, "staff") {
            Ok(RoleEnum::Staff)
        } else {
            Err(GenericError::InvalidInputError)
        }
    }

    /// Reads a role from a path segment, in any mix of upper and lower case.
    pub fn from_param(param: &str) -> (role: Result<RoleEnum, GenericError>)
        ensures
            role == match RoleEnum::spec_from_lowercase(lowercase_of(param@)) {
                Some(r) => Ok::<RoleEnum, GenericError>(r),
                None => Err::<RoleEnum, GenericError>(GenericError::InvalidInputError),
            },
    {
        let lowered = to_lowercase(param);
        RoleEnum::from_lowercase(lowered.as_str())
    }

    /// The name under which the role is stored and carried in credentials.
    pub fn name(self) -> (text: String)
        ensures
            text@ == self.spec_name(),
    {
        match self {
            RoleEnum::User => "User".to_owned(),
            RoleEnum::Staff => "Staff".to_owned(),
            RoleEnum::Admin => "Admin".to_owned(),
        }
    }

    /// Reads a role from its stored name. The match is exact.
    pub fn from_name(name: &str) -> (role: Option<RoleEnum>)
        ensures
            role == RoleEnum::spec_from_name(name@),
    {
        if same_text(name, "User") {
            Some(RoleEnum::User)
        } else if same_text(name, "Staff") {
            Some(RoleEnum::Staff)
        } else if same_text(name, "Admin") {
            Some(RoleEnum::Admin)
        } else {
            None
        }
    }
}

/// Every role is read back from its own stored name.
pub proof fn role_name_round_trip(role: RoleEnum)
    ensures
        RoleEnum::spec_from_name(role.spec_name()) == Some(role),
{
    reveal_strlit("User");
    reveal_strlit("Staff");
    reveal_strlit("Admin");
    assert("User"@.len() == 4 && "Staff"@.len() == 5 && "Admin"@.len() == 5);
    assert("Staff"@[0] == 'S' && "Admin"@[0] == 'A');
}

/// An account as the store holds it. Times are seconds since the epoch.
#[derive(Clone, Debug, PartialEq, Eq)]
pub struct User {
    pub id: i32,
    pub username: Option<String>,
    pub wechat_id: Option<String>,
    pub user_role: RoleEnum,
    pub password_hashed: Option<String>,
    pub phone_number: Option<i32>,
    pub sign_up_time: i64,
}

/// An account that is about to be stored.
#[derive(Clone, Debug, PartialEq, Eq)]
pub struct NewUserData {
    pub username: Option<String>,
    pub wechat_id: Option<String>,
    pub user_role: RoleEnum,
    pub password_hashed: Option<String>,
    pub phone_number: Option<i32>,
    pub sign_up_time: i64,
}

/// What a client learns about the account it is logged in with.
#[derive(Clone, Debug, PartialEq, Eq)]
pub struct UserLoggedInDigest {
    pub username: Option<String>,
    pub user_role: RoleEnum,
}

/// A name and a password, as a client sends them.
#[derive(Clone, Debug, PartialEq, Eq)]
pub struct ClientUsernamePasswordData {
    pub username: String,
    pub password: String,
}

/// What a client sends to log in.
pub type ClientLoginData = ClientUsernamePasswordData;

/// What a client sends to register.
pub type ClientRegisterData = ClientUsernamePasswordData;

#[derive(Clone, Copy, Debug, PartialEq, Eq)]
pub struct ClientChangeRoleData {
    pub user_id: i32,
    pub new_role: RoleEnum,
}

#[derive(Clone, Copy, Debug, PartialEq, Eq)]
pub struct ClientRemoveUserData {
    pub user_id: i32,
}

#[derive(Clone, Debug, PartialEq, Eq)]
pub struct ClientWechatLoginData {
    pub code: String,
}

/// What the identity provider answers when a login code is redeemed.
#[derive(Clone, Debug, PartialEq, Eq)]
pub struct WechatOpenIdResponse {
    pub access_token: String,
    pub expires_in: i32,
    pub refresh_token: String,
    pub openid: String,
    pub scope: String,
}

/// What the identity provider tells about one of its users.
#[derive(Clone, Debug, PartialEq, Eq)]
pub struct WechatUserinfoResponse {
    pub openid: String,
    pub nickname: String,
    pub sex: i32,
    pub province: String,
    pub country: String,
    pub headimgurl: String,
    pub privilege: Vec<String>,
    pub unionid: String,
}

/// How many accounts there are, in all and of each role.
#[derive(Clone, Copy, Debug, PartialEq, Eq, Structural)]
pub struct UserStatistics {
    pub total: i64,
    pub admin: i64,
    pub staff: i64,
    pub user: i64,
}

} // verus!
