//! The profile as the document store keeps it.

use vstd::prelude::*;

verus! {

/// One profile document. `openID` holds the login code of the identity
/// provider when the profile is sent, and the identity that the code was
/// redeemed for when the profile is stored.
#[allow(non_snake_case)]
#[derive(Clone, Debug, PartialEq, Eq)]
pub struct Profile {
    pub uuid: String,
    pub init: bool,
    pub name: String,
    pub delete: bool,
    pub gender: String,
    pub time: String,
    pub phone: String,
    pub address: String,
    pub age: i64,
    pub email: String,
    pub hospital: String,
    pub firstTime: bool,
    pub profession: String,
    pub openID: String,
}

} // verus!
