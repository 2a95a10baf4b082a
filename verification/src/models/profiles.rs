//! Profiles: the personal data a user submits for one product.

use vstd::prelude::*;

verus! {

/// A profile as the store holds it. Times are seconds since the epoch.
#[derive(Clone, Debug, PartialEq, Eq)]
pub struct Profile {
    pub id: i32,
    pub user_id: i32,
    pub submit_time: i64,
    pub name: String,
    pub id_card_number: String,
    pub birth_date: i64,
    pub profession: String,
    pub address: String,
    pub phone: String,
    pub sample_time: Option<i64>,
}

/// A profile that is about to be stored.
#[derive(Clone, Debug, PartialEq, Eq)]
pub struct NewProfileData {
    pub user_id: i32,
    pub submit_time: i64,
    pub name: String,
    pub id_card_number: String,
    pub birth_date: i64,
    pub profession: String,
    pub address: String,
    pub phone: String,
}

/// The time at which a sample was taken.
#[derive(Clone, Copy, Debug, PartialEq, Eq, Structural)]
pub struct SampleTimeData {
    pub sample_time: i64,
}

#[derive(Clone, Copy, Debug, PartialEq, Eq, Structural)]
pub struct BindProfileData {
    pub profile_id: i32,
}

#[derive(Clone, Copy, Debug, PartialEq, Eq, Structural)]
pub struct ClientProfileData {
    pub user_id: i32,
}

/// The owner written into a profile until the logged-in user is known.
pub fn default_i32() -> (id: i32)
    ensures
        id == 0,
{
    0
}

/// The submission time written into a profile until the clock is read:
/// the epoch itself.
pub fn default_naive_date_time() -> (seconds: i64)
    ensures
        seconds == 0,
{
    0
}

/// Whole seconds in a count of milliseconds, rounded towards zero.
pub open spec fn millis_to_seconds(millis: int) -> int {
    if millis >= 0 {
        millis / 1000
    } else {
        -((-millis) / 1000)
    }
}

/// Clients send times in milliseconds; the store keeps whole seconds. The
/// fraction of a second is dropped.
pub fn deserialize_i64_to_naive_date_time(parsed_integer: i64) -> (seconds: i64)
    ensures
        seconds == millis_to_seconds(parsed_integer as int),
{
    parsed_integer / 1000
}

} // verus!
