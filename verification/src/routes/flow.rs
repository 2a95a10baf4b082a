//! The requests a handler can make and the replies it can get.

use vstd::prelude::*;
use crate::auxiliary::responses::{GenericError, StoreFailure};
use crate::models::products::{NewProductData, Product, StageEnum};
use crate::models::profiles::{NewProfileData, Profile};
use crate::models::reports::{NewReport, Report};
use crate::models::users::{
    NewUserData, RoleEnum, User, WechatOpenIdResponse, WechatUserinfoResponse,
};
use crate::stage_machine::StageUpdate;

verus! {

/// How many rows a page of a listing holds.
pub const PAGE_SIZE: i64 = 10;

/// One request to the record store, to the file store or to the identity
/// provider.
#[allow(inconsistent_fields)]
#[derive(Debug, PartialEq, Eq)]
pub enum Request {
    /// Count the products with this barcode.
    CountProductsByBarcode { barcode: String },
    /// Count the products at a stage, or all of them.
    CountProducts { stage: Option<StageEnum> },
    /// Insert a product.
    InsertProduct { product: NewProductData },
    /// Load the product with this barcode.
    FindProduct { barcode: String },
    /// Change the stage of the product with this barcode, if it is at one of
    /// the stages the update may start from.
    UpdateStage { barcode: String, update: StageUpdate },
    /// Load a profile.
    FindProfile { id: i32 },
    /// Insert a profile and load it back.
    InsertProfile { profile: NewProfileData },
    /// Write the sample time of a profile.
    WriteSampleTime { profile_id: i32, sample_time: i64 },
    /// Write a file into the directory of the reports.
    StoreFile { filename: String },
    /// Insert a report and load it back.
    InsertReport { report: NewReport },
    /// Delete a report.
    DeleteReport { id: u128 },
    /// Load a report.
    FindReport { id: u128 },
    /// Load the account with this name.
    FindUserByName { username: String },
    /// Load the account with this identity at the provider, if there is one.
    FindUserByWechat { openid: String },
    /// Load an account.
    FindUser { id: i32 },
    /// Insert an account and load it back.
    InsertUser { user: NewUserData },
    /// Write the password digest of an account.
    WritePassword { user_id: i32, digest: String },
    /// Write the role of an account.
    WriteRole { user_id: i32, role: RoleEnum },
    /// Delete an account.
    DeleteUser { id: i32 },
    /// Count the accounts of a role, or all of them.
    CountUsers { role: Option<RoleEnum> },
    /// Redeem a login code at this address of the identity provider.
    FetchOpenId { url: String },
    /// Ask at this address of the identity provider who a user is.
    FetchUserinfo { url: String },
    /// Load one page of the products, in the order of their ids; only those
    /// at a stage, where one is given.
    ListProducts { stage: Option<StageEnum>, limit: i64, offset: i64 },
    /// Load one page of the reports, in the order of their ids; only those of
    /// an uploader, where one is given.
    ListReports { uploader_id: Option<i32>, limit: i64, offset: i64 },
    /// Load one page of the accounts, in the order of their ids; only those
    /// of a role, where one is given.
    ListUsers { role: Option<RoleEnum>, limit: i64, offset: i64 },
    /// Load the profiles of a user.
    ListProfilesOfUser { user_id: i32 },
}

/// The reply to a request.
#[derive(Debug, PartialEq, Eq)]
pub enum Reply {
    /// Nothing was asked yet.
    Begin,
    /// The store failed.
    Failed(StoreFailure),
    /// A count.
    Count(i64),
    /// The number of rows that a write changed.
    Rows(usize),
    Product(Product),
    Profile(Profile),
    Report(Report),
    User(User),
    Products(Vec<Product>),
    Profiles(Vec<Profile>),
    Reports(Vec<Report>),
    Users(Vec<User>),
    /// The store holds no such account.
    NoUser,
    /// The file was written.
    Stored,
    /// The file could not be written.
    NotStored,
    OpenId(WechatOpenIdResponse),
    Userinfo(WechatUserinfoResponse),
    /// The identity provider could not be reached or gave no usable answer.
    ProviderFailed,
}

/// What a handler does next: it makes a request, or it is done.
#[derive(Debug, PartialEq, Eq)]
pub enum Step<T> {
    Ask(Request),
    Done(Result<T, GenericError>),
}

/// Whether a handler ends here with the error `e`.
pub open spec fn ends_with<T>(step: Step<T>, e: GenericError) -> bool {
    step matches Step::Done(Err(x)) && x == e
}

/// The error a handler ends with when the store failed, or when a reply came
/// that does not answer its request.
pub open spec fn failure_of(event: Reply) -> GenericError {
    match event {
        Reply::Failed(failure) => GenericError::StoreError(failure),
        _ => GenericError::ServerInternalError,
    }
}

/// The error a handler ends with when the store failed, or when a reply came
/// that does not answer its request.
pub fn failure(event: &Reply) -> (e: GenericError)
    ensures
        e == failure_of(*event),
{
    match event {
        Reply::Failed(failure) => GenericError::StoreError(*failure),
        _ => GenericError::ServerInternalError,
    }
}

/// The row at which a page of a listing begins, where the page has a number
/// that is not negative.
pub fn page_offset(page: i32) -> (offset: Result<i64, GenericError>)
    ensures
        offset == if page >= 0 {
            Ok::<i64, GenericError>((page * PAGE_SIZE) as i64)
        } else {
            Err::<i64, GenericError>(GenericError::InvalidInputError)
        },
{
    if page >= 0 {
        Ok(page as i64 * PAGE_SIZE)
    } else {
        Err(GenericError::InvalidInputError)
    }
}

/// Whether a user may read or change a profile: its owner may, and so may
/// staff and administrators.
pub open spec fn may_touch_profile(owner_id: i32, user_id: i32, user_role: RoleEnum) -> bool {
    owner_id == user_id || user_role.rank() >= RoleEnum::Staff.rank()
}

/// Whether a user may read or change a profile.
pub fn can_touch_profile(owner_id: i32, user_id: i32, user_role: RoleEnum) -> (yes: bool)
    ensures
        yes == may_touch_profile(owner_id, user_id, user_role),
{
    owner_id == user_id || user_role.at_least(RoleEnum::Staff)
}

} // verus!
