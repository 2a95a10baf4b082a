//! The handlers for profiles.

use vstd::prelude::*;
use crate::auth::user_auth::UserDigest;
use crate::auxiliary::responses::GenericError;
use crate::models::products::StageEnum;
use crate::models::profiles::{BindProfileData, NewProfileData, Profile};
use crate::routes::flow::{
    can_touch_profile, ends_with, failure, failure_of, may_touch_profile, Reply, Request, Step,
};
use crate::routes::product::ends_well;
use crate::stage_machine::StageUpdate;

verus! {

/// Whether `stamped` is the profile `given` with its owner and the time of
/// its submission filled in.
pub open spec fn is_stamped(
    stamped: NewProfileData,
    given: NewProfileData,
    user_id: i32,
    now: i64,
) -> bool {
    &&& stamped.user_id == user_id
    &&& stamped.submit_time == now
    &&& stamped.name@ == given.name@
    &&& stamped.id_card_number@ == given.id_card_number@
    &&& stamped.birth_date == given.birth_date
    &&& stamped.profession@ == given.profession@
    &&& stamped.address@ == given.address@
    &&& stamped.phone@ == given.phone@
}

/// Fills the owner and the time of submission into a profile. Whatever the
/// client wrote into these two fields is overwritten.
pub fn stamp_profile(given: &NewProfileData, user_id: i32, now: i64) -> (stamped: NewProfileData)
    ensures
        is_stamped(stamped, *given, user_id, now),
{
    NewProfileData {
        user_id,
        submit_time: now,
        name: given.name.clone(),
        id_card_number: given.id_card_number.clone(),
        birth_date: given.birth_date,
        profession: given.profession.clone(),
        address: given.address.clone(),
        phone: given.phone.clone(),
    }
}

/// The answer of a submission that succeeded.
pub open spec fn submitted_text() -> Seq<char> {
    "提交成功"@
}

/// Whether a handler ends here with the message of a submission that
/// succeeded.
pub open spec fn ends_submitted(step: Step<String>) -> bool {
    step matches Step::Done(Ok(text)) && text@ == submitted_text()
}

/// Where the submission of a profile for a product stands.
#[derive(Clone, Copy, Debug, PartialEq, Eq, Structural)]
pub enum SubmitProfileState {
    AwaitProduct,
    /// Waiting for the profile to be inserted.
    AwaitProfile,
    /// Waiting for the product to be updated.
    AwaitStageWrite,
    Finished,
}

/// Submits a profile for a product. The product must be at `Initialized`;
/// any other stage ends in `ProductReuseError`. The profile is stored with
/// the caller as its owner and `now` as its time. Then one conditional update
/// links it and takes the product to `Submitted`; if that update changes no
/// row, another submission was first, and this one ends in
/// `ProductReuseError` too.
pub fn submit_profile_then_update(
    state: SubmitProfileState,
    event: Reply,
    product_barcode: &str,
    profile_data: &NewProfileData,
    user_digest: UserDigest,
    now: i64,
) -> (out: (SubmitProfileState, Step<String>))
    ensures
        match (state, event) {
            (SubmitProfileState::AwaitProduct, Reply::Begin) => {
                &&& out.0 == SubmitProfileState::AwaitProduct
                &&& out.1 matches Step::Ask(Request::FindProduct { barcode })
                &&& barcode@ == product_barcode@
            },
            (SubmitProfileState::AwaitProduct, Reply::Product(product)) => {
                if product.current_stage != StageEnum::Initialized {
                    out.0 is Finished && ends_with(out.1, GenericError::ProductReuseError)
                } else {
                    &&& out.0 == SubmitProfileState::AwaitProfile
                    &&& out.1 matches Step::Ask(Request::InsertProfile { profile })
                    &&& is_stamped(profile, *profile_data, user_digest.user_id, now)
                }
            },
            (SubmitProfileState::AwaitProfile, Reply::Profile(inserted)) => {
                &&& out.0 == SubmitProfileState::AwaitStageWrite
                &&& out.1 matches Step::Ask(Request::UpdateStage { barcode, update })
                &&& barcode@ == product_barcode@
                &&& update == StageUpdate::spec_submit(inserted.id)
            },
            (SubmitProfileState::AwaitStageWrite, Reply::Rows(n)) => if n == 0 {
                out.0 is Finished && ends_with(out.1, GenericError::ProductReuseError)
            } else {
                out.0 is Finished && ends_submitted(out.1)
            },
            (_, other) => out.0 is Finished && ends_with(out.1, failure_of(other)),
        },
{
    match (state, event) {
        (SubmitProfileState::AwaitProduct, Reply::Begin) => (
            SubmitProfileState::AwaitProduct,
            Step::Ask(Request::FindProduct { barcode: product_barcode.to_owned() }),
        ),
        (SubmitProfileState::AwaitProduct, Reply::Product(product)) => {
            if !matches!(product.current_stage, StageEnum::Initialized) {
                (SubmitProfileState::Finished, Step::Done(Err(GenericError::ProductReuseError)))
            } else {
                let profile = stamp_profile(profile_data, user_digest.user_id, now);
                (SubmitProfileState::AwaitProfile, Step::Ask(Request::InsertProfile { profile }))
            }
        },
        (SubmitProfileState::AwaitProfile, Reply::Profile(inserted)) => (
            SubmitProfileState::AwaitStageWrite,
            Step::Ask(
                Request::UpdateStage {
                    barcode: product_barcode.to_owned(),
                    update: StageUpdate::submit(inserted.id),
                },
            ),
        ),
        (SubmitProfileState::AwaitStageWrite, Reply::Rows(n)) => {
            if n == 0 {
                (SubmitProfileState::Finished, Step::Done(Err(GenericError::ProductReuseError)))
            } else {
                (SubmitProfileState::Finished, Step::Done(Ok("提交成功".to_owned())))
            }
        },
        (_, other) => (SubmitProfileState::Finished, Step::Done(Err(failure(&other)))),
    }
}

/// Stores a profile that is not bound to a product yet, with the caller as
/// its owner and `now` as its time.
pub fn submit_profile(
    event: Reply,
    user_digest: UserDigest,
    profile_data: &NewProfileData,
    now: i64,
) -> (out: Step<String>)
    ensures
        match event {
            Reply::Begin => {
                &&& out matches Step::Ask(Request::InsertProfile { profile })
                &&& is_stamped(profile, *profile_data, user_digest.user_id, now)
            },
            Reply::Profile(_) => ends_submitted(out),
            Reply::Rows(n) => if n == 0 {
                ends_with(out, GenericError::ProductReuseError)
            } else {
                ends_submitted(out)
            },
            other => ends_with(out, failure_of(other)),
        },
{
    match event {
        Reply::Begin => Step::Ask(
            Request::InsertProfile {
                profile: stamp_profile(profile_data, user_digest.user_id, now),
            },
        ),
        Reply::Profile(_) => Step::Done(Ok("提交成功".to_owned())),
        Reply::Rows(n) => {
            if n == 0 {
                Step::Done(Err(GenericError::ProductReuseError))
            } else {
                Step::Done(Ok("提交成功".to_owned()))
            }
        },
        other => Step::Done(Err(failure(&other))),
    }
}

/// Who may read a profile by its id.
#[derive(Clone, Copy, Debug, PartialEq, Eq, Structural)]
pub enum ProfileAccess {
    /// Anyone who knows the id, logged in or not.
    Public,
    /// The owner of the profile, staff and administrators.
    OwnerOrStaff,
}

/// Whether `requester` may read a profile of `owner_id` under `access`.
pub open spec fn may_read_profile(
    access: ProfileAccess,
    requester: Option<UserDigest>,
    owner_id: i32,
) -> Result<(), GenericError> {
    match access {
        ProfileAccess::Public => Ok(()),
        ProfileAccess::OwnerOrStaff => match requester {
            None => Err(GenericError::AuthError),
            Some(who) => if may_touch_profile(owner_id, who.user_id, who.user_role) {
                Ok(())
            } else {
                Err(GenericError::PermissionDeniedError)
            },
        },
    }
}

/// Reads a profile by its id. Under `Public` every caller gets it. Under
/// `OwnerOrStaff` a caller who is not logged in ends in `AuthError`, and a
/// user who asks for the profile of another ends in `PermissionDeniedError`.
pub fn get_profile(
    event: Reply,
    profile_id: i32,
    access: ProfileAccess,
    requester: Option<UserDigest>,
) -> (out: Step<Profile>)
    ensures
        match event {
            Reply::Begin => out matches Step::Ask(Request::FindProfile { id }) && id == profile_id,
            Reply::Profile(profile) => match may_read_profile(
                access,
                requester,
                profile.user_id,
            ) {
                Ok(_) => out == Step::Done(Ok::<Profile, GenericError>(profile)),
                Err(e) => ends_with(out, e),
            },
            other => ends_with(out, failure_of(other)),
        },
{
    match event {
        Reply::Begin => Step::Ask(Request::FindProfile { id: profile_id }),
        Reply::Profile(profile) => match access {
            ProfileAccess::Public => Step::Done(Ok(profile)),
            ProfileAccess::OwnerOrStaff => match requester {
                None => Step::Done(Err(GenericError::AuthError)),
                Some(who) => {
                    if can_touch_profile(profile.user_id, who.user_id, who.user_role) {
                        Step::Done(Ok(profile))
                    } else {
                        Step::Done(Err(GenericError::PermissionDeniedError))
                    }
                },
            },
        },
        other => Step::Done(Err(failure(&other))),
    }
}

/// Lists the profiles of the caller.
pub fn get_profile_by_user(event: Reply, user_digest: UserDigest) -> (out: Step<Vec<Profile>>)
    ensures
        match event {
            Reply::Begin => out matches Step::Ask(Request::ListProfilesOfUser { user_id })
                && user_id == user_digest.user_id,
            Reply::Profiles(rows) => out == Step::Done(Ok::<Vec<Profile>, GenericError>(rows)),
            other => ends_with(out, failure_of(other)),
        },
{
    match event {
        Reply::Begin => Step::Ask(Request::ListProfilesOfUser { user_id: user_digest.user_id }),
        Reply::Profiles(rows) => Step::Done(Ok(rows)),
        other => Step::Done(Err(failure(&other))),
    }
}

/// Where the binding of a stored profile to a product stands.
#[derive(Clone, Copy, Debug, PartialEq, Eq, Structural)]
pub enum BindProfileState {
    AwaitProduct,
    AwaitProfile,
    AwaitStageWrite,
    Finished,
}

/// Binds a profile that is stored already to a product. The product must be
/// at `Initialized`; the caller must own the profile or be staff or
/// administrator. One conditional update links the profile and takes the
/// product to `Submitted`; if it changes no row, the product was taken in
/// the meantime, and the handler ends in `ProductReuseError`.
pub fn bind_profile(
    state: BindProfileState,
    event: Reply,
    product_barcode: &str,
    bind_profile_data: BindProfileData,
    user_digest: UserDigest,
) -> (out: (BindProfileState, Step<String>))
    ensures
        match (state, event) {
            (BindProfileState::AwaitProduct, Reply::Begin) => {
                &&& out.0 == BindProfileState::AwaitProduct
                &&& out.1 matches Step::Ask(Request::FindProduct { barcode })
                &&& barcode@ == product_barcode@
            },
            (BindProfileState::AwaitProduct, Reply::Product(product)) => {
                if product.current_stage != StageEnum::Initialized {
                    out.0 is Finished && ends_with(out.1, GenericError::ProductReuseError)
                } else {
                    &&& out.0 == BindProfileState::AwaitProfile
                    &&& out.1 matches Step::Ask(Request::FindProfile { id })
                    &&& id == bind_profile_data.profile_id
                }
            },
            (BindProfileState::AwaitProfile, Reply::Profile(profile)) => {
                if may_touch_profile(profile.user_id, user_digest.user_id, user_digest.user_role) {
                    &&& out.0 == BindProfileState::AwaitStageWrite
                    &&& out.1 matches Step::Ask(Request::UpdateStage { barcode, update })
                    &&& barcode@ == product_barcode@
                    &&& update == StageUpdate::spec_submit(bind_profile_data.profile_id)
                } else {
                    out.0 is Finished && ends_with(out.1, GenericError::PermissionDeniedError)
                }
            },
            (BindProfileState::AwaitStageWrite, Reply::Rows(n)) => if n == 0 {
                out.0 is Finished && ends_with(out.1, GenericError::ProductReuseError)
            } else if n == 1 {
                out.0 is Finished && ends_well(out.1)
            } else {
                out.0 is Finished && ends_with(out.1, GenericError::ServerInternalError)
            },
            (_, other) => out.0 is Finished && ends_with(out.1, failure_of(other)),
        },
{
    match (state, event) {
        (BindProfileState::AwaitProduct, Reply::Begin) => (
            BindProfileState::AwaitProduct,
            Step::Ask(Request::FindProduct { barcode: product_barcode.to_owned() }),
        ),
        (BindProfileState::AwaitProduct, Reply::Product(product)) => {
            if !matches!(product.current_stage, StageEnum::Initialized) {
                (BindProfileState::Finished, Step::Done(Err(GenericError::ProductReuseError)))
            } else {
                (
                    BindProfileState::AwaitProfile,
                    Step::Ask(Request::FindProfile { id: bind_profile_data.profile_id }),
                )
            }
        },
        (BindProfileState::AwaitProfile, Reply::Profile(profile)) => {
            if can_touch_profile(profile.user_id, user_digest.user_id, user_digest.user_role) {
                (
                    BindProfileState::AwaitStageWrite,
                    Step::Ask(
                        Request::UpdateStage {
                            barcode: product_barcode.to_owned(),
                            update: StageUpdate::submit(bind_profile_data.profile_id),
                        },
                    ),
                )
            } else {
                (
                    BindProfileState::Finished,
                    Step::Done(Err(GenericError::PermissionDeniedError)),
                )
            }
        },
        (BindProfileState::AwaitStageWrite, Reply::Rows(n)) => {
            if n == 0 {
                (BindProfileState::Finished, Step::Done(Err(GenericError::ProductReuseError)))
            } else if n == 1 {
                (BindProfileState::Finished, Step::Done(Ok("成功".to_owned())))
            } else {
                (BindProfileState::Finished, Step::Done(Err(GenericError::ServerInternalError)))
            }
        },
        (_, other) => (BindProfileState::Finished, Step::Done(Err(failure(&other)))),
    }
}

} // verus!
