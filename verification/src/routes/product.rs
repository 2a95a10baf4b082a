//! The handlers for products.

use vstd::prelude::*;
use crate::auth::staff_auth::StaffAuth;
use crate::auth::user_auth::UserDigest;
use crate::auxiliary::product_barcode::{
    after_get, can_get, code_at, ProductBarcodeGeneratorState,
};
use crate::auxiliary::responses::GenericError;
use crate::models::products::{NewProductData, Product, ProductStatistics, StageEnum};
use crate::models::profiles::{Profile, SampleTimeData};
use crate::models::users::RoleEnum;
use crate::routes::flow::{
    can_touch_profile, ends_with, failure, failure_of, may_touch_profile, page_offset, Reply,
    Request, Step, PAGE_SIZE,
};
use crate::stage_machine::StageUpdate;

verus! {

/// Where the creation of a product stands.
#[derive(Debug, PartialEq, Eq)]
pub enum InitProductState {
    /// Waiting for the number of products with the new barcode.
    AwaitCount { code: String },
    /// Waiting for the insertion of the product.
    AwaitInsert { code: String },
    Finished,
}

/// Begins the creation of a product at `now`: takes the next barcode and asks
/// how many products have it already. Where no barcode can be handed out the
/// handler ends with an internal error.
pub fn init_product_begin(
    generator: &mut ProductBarcodeGeneratorState,
    _staff: StaffAuth,
    now: i64,
) -> (out: (
    InitProductState,
    Step<String>,
))
    ensures
        final(generator).state == after_get(old(generator).state, now),
        can_get(old(generator).state, now) ==> {
            &&& out.0 matches InitProductState::AwaitCount { code }
            &&& code@ == code_at(old(generator).state, now)
            &&& out.1 matches Step::Ask(Request::CountProductsByBarcode { barcode })
            &&& barcode@ == code_at(old(generator).state, now)
        },
        !can_get(old(generator).state, now) ==> {
            &&& out.0 is Finished
            &&& out.1 matches Step::Done(Err(e))
            &&& e == GenericError::ServerInternalError
        },
{
    match generator.get(now) {
        Some(code) => {
            let barcode = code.clone();
            (
                InitProductState::AwaitCount { code },
                Step::Ask(Request::CountProductsByBarcode { barcode }),
            )
        },
        None => (InitProductState::Finished, Step::Done(Err(GenericError::ServerInternalError))),
    }
}

/// Goes on with the creation of a product. A barcode that some product has
/// already, and an insertion that changed no row, end in a duplicate error.
/// The answer is the address that the printed code leads to: `qrcode_root`
/// followed by the barcode.
pub fn init_product(state: InitProductState, event: Reply, now: i64, qrcode_root: &str) -> (out: (
    InitProductState,
    Step<String>,
))
    ensures
        match (state, event) {
            (InitProductState::AwaitCount { code }, Reply::Count(n)) => if n != 0 {
                &&& out.0 is Finished
                &&& out.1 matches Step::Done(Err(e))
                &&& e == GenericError::ProductDuplicateError
            } else {
                &&& out.0 matches InitProductState::AwaitInsert { code: kept }
                &&& kept@ == code@
                &&& out.1 matches Step::Ask(Request::InsertProduct { product })
                &&& product.product_barcode@ == code@
                &&& product.init_time == now
            },
            (InitProductState::AwaitInsert { code }, Reply::Rows(n)) => if n == 0 {
                &&& out.0 is Finished
                &&& out.1 matches Step::Done(Err(e))
                &&& e == GenericError::ProductDuplicateError
            } else {
                &&& out.0 is Finished
                &&& out.1 matches Step::Done(Ok(url))
                &&& url@ == qrcode_root@ + code@
            },
            (_, other) => {
                &&& out.0 is Finished
                &&& out.1 matches Step::Done(Err(e))
                &&& e == failure_of(other)
            },
        },
{
    match (state, event) {
        (InitProductState::AwaitCount { code }, Reply::Count(n)) => {
            if n != 0 {
                (
                    InitProductState::Finished,
                    Step::Done(Err(GenericError::ProductDuplicateError)),
                )
            } else {
                let product = NewProductData { product_barcode: code.clone(), init_time: now };
                (
                    InitProductState::AwaitInsert { code },
                    Step::Ask(Request::InsertProduct { product }),
                )
            }
        },
        (InitProductState::AwaitInsert { code }, Reply::Rows(n)) => {
            if n == 0 {
                (
                    InitProductState::Finished,
                    Step::Done(Err(GenericError::ProductDuplicateError)),
                )
            } else {
                let mut url = qrcode_root.to_owned();
                url.append(code.as_str());
                (InitProductState::Finished, Step::Done(Ok(url)))
            }
        },
        (_, other) => (InitProductState::Finished, Step::Done(Err(failure(&other)))),
    }
}

/// Where the reading of a product by its barcode stands.
#[derive(Debug, PartialEq, Eq)]
pub enum ProductDigestState {
    AwaitProduct,
    /// Waiting for the profile that tells whose product it is.
    AwaitProfile { product: Product },
    Finished,
}

/// Reads a product by its barcode. Anyone who is logged in may see a product
/// that is still at `Initialized`. Later, staff and administrators may see
/// it, and of the users only the one whose profile it carries.
pub fn get_product_digest(
    state: ProductDigestState,
    event: Reply,
    product_barcode: &str,
    user_digest: UserDigest,
) -> (out: (ProductDigestState, Step<Product>))
    ensures
        match (state, event) {
            (ProductDigestState::AwaitProduct, Reply::Begin) => {
                &&& out.0 is AwaitProduct
                &&& out.1 matches Step::Ask(Request::FindProduct { barcode })
                &&& barcode@ == product_barcode@
            },
            (ProductDigestState::AwaitProduct, Reply::Product(product)) => {
                if product.current_stage == StageEnum::Initialized || user_digest.user_role
                    != RoleEnum::User {
                    out.0 is Finished && out.1 == Step::Done(
                        Ok::<Product, GenericError>(product),
                    )
                } else {
                    match product.profile_id {
                        None => out.0 is Finished && ends_with(
                            out.1,
                            GenericError::ServerInternalError,
                        ),
                        Some(id) => {
                            &&& out.0 == ProductDigestState::AwaitProfile { product }
                            &&& out.1 matches Step::Ask(Request::FindProfile { id: asked })
                            &&& asked == id
                        },
                    }
                }
            },
            (ProductDigestState::AwaitProfile { product }, Reply::Profile(profile)) => {
                if profile.user_id == user_digest.user_id {
                    out.0 is Finished && out.1 == Step::Done(
                        Ok::<Product, GenericError>(product),
                    )
                } else {
                    out.0 is Finished && ends_with(out.1, GenericError::PermissionDeniedError)
                }
            },
            (_, other) => out.0 is Finished && ends_with(out.1, failure_of(other)),
        },
{
    match (state, event) {
        (ProductDigestState::AwaitProduct, Reply::Begin) => (
            ProductDigestState::AwaitProduct,
            Step::Ask(Request::FindProduct { barcode: product_barcode.to_owned() }),
        ),
        (ProductDigestState::AwaitProduct, Reply::Product(product)) => {
            if matches!(product.current_stage, StageEnum::Initialized) || !matches!(
                user_digest.user_role,
                RoleEnum::User
            ) {
                (ProductDigestState::Finished, Step::Done(Ok(product)))
            } else {
                match product.profile_id {
                    None => (
                        ProductDigestState::Finished,
                        Step::Done(Err(GenericError::ServerInternalError)),
                    ),
                    Some(id) => (
                        ProductDigestState::AwaitProfile { product },
                        Step::Ask(Request::FindProfile { id }),
                    ),
                }
            }
        },
        (ProductDigestState::AwaitProfile { product }, Reply::Profile(profile)) => {
            if profile.user_id == user_digest.user_id {
                (ProductDigestState::Finished, Step::Done(Ok(product)))
            } else {
                (
                    ProductDigestState::Finished,
                    Step::Done(Err(GenericError::PermissionDeniedError)),
                )
            }
        },
        (_, other) => (ProductDigestState::Finished, Step::Done(Err(failure(&other)))),
    }
}

/// Lists one page of the products at a stage.
pub fn get_filtered_products(event: Reply, page: i32, filter: StageEnum, _staff: StaffAuth) -> (out:
    Step<Vec<Product>>)
    ensures
        match event {
            Reply::Begin => if page >= 0 {
                &&& out matches Step::Ask(Request::ListProducts { stage, limit, offset })
                &&& stage == Some(filter)
                &&& limit == PAGE_SIZE
                &&& offset == page * PAGE_SIZE
            } else {
                ends_with(out, GenericError::InvalidInputError)
            },
            Reply::Products(rows) => out == Step::Done(Ok::<Vec<Product>, GenericError>(rows)),
            other => ends_with(out, failure_of(other)),
        },
{
    match event {
        Reply::Begin => match page_offset(page) {
            Ok(offset) => Step::Ask(
                Request::ListProducts { stage: Some(filter), limit: PAGE_SIZE, offset },
            ),
            Err(e) => Step::Done(Err(e)),
        },
        Reply::Products(rows) => Step::Done(Ok(rows)),
        other => Step::Done(Err(failure(&other))),
    }
}

/// Lists one page of all products.
pub fn get_products(event: Reply, page: i32, _staff: StaffAuth) -> (out: Step<Vec<Product>>)
    ensures
        match event {
            Reply::Begin => if page >= 0 {
                &&& out matches Step::Ask(Request::ListProducts { stage, limit, offset })
                &&& stage is None
                &&& limit == PAGE_SIZE
                &&& offset == page * PAGE_SIZE
            } else {
                ends_with(out, GenericError::InvalidInputError)
            },
            Reply::Products(rows) => out == Step::Done(Ok::<Vec<Product>, GenericError>(rows)),
            other => ends_with(out, failure_of(other)),
        },
{
    match event {
        Reply::Begin => match page_offset(page) {
            Ok(offset) => Step::Ask(
                Request::ListProducts { stage: None, limit: PAGE_SIZE, offset },
            ),
            Err(e) => Step::Done(Err(e)),
        },
        Reply::Products(rows) => Step::Done(Ok(rows)),
        other => Step::Done(Err(failure(&other))),
    }
}

/// Reads a product by its barcode, for staff.
pub fn get_product(event: Reply, _staff: StaffAuth, product_barcode: &str) -> (out: Step<Product>)
    ensures
        match event {
            Reply::Begin => {
                &&& out matches Step::Ask(Request::FindProduct { barcode })
                &&& barcode@ == product_barcode@
            },
            Reply::Product(product) => out == Step::Done(Ok::<Product, GenericError>(product)),
            other => ends_with(out, failure_of(other)),
        },
{
    match event {
        Reply::Begin => Step::Ask(Request::FindProduct { barcode: product_barcode.to_owned() }),
        Reply::Product(product) => Step::Done(Ok(product)),
        other => Step::Done(Err(failure(&other))),
    }
}

/// Reads the profile that a product carries, for staff. A product without a
/// profile ends in `ProfileNotExistError`.
pub fn get_profile_by_product(event: Reply, _staff: StaffAuth, product_barcode: &str) -> (out: Step<
    Profile,
>)
    ensures
        match event {
            Reply::Begin => {
                &&& out matches Step::Ask(Request::FindProduct { barcode })
                &&& barcode@ == product_barcode@
            },
            Reply::Product(product) => match product.profile_id {
                Some(wanted) => out matches Step::Ask(Request::FindProfile { id }) && id == wanted,
                None => ends_with(out, GenericError::ProfileNotExistError),
            },
            Reply::Profile(profile) => out == Step::Done(Ok::<Profile, GenericError>(profile)),
            other => ends_with(out, failure_of(other)),
        },
{
    match event {
        Reply::Begin => Step::Ask(Request::FindProduct { barcode: product_barcode.to_owned() }),
        Reply::Product(product) => match product.profile_id {
            Some(id) => Step::Ask(Request::FindProfile { id }),
            None => Step::Done(Err(GenericError::ProfileNotExistError)),
        },
        Reply::Profile(profile) => Step::Done(Ok(profile)),
        other => Step::Done(Err(failure(&other))),
    }
}

/// Where the recording of a sample stands.
#[derive(Clone, Copy, Debug, PartialEq, Eq, Structural)]
pub enum SampleTimeState {
    AwaitProduct,
    /// Waiting for the profile that the product carries.
    AwaitProfile { profile_id: i32, stage: StageEnum },
    /// Waiting for the sample time to be written.
    AwaitSampleWrite { stage: StageEnum },
    /// Waiting for the stage to be written.
    AwaitStageWrite,
    Finished,
}

/// The answer of a handler that has nothing to tell but that it succeeded.
pub open spec fn done_text() -> Seq<char> {
    "成功"@
}

/// Whether a handler ends here with the plain message of success.
pub open spec fn ends_well(step: Step<String>) -> bool {
    step matches Step::Done(Ok(text)) && text@ == done_text()
}

/// Records the time at which the sample of a product was taken. The product
/// must carry a profile; the caller must own that profile or be staff or
/// administrator. The time is written into the profile. After that a product
/// at `Submitted` advances to `Sampled`, one at `Sampled` stays there, and
/// the stage of any other product is left alone. A write that fails ends in
/// an internal error.
pub fn submit_sample_time(
    state: SampleTimeState,
    event: Reply,
    user_digest: UserDigest,
    sample_time_data: SampleTimeData,
    product_barcode: &str,
) -> (out: (SampleTimeState, Step<String>))
    ensures
        match (state, event) {
            (SampleTimeState::AwaitProduct, Reply::Begin) => {
                &&& out.0 == SampleTimeState::AwaitProduct
                &&& out.1 matches Step::Ask(Request::FindProduct { barcode })
                &&& barcode@ == product_barcode@
            },
            (SampleTimeState::AwaitProduct, Reply::Product(product)) => match product.profile_id {
                None => out.0 is Finished && ends_with(out.1, GenericError::ProfileNotExistError),
                Some(profile_id) => {
                    &&& out.0 == SampleTimeState::AwaitProfile {
                        profile_id,
                        stage: product.current_stage,
                    }
                    &&& out.1 matches Step::Ask(Request::FindProfile { id })
                    &&& id == profile_id
                },
            },
            (SampleTimeState::AwaitProfile { profile_id, stage }, Reply::Profile(profile)) => {
                if may_touch_profile(profile.user_id, user_digest.user_id, user_digest.user_role) {
                    &&& out.0 == SampleTimeState::AwaitSampleWrite { stage }
                    &&& out.1 matches Step::Ask(
                        Request::WriteSampleTime { profile_id: target, sample_time },
                    )
                    &&& target == profile_id
                    &&& sample_time == sample_time_data.sample_time
                } else {
                    out.0 is Finished && ends_with(out.1, GenericError::PermissionDeniedError)
                }
            },
            (SampleTimeState::AwaitSampleWrite { stage }, Reply::Rows(_)) => {
                if stage == StageEnum::Submitted || stage == StageEnum::Sampled {
                    &&& out.0 == SampleTimeState::AwaitStageWrite
                    &&& out.1 matches Step::Ask(Request::UpdateStage { barcode, update })
                    &&& barcode@ == product_barcode@
                    &&& update == StageUpdate::spec_sample()
                } else {
                    out.0 is Finished && ends_well(out.1)
                }
            },
            (SampleTimeState::AwaitStageWrite, Reply::Rows(_)) => out.0 is Finished && ends_well(
                out.1,
            ),
            (SampleTimeState::AwaitSampleWrite { .. }, _) => out.0 is Finished && ends_with(
                out.1,
                GenericError::ServerInternalError,
            ),
            (SampleTimeState::AwaitStageWrite, _) => out.0 is Finished && ends_with(
                out.1,
                GenericError::ServerInternalError,
            ),
            (_, other) => out.0 is Finished && ends_with(out.1, failure_of(other)),
        },
{
    match (state, event) {
        (SampleTimeState::AwaitProduct, Reply::Begin) => (
            SampleTimeState::AwaitProduct,
            Step::Ask(Request::FindProduct { barcode: product_barcode.to_owned() }),
        ),
        (SampleTimeState::AwaitProduct, Reply::Product(product)) => match product.profile_id {
            None => (
                SampleTimeState::Finished,
                Step::Done(Err(GenericError::ProfileNotExistError)),
            ),
            Some(profile_id) => (
                SampleTimeState::AwaitProfile { profile_id, stage: product.current_stage },
                Step::Ask(Request::FindProfile { id: profile_id }),
            ),
        },
        (SampleTimeState::AwaitProfile { profile_id, stage }, Reply::Profile(profile)) => {
            if can_touch_profile(profile.user_id, user_digest.user_id, user_digest.user_role) {
                (
                    SampleTimeState::AwaitSampleWrite { stage },
                    Step::Ask(
                        Request::WriteSampleTime {
                            profile_id,
                            sample_time: sample_time_data.sample_time,
                        },
                    ),
                )
            } else {
                (
                    SampleTimeState::Finished,
                    Step::Done(Err(GenericError::PermissionDeniedError)),
                )
            }
        },
        (SampleTimeState::AwaitSampleWrite { stage }, Reply::Rows(_)) => {
            if matches!(stage, StageEnum::Submitted) || matches!(stage, StageEnum::Sampled) {
                (
                    SampleTimeState::AwaitStageWrite,
                    Step::Ask(
                        Request::UpdateStage {
                            barcode: product_barcode.to_owned(),
                            update: StageUpdate::sample(),
                        },
                    ),
                )
            } else {
                (SampleTimeState::Finished, Step::Done(Ok("成功".to_owned())))
            }
        },
        (SampleTimeState::AwaitStageWrite, Reply::Rows(_)) => (
            SampleTimeState::Finished,
            Step::Done(Ok("成功".to_owned())),
        ),
        (SampleTimeState::AwaitSampleWrite { .. }, _) => (
            SampleTimeState::Finished,
            Step::Done(Err(GenericError::ServerInternalError)),
        ),
        (SampleTimeState::AwaitStageWrite, _) => (
            SampleTimeState::Finished,
            Step::Done(Err(GenericError::ServerInternalError)),
        ),
        (_, other) => (SampleTimeState::Finished, Step::Done(Err(failure(&other)))),
    }
}

/// Where the counting of the products stands: which count is awaited, and
/// the counts that came in so far.
#[derive(Clone, Copy, Debug, PartialEq, Eq, Structural)]
pub enum ProductStatisticsState {
    AwaitTotal,
    AwaitInitialized { total: i64 },
    AwaitSubmitted { total: i64, initialized: i64 },
    AwaitSampled { total: i64, initialized: i64, submitted: i64 },
    AwaitFinished { total: i64, initialized: i64, submitted: i64, sampled: i64 },
    Finished,
}

/// Whether a handler asks here for the number of products at `wanted`.
pub open spec fn asks_count(step: Step<ProductStatistics>, wanted: Option<StageEnum>) -> bool {
    step matches Step::Ask(Request::CountProducts { stage }) && stage == wanted
}

/// Counts the products: all of them, then those at each stage in the order
/// of the workflow. The first count that fails ends the handler.
pub fn get_product_statistics(
    state: ProductStatisticsState,
    event: Reply,
    _staff: StaffAuth,
) -> (out: (
    ProductStatisticsState,
    Step<ProductStatistics>,
))
    ensures
        match (state, event) {
            (ProductStatisticsState::AwaitTotal, Reply::Begin) => {
                out.0 == ProductStatisticsState::AwaitTotal && asks_count(out.1, None)
            },
            (ProductStatisticsState::AwaitTotal, Reply::Count(total)) => {
                out.0 == ProductStatisticsState::AwaitInitialized { total } && asks_count(
                    out.1,
                    Some(StageEnum::Initialized),
                )
            },
            (ProductStatisticsState::AwaitInitialized { total }, Reply::Count(initialized)) => {
                out.0 == ProductStatisticsState::AwaitSubmitted { total, initialized }
                    && asks_count(out.1, Some(StageEnum::Submitted))
            },
            (
                ProductStatisticsState::AwaitSubmitted { total, initialized },
                Reply::Count(submitted),
            ) => {
                out.0 == ProductStatisticsState::AwaitSampled { total, initialized, submitted }
                    && asks_count(out.1, Some(StageEnum::Sampled))
            },
            (
                ProductStatisticsState::AwaitSampled { total, initialized, submitted },
                Reply::Count(sampled),
            ) => {
                out.0 == ProductStatisticsState::AwaitFinished {
                    total,
                    initialized,
                    submitted,
                    sampled,
                } && asks_count(out.1, Some(StageEnum::Finished))
            },
            (
                ProductStatisticsState::AwaitFinished { total, initialized, submitted, sampled },
                Reply::Count(finished),
            ) => {
                out.0 is Finished && out.1 == Step::Done(
                    Ok::<ProductStatistics, GenericError>(
                        ProductStatistics { total, initialized, submitted, sampled, finished },
                    ),
                )
            },
            (_, other) => out.0 is Finished && ends_with(out.1, failure_of(other)),
        },
{
    match (state, event) {
        (ProductStatisticsState::AwaitTotal, Reply::Begin) => (
            ProductStatisticsState::AwaitTotal,
            Step::Ask(Request::CountProducts { stage: None }),
        ),
        (ProductStatisticsState::AwaitTotal, Reply::Count(total)) => (
            ProductStatisticsState::AwaitInitialized { total },
            Step::Ask(Request::CountProducts { stage: Some(StageEnum::Initialized) }),
        ),
        (ProductStatisticsState::AwaitInitialized { total }, Reply::Count(initialized)) => (
            ProductStatisticsState::AwaitSubmitted { total, initialized },
            Step::Ask(Request::CountProducts { stage: Some(StageEnum::Submitted) }),
        ),
        (
            ProductStatisticsState::AwaitSubmitted { total, initialized },
            Reply::Count(submitted),
        ) => (
            ProductStatisticsState::AwaitSampled { total, initialized, submitted },
            Step::Ask(Request::CountProducts { stage: Some(StageEnum::Sampled) }),
        ),
        (
            ProductStatisticsState::AwaitSampled { total, initialized, submitted },
            Reply::Count(sampled),
        ) => (
            ProductStatisticsState::AwaitFinished { total, initialized, submitted, sampled },
            Step::Ask(Request::CountProducts { stage: Some(StageEnum::Finished) }),
        ),
        (
            ProductStatisticsState::AwaitFinished { total, initialized, submitted, sampled },
            Reply::Count(finished),
        ) => (
            ProductStatisticsState::Finished,
            Step::Done(Ok(ProductStatistics { total, initialized, submitted, sampled, finished })),
        ),
        (_, other) => (ProductStatisticsState::Finished, Step::Done(Err(failure(&other)))),
    }
}

} // verus!
