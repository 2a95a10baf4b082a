//! Products and the stages they pass through.

use vstd::prelude::*;
use crate::auxiliary::responses::GenericError;
use crate::text::{lowercase_of, same_text, to_lowercase};

verus! {

/// Where a product stands in its workflow. The order is fixed:
/// `Initialized`, `Submitted`, `Sampled`, `Finished`.
#[derive(Clone, Copy, Debug, PartialEq, Eq, Structural)]
pub enum StageEnum {
    Initialized,
    Submitted,
    Sampled,
    Finished,
}

impl StageEnum {
    /// Position of the stage in the workflow.
    pub open spec fn rank(self) -> nat {
        match self {
            StageEnum::Initialized => 0,
            StageEnum::Submitted => 1,
            StageEnum::Sampled => 2,
            StageEnum::Finished => 3,
        }
    }

    /// The stage that a lowercase word stands for, if any.
    pub open spec fn spec_from_lowercase(word: Seq<char>) -> Option<StageEnum> {
        if word == "initialized"@ {
            Some(StageEnum::Initialized)
        } else if word == "submitted"@ {
            Some(StageEnum::Submitted)
        } else if word == "sampled"@ {
            Some(StageEnum::Sampled)
        } else if word == "finished"@ {
            Some(StageEnum::Finished)
        } else {
            None
        }
    }

    /// Position of the stage in the workflow.
    pub fn index(self) -> (i: u8)
        ensures
            i == self.rank(),
    {
        match self {
            StageEnum::Initialized => 0,
            StageEnum::Submitted => 1,
            StageEnum::Sampled => 2,
            StageEnum::Finished => 3,
        }
    }

    /// Reads a stage from a word that is already in lowercase.
    pub fn from_lowercase(word: &str) -> (stage: Result<StageEnum, GenericError>)
        ensures
            stage == match StageEnum::spec_from_lowercase(word@) {
                Some(s) => Ok::<StageEnum, GenericError>(s),
                None => Err::<StageEnum, GenericError>(GenericError::InvalidInputError),
            },
    {
        if same_text(word, "initialized") {
            Ok(StageEnum::Initialized)
        } else if same_text(word, "submitted") {
            Ok(StageEnum::Submitted)
        } else if same_text(word, "sampled") {
            Ok(StageEnum::Sampled)
        } else if same_text(word, "finished") {
            Ok(StageEnum::Finished)
        } else {
            Err(GenericError::InvalidInputError)
        }
    }

    /// Reads a stage from a path segment, in any mix of upper and lower case.
    pub fn from_param(param: &str) -> (stage: Result<StageEnum, GenericError>)
        ensures
            stage == match StageEnum::spec_from_lowercase(lowercase_of(param@)) {
                Some(s) => Ok::<StageEnum, GenericError>(s),
                None => Err::<StageEnum, GenericError>(GenericError::InvalidInputError),
            },
    {
        let lowered = to_lowercase(param);
        StageEnum::from_lowercase(lowered.as_str())
    }
}

/// A product as the store holds it. Times are seconds since the epoch; a
/// report is known by its 128-bit identifier.
#[derive(Clone, Debug, PartialEq, Eq)]
pub struct Product {
    pub id: i32,
    pub product_barcode: String,
    pub profile_id: Option<i32>,
    pub init_time: i64,
    pub current_stage: StageEnum,
    pub report_id: Option<u128>,
}

/// A product that is about to be stored.
#[derive(Clone, Debug, PartialEq, Eq)]
pub struct NewProductData {
    pub product_barcode: String,
    pub init_time: i64,
}

/// A product without its profile.
#[derive(Clone, Debug, PartialEq, Eq)]
pub struct ProductDigest {
    pub id: i32,
    pub product_barcode: String,
    pub init_time: i64,
    pub current_stage: StageEnum,
    pub report_id: Option<u128>,
}

#[derive(Clone, Debug, PartialEq, Eq)]
pub struct ClientProductData {
    pub product_barcode: String,
}

/// The columns written when a profile is attached to a product.
#[derive(Clone, Copy, Debug, PartialEq, Eq, Structural)]
pub struct UpdateProductAfterSubmission {
    pub profile_id: Option<i32>,
    pub current_stage: StageEnum,
}

/// The same columns under a spelling that some callers use.
pub type UpdateProductAfterSubmittion = UpdateProductAfterSubmission;

/// How many products there are, in all and at each stage.
#[derive(Clone, Copy, Debug, PartialEq, Eq, Structural)]
pub struct ProductStatistics {
    pub total: i64,
    pub initialized: i64,
    pub submitted: i64,
    pub sampled: i64,
    pub finished: i64,
}

} // verus!
