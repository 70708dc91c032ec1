//! The request bodies of the operations that carry one.

use crate::app_data::VerificationPeriodDef;
use vstd::prelude::*;

verus! {

/// Body of the initialize operation: the verification period to select.
pub struct InitRequest {
    pub period: VerificationPeriodDef,
}

/// Body of the two input-loading operations: the dataset path supplied.
pub struct FilePathRequest {
    pub path: String,
}

} // verus!
