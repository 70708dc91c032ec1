//! The status snapshot handed back to callers: an immutable projection of the
//! workflow state, safe to build under shared access.

use crate::app_data::{
    clone_opt_string, AppData, AppStatus, InputFileLocation, VerificationInformation,
    VerificationPeriodDef, VerificationStatus,
};
use vstd::prelude::*;

verus! {

/// A point-in-time projection of the workflow state: phase, period, recorded
/// input locations, the extraction result location if any, and the per-item
/// descriptions and statuses.
pub struct StatusResponse {
    pub app_status: AppStatus,
    pub verfification_period: Option<VerificationPeriodDef>,
    pub input_file_location: InputFileLocation,
    pub location: Option<String>,
    pub verification_information: Vec<VerificationInformation>,
    pub verification_status: Vec<VerificationStatus>,
}

/// A copy of a description table, equal at the level of views.
fn clone_information_vec(v: &Vec<VerificationInformation>) -> (r: Vec<VerificationInformation>)
    ensures
        r.deep_view() == v.deep_view(),
{
    let mut r: Vec<VerificationInformation> = Vec::new();
    let n = v.len();
    let mut i: usize = 0;
    while i < n
        invariant
            n == v@.len(),
            i <= n,
            r@.len() == i,
            forall|j: int| 0 <= j < i ==> r.deep_view()[j] == v.deep_view()[j],
        decreases n - i,
    {
        r.push(v[i].clone());
        i = i + 1;
    }
    proof {
        assert(r.deep_view() =~= v.deep_view());
    }
    r
}

/// A copy of a status table, equal at the level of views.
fn clone_status_vec(v: &Vec<VerificationStatus>) -> (r: Vec<VerificationStatus>)
    ensures
        r.deep_view() == v.deep_view(),
{
    let mut r: Vec<VerificationStatus> = Vec::new();
    let n = v.len();
    let mut i: usize = 0;
    while i < n
        invariant
            n == v@.len(),
            i <= n,
            r@.len() == i,
            forall|j: int| 0 <= j < i ==> r.deep_view()[j] == v.deep_view()[j],
        decreases n - i,
    {
        r.push(v[i].clone());
        i = i + 1;
    }
    proof {
        assert(r.deep_view() =~= v.deep_view());
    }
    r
}

impl StatusResponse {
    /// Build the snapshot of a state: every part of the projection equals the
    /// corresponding part of the state at the instant of the call.
    pub fn from(value: &AppData) -> (r: Self)
        ensures
            r.app_status == value@.app_status,
            r.verfification_period == value@.verfification_period,
            r.input_file_location@ == value@.input_file_location,
            r.location.deep_view() == value@.extracted_dataset_result,
            r.verification_information.deep_view() == value@.verification_information,
            r.verification_status.deep_view() == value@.verification_status,
    {
        StatusResponse {
            app_status: value.app_status,
            verfification_period: value.verfification_period,
            input_file_location: value.input_file_location.clone(),
            location: clone_opt_string(&value.extracted_dataset_result),
            verification_information: clone_information_vec(&value.verification_information),
            verification_status: clone_status_vec(&value.verification_status),
        }
    }
}

} // verus!
