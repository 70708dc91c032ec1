//! The pure parts of the begin-extraction operation. The extraction engine
//! itself runs externally in the background; the functions here perform the
//! state changes around it.

use crate::app_data::{AppData, AppDataView, AppStatus};
use crate::handler::{update_status, update_with_error};
use vstd::prelude::*;

verus! {

/// The synchronous part of begin-extraction: the workflow moves to the
/// extracting phase while the engine call proceeds in the background.
pub fn apply_extract_start(state: &mut AppData)
    ensures
        final(state)@ == (AppDataView { app_status: AppStatus::Extracting, ..old(state)@ }),
        old(state).wf() ==> final(state).wf(),
{
    update_status(state, AppStatus::Extracting);
}

/// A successful extraction reported back: store the result location and move
/// the workflow to the extracted phase. Nothing else changes.
pub fn apply_extract_success(state: &mut AppData, location: String)
    ensures
        final(state)@ == (AppDataView {
            app_status: AppStatus::Extracted,
            extracted_dataset_result: Some(location@),
            ..old(state)@
        }),
        old(state).wf() ==> final(state).wf(),
{
    state.extracted_dataset_result = Some(location);
    update_status(state, AppStatus::Extracted);
}

/// A failed extraction reported back: record the message and move the
/// workflow to the extract-error phase. Nothing else changes.
pub fn apply_extract_failure(state: &mut AppData, error: &str)
    ensures
        final(state)@ == (AppDataView {
            app_status: AppStatus::ExtractError,
            error: Some(error@),
            ..old(state)@
        }),
        old(state).wf() ==> final(state).wf(),
{
    update_with_error(state, AppStatus::ExtractError, error);
}

} // verus!
