//! The pure parts of the operation handlers: each function here is the state
//! change an operation performs, taken out of the surrounding transport and
//! task plumbing.

pub mod extract;
pub mod run;
pub mod send_file;

use crate::app_data::{
    AppData, AppDataView, AppStatus, VerificationInformationView, VerificationPeriodDef,
    VerificationStatusView,
};
use vstd::prelude::*;
use vstd::string::StringExecFns;

verus! {

/// Set the workflow phase, leaving the rest of the state untouched.
pub fn update_status(data_mut: &mut AppData, status: AppStatus)
    ensures
        final(data_mut)@ == (AppDataView { app_status: status, ..old(data_mut)@ }),
        old(data_mut).wf() ==> final(data_mut).wf(),
{
    data_mut.app_status = status;
}

/// Record a background failure: the message it reported and the error phase
/// it moves the workflow to. The rest of the state is untouched.
pub fn update_with_error(data_mut: &mut AppData, status: AppStatus, error: &str)
    ensures
        final(data_mut)@ == (AppDataView {
            app_status: status,
            error: Some(error@),
            ..old(data_mut)@
        }),
        old(data_mut).wf() ==> final(data_mut).wf(),
{
    data_mut.error = Some(String::from_str(error));
    update_status(data_mut, status);
}

/// The initialize operation: select the verification period and move the
/// workflow to the initialized phase. Nothing else changes.
pub fn apply_init(state: &mut AppData, period: VerificationPeriodDef)
    ensures
        final(state)@ == (AppDataView {
            app_status: AppStatus::Initialized,
            verfification_period: Some(period),
            ..old(state)@
        }),
        old(state).wf() ==> final(state).wf(),
{
    state.verfification_period = Some(period);
    update_status(state, AppStatus::Initialized);
}

/// The reset operation: discard everything accumulated and return to the
/// fresh state.
pub fn apply_reset(state: &mut AppData)
    ensures
        final(state)@ == AppData::spec_default(),
        final(state).wf(),
{
    *state = AppData::default();
}

/// Initialization followed by a reset restores the fresh state: the phase is
/// back to not-initialized, and the period, the input locations, the
/// extraction result, the recorded error and both per-item tables are cleared,
/// whatever the state held before initialization.
pub proof fn lemma_initialize_then_reset(
    s0: AppDataView,
    s1: AppDataView,
    s2: AppDataView,
    period: VerificationPeriodDef,
)
    requires
        s1 == (AppDataView {
            app_status: AppStatus::Initialized,
            verfification_period: Some(period),
            ..s0
        }),
        s2 == AppData::spec_default(),
    ensures
        s2.app_status == AppStatus::NotInitialized,
        s2.verfification_period is None,
        s2.input_file_location.context_zip_file is None,
        s2.input_file_location.setup_zip_file is None,
        s2.input_file_location.tally_zip_file is None,
        s2.extracted_dataset_result is None,
        s2.error is None,
        s2.verification_information == Seq::<VerificationInformationView>::empty(),
        s2.verification_status == Seq::<VerificationStatusView>::empty(),
{
}

} // verus!
