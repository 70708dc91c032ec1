//! The pure parts of the two input-loading operations. The filesystem check
//! itself is external; its verdict is handed in as `path_exists`.

use crate::app_data::{AppData, AppDataView, AppStatus, InputFileLocationView, VerificationPeriodDef};
use crate::handler::update_status;
use crate::AppError;
use vstd::prelude::*;
use vstd::string::StringExecFns;

verus! {

/// The load-context-input operation: when the path exists, record it in the
/// context slot and advance the phase; otherwise reject with a client error
/// naming the path, and leave the state untouched.
pub fn apply_context_dataset(state: &mut AppData, path: String, path_exists: bool) -> (r: Result<
    (),
    AppError,
>)
    ensures
        !path_exists ==> final(state)@ == old(state)@,
        !path_exists ==> (r matches Err(e) && e.0@ == "Context file "@ + path@ + " not exist"@),
        path_exists ==> r is Ok,
        path_exists ==> final(state)@ == (AppDataView {
            app_status: AppStatus::ContextDataSetLoaded,
            input_file_location: (InputFileLocationView {
                context_zip_file: Some(path@),
                ..old(state)@.input_file_location
            }),
            ..old(state)@
        }),
        old(state).wf() ==> final(state).wf(),
{
    if !path_exists {
        let mut msg = String::from_str("Context file ");
        msg.append(path.as_str());
        msg.append(" not exist");
        return Err(AppError(msg));
    }
    state.input_file_location.context_zip_file = Some(path);
    update_status(state, AppStatus::ContextDataSetLoaded);
    Ok(())
}

/// The load-period-input operation: when the path exists, record it in the
/// slot of the period selected at initialization — the setup slot while the
/// period is setup, the tally slot while it is tally — and advance the phase;
/// otherwise reject with a client error naming the path, and leave the state
/// untouched.
pub fn apply_period_dataset(state: &mut AppData, path: String, path_exists: bool) -> (r: Result<
    (),
    AppError,
>)
    requires
        old(state).verfification_period is Some,
    ensures
        !path_exists ==> final(state)@ == old(state)@,
        !path_exists ==> (r matches Err(e) && e.0@ == "Period dataset file "@ + path@
            + " not exist"@),
        path_exists ==> r is Ok,
        path_exists ==> final(state)@ == (AppDataView {
            app_status: AppStatus::PeriodDataSetLoaded,
            input_file_location: (if old(state).verfification_period == Some(
                VerificationPeriodDef::Setup,
            ) {
                InputFileLocationView {
                    setup_zip_file: Some(path@),
                    ..old(state)@.input_file_location
                }
            } else {
                InputFileLocationView {
                    tally_zip_file: Some(path@),
                    ..old(state)@.input_file_location
                }
            }),
            ..old(state)@
        }),
        old(state).wf() ==> final(state).wf(),
{
    if !path_exists {
        let mut msg = String::from_str("Period dataset file ");
        msg.append(path.as_str());
        msg.append(" not exist");
        return Err(AppError(msg));
    }
    let is_setup = match &state.verfification_period {
        Some(VerificationPeriodDef::Setup) => true,
        _ => false,
    };
    if is_setup {
        state.input_file_location.setup_zip_file = Some(path);
    } else {
        state.input_file_location.tally_zip_file = Some(path);
    }
    update_status(state, AppStatus::PeriodDataSetLoaded);
    Ok(())
}

} // verus!
