//! The pure parts of the begin-run operation and of the two per-item progress
//! callbacks. The runner itself executes externally in the background; the
//! functions here perform the state changes it reports into.

use crate::app_data::{
    all_terminal, status_rank, AppData, AppDataView, AppStatus,
    VerificationMetadataItem, VerificationStatusEnum, VerificationStatusView,
};
use crate::handler::{update_status, update_with_error};
use vstd::prelude::*;

verus! {

/// The synchronous part of begin-run: repopulate both per-item tables from
/// the supplied metadata — every entry freshly not-started with empty message
/// lists — and move the workflow to the running phase. Nothing else changes.
pub fn apply_run_start(state: &mut AppData, metadata_list: &Vec<VerificationMetadataItem>)
    requires
        forall|i: int, j: int|
            0 <= i < j < metadata_list@.len() ==> (#[trigger] metadata_list@[i]).id@ != (
            #[trigger] metadata_list@[j]).id@,
    ensures
        final(state)@ == (AppDataView {
            app_status: AppStatus::Running,
            verification_information: final(state)@.verification_information,
            verification_status: final(state)@.verification_status,
            ..old(state)@
        }),
        final(state)@.verification_information.len() == metadata_list@.len(),
        final(state)@.verification_status.len() == metadata_list@.len(),
        forall|i: int|
            0 <= i < metadata_list@.len() ==> final(state)@.verification_status[i]
                == (VerificationStatusView {
                id: (#[trigger] metadata_list@[i]).id@,
                status: VerificationStatusEnum::NotStarted,
                failures: Seq::empty(),
                errors: Seq::empty(),
            }),
        forall|i: int|
            0 <= i < metadata_list@.len() ==> final(state)@.verification_information[i].id == (
            #[trigger] metadata_list@[i]).id@ && final(state)@.verification_information[i].name
                == metadata_list@[i].name@ && final(state)@.verification_information[i].category
                == metadata_list@[i].category@,
        final(state).wf(),
{
    state.set_with_medata(metadata_list);
    update_status(state, AppStatus::Running);
}

/// A failure of the run outside the per-item callbacks: record the message
/// and move the workflow to the run-error phase. Nothing else changes.
pub fn apply_run_failure(state: &mut AppData, error: &str)
    ensures
        final(state)@ == (AppDataView {
            app_status: AppStatus::RunError,
            error: Some(error@),
            ..old(state)@
        }),
        old(state).wf() ==> final(state).wf(),
{
    update_with_error(state, AppStatus::RunError, error);
}

/// The after-item callback: record the outcome of the item named by `id` —
/// its terminal status computed from the reported lists, the lists stored
/// verbatim — and, exactly when the table is non-empty and every item now
/// holds a terminal status, move the workflow to the finished phase.
pub fn apply_item_completed(state: &mut AppData, id: &str, errors: Vec<String>, failures: Vec<
    String,
>)
    requires
        old(state).wf(),
    ensures
        final(state).wf(),
        final(state)@ == (AppDataView {
            app_status: final(state)@.app_status,
            verification_status: final(state)@.verification_status,
            ..old(state)@
        }),
        final(state)@.verification_status.len() == old(state)@.verification_status.len(),
        forall|i: int|
            0 <= i < old(state)@.verification_status.len() && (
            #[trigger] old(state)@.verification_status[i]).id != id@ ==> final(state)@.verification_status[i] == old(state)@.verification_status[i],
        forall|i: int|
            0 <= i < old(state)@.verification_status.len() && (
            #[trigger] old(state)@.verification_status[i]).id == id@ ==> final(state)@.verification_status[i] == (VerificationStatusView {
                status: VerificationStatusEnum::spec_from_has_errors_has_failures(
                    errors@.len() > 0,
                    failures@.len() > 0,
                ),
                failures: failures.deep_view(),
                errors: errors.deep_view(),
                ..old(state)@.verification_status[i]
            }),
        forall|i: int|
            0 <= i < old(state)@.verification_status.len() ==> status_rank(
                (#[trigger] old(state)@.verification_status[i]).status,
            ) <= status_rank(final(state)@.verification_status[i].status),
        forall|i: int|
            0 <= i < old(state)@.verification_status.len() && (
            #[trigger] final(state)@.verification_status[i]).status is Running ==> old(state)@.verification_status[i].status is Running,
        final(state)@.app_status == (if final(state)@.verification_status.len() > 0
            && all_terminal(final(state)@.verification_status) {
            AppStatus::Finished
        } else {
            old(state)@.app_status
        }),
        old(state)@.app_status is Running ==> (final(state)@.app_status is Finished <==> final(state)@.verification_status.len() > 0 && all_terminal(final(state)@.verification_status)),
{
    state.set_verification_status(id, errors, failures);
    if !state.verification_status.is_empty() && !state.not_finished() {
        update_status(state, AppStatus::Finished);
    }
}

} // verus!
