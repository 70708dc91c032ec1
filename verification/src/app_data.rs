//! The workflow state container and its building blocks: the phase of the
//! workflow, the selected verification period, the recorded input dataset
//! locations and the per-item verification statuses.

use crate::strings::str_eq;
use vstd::prelude::*;

verus! {

/// The phase of the workflow. Exactly one value is held at any instant;
/// the transition table decides which operations are legal in which phase.
#[derive(Debug, Clone, Copy, PartialEq, Eq, Structural)]
pub enum AppStatus {
    NotInitialized,
    Initialized,
    ContextDataSetLoaded,
    PeriodDataSetLoaded,
    Extracting,
    ExtractError,
    Extracted,
    Running,
    RunError,
    Finished,
}

/// The name of a phase, as shown in messages.
pub open spec fn app_status_str(s: AppStatus) -> Seq<char> {
    match s {
        AppStatus::NotInitialized => "NotInitialized"@,
        AppStatus::Initialized => "Initialized"@,
        AppStatus::ContextDataSetLoaded => "ContextDataSetLoaded"@,
        AppStatus::PeriodDataSetLoaded => "PeriodDataSetLoaded"@,
        AppStatus::Extracting => "Extracting"@,
        AppStatus::ExtractError => "ExtractError"@,
        AppStatus::Extracted => "Extracted"@,
        AppStatus::Running => "Running"@,
        AppStatus::RunError => "RunError"@,
        AppStatus::Finished => "Finished"@,
    }
}

impl AppStatus {
    /// The name of the phase.
    pub fn as_ref(&self) -> (r: &'static str)
        ensures
            r@ == app_status_str(*self),
    {
        match self {
            AppStatus::NotInitialized => "NotInitialized",
            AppStatus::Initialized => "Initialized",
            AppStatus::ContextDataSetLoaded => "ContextDataSetLoaded",
            AppStatus::PeriodDataSetLoaded => "PeriodDataSetLoaded",
            AppStatus::Extracting => "Extracting",
            AppStatus::ExtractError => "ExtractError",
            AppStatus::Extracted => "Extracted",
            AppStatus::Running => "Running",
            AppStatus::RunError => "RunError",
            AppStatus::Finished => "Finished",
        }
    }
}

/// The per-item status of one verification item.
#[derive(Debug, Clone, Copy, PartialEq, Eq, Structural)]
pub enum VerificationStatusEnum {
    NotStarted,
    Running,
    FinishedSuccessfully,
    FinishedWithFailures,
    FinishedWithErrors,
    FinishedWithFailureAndErrors,
}

/// The verification period selected at initialization.
#[derive(Debug, Clone, Copy, PartialEq, Eq, Structural)]
pub enum VerificationPeriodDef {
    Setup,
    Tally,
}

/// The name of a period, as it appears in requests.
pub open spec fn verification_period_str(p: VerificationPeriodDef) -> Seq<char> {
    match p {
        VerificationPeriodDef::Setup => "setup"@,
        VerificationPeriodDef::Tally => "tally"@,
    }
}

impl VerificationPeriodDef {
    /// The name of the period.
    pub fn as_ref(&self) -> (r: &'static str)
        ensures
            r@ == verification_period_str(*self),
    {
        match self {
            VerificationPeriodDef::Setup => "setup",
            VerificationPeriodDef::Tally => "tally",
        }
    }
}

/// True of the per-item statuses that will not change further.
pub open spec fn is_terminal(s: VerificationStatusEnum) -> bool {
    match s {
        VerificationStatusEnum::NotStarted => false,
        VerificationStatusEnum::Running => false,
        _ => true,
    }
}

/// True when every item of a status table holds a terminal status.
pub open spec fn all_terminal(s: Seq<VerificationStatusView>) -> bool {
    forall|i: int| 0 <= i < s.len() ==> is_terminal((#[trigger] s[i]).status)
}

/// Position of a per-item status on the path not-started, running, terminal.
pub open spec fn status_rank(s: VerificationStatusEnum) -> int {
    match s {
        VerificationStatusEnum::NotStarted => 0,
        VerificationStatusEnum::Running => 1,
        _ => 2,
    }
}

impl VerificationStatusEnum {
    /// The terminal status an item earns for a given pair of outcomes.
    pub open spec fn spec_from_has_errors_has_failures(
        has_errors: bool,
        has_failures: bool,
    ) -> Self {
        if has_errors {
            if has_failures {
                Self::FinishedWithFailureAndErrors
            } else {
                Self::FinishedWithErrors
            }
        } else {
            if has_failures {
                Self::FinishedWithFailures
            } else {
                Self::FinishedSuccessfully
            }
        }
    }

    /// The terminal status of an item, decided from whether its run reported
    /// errors and whether it reported failures.
    pub fn from_has_errors_has_failures(has_errors: bool, has_failures: bool) -> (r: Self)
        ensures
            r == Self::spec_from_has_errors_has_failures(has_errors, has_failures),
            is_terminal(r),
    {
        match has_errors {
            true => match has_failures {
                true => Self::FinishedWithFailureAndErrors,
                false => Self::FinishedWithErrors,
            },
            false => match has_failures {
                true => Self::FinishedWithFailures,
                false => Self::FinishedSuccessfully,
            },
        }
    }
}

impl Default for VerificationStatusEnum {
    /// A fresh item has not been started.
    fn default() -> (r: Self)
        ensures
            r == VerificationStatusEnum::NotStarted,
    {
        VerificationStatusEnum::NotStarted
    }
}

/// Mathematical value of an [`InputFileLocation`].
#[verifier::ext_equal]
pub struct InputFileLocationView {
    pub context_zip_file: Option<Seq<char>>,
    pub setup_zip_file: Option<Seq<char>>,
    pub tally_zip_file: Option<Seq<char>>,
}

/// The up-to-three recorded input dataset locations. Populated incrementally;
/// cleared only by a full reset.
#[derive(Debug)]
pub struct InputFileLocation {
    pub context_zip_file: Option<String>,
    pub setup_zip_file: Option<String>,
    pub tally_zip_file: Option<String>,
}

impl View for InputFileLocation {
    type V = InputFileLocationView;

    open spec fn view(&self) -> InputFileLocationView {
        InputFileLocationView {
            context_zip_file: self.context_zip_file.deep_view(),
            setup_zip_file: self.setup_zip_file.deep_view(),
            tally_zip_file: self.tally_zip_file.deep_view(),
        }
    }
}

impl Default for InputFileLocation {
    /// No location is recorded yet.
    fn default() -> (r: Self)
        ensures
            r@ == (InputFileLocationView {
                context_zip_file: None,
                setup_zip_file: None,
                tally_zip_file: None,
            }),
    {
        Self { context_zip_file: None, setup_zip_file: None, tally_zip_file: None }
    }
}

/// A copy of an optional owned string, equal at the level of views.
pub(crate) fn clone_opt_string(v: &Option<String>) -> (r: Option<String>)
    ensures
        r.deep_view() == v.deep_view(),
{
    match v {
        Some(s) => Some(s.clone()),
        None => None,
    }
}

/// A copy of a vector of owned strings, equal at the level of views.
fn clone_string_vec(v: &Vec<String>) -> (r: Vec<String>)
    ensures
        r.deep_view() == v.deep_view(),
{
    let mut r: Vec<String> = Vec::new();
    let n = v.len();
    let mut i: usize = 0;
    while i < n
        invariant
            n == v@.len(),
            i <= n,
            r@.len() == i,
            forall|j: int| 0 <= j < i ==> r@[j]@ == v@[j]@,
        decreases n - i,
    {
        r.push(v[i].clone());
        i = i + 1;
    }
    proof {
        assert(r.deep_view() =~= v.deep_view());
    }
    r
}

impl Clone for InputFileLocation {
    /// A copy with the same locations.
    fn clone(&self) -> (r: Self)
        ensures
            r@ == self@,
    {
        let r = InputFileLocation {
            context_zip_file: clone_opt_string(&self.context_zip_file),
            setup_zip_file: clone_opt_string(&self.setup_zip_file),
            tally_zip_file: clone_opt_string(&self.tally_zip_file),
        };
        proof {
            assert(r@ =~= self@);
        }
        r
    }
}

/// Mathematical value of a [`VerificationInformation`].
#[verifier::ext_equal]
pub struct VerificationInformationView {
    pub id: Seq<char>,
    pub name: Seq<char>,
    pub category: Seq<char>,
}

/// The static description of one verification item: identifier, display name
/// and category.
#[derive(Debug)]
pub struct VerificationInformation {
    pub id: String,
    pub name: String,
    pub category: String,
}

impl View for VerificationInformation {
    type V = VerificationInformationView;

    open spec fn view(&self) -> VerificationInformationView {
        VerificationInformationView { id: self.id@, name: self.name@, category: self.category@ }
    }
}

impl DeepView for VerificationInformation {
    type V = VerificationInformationView;

    open spec fn deep_view(&self) -> VerificationInformationView {
        self.view()
    }
}

impl Clone for VerificationInformation {
    /// A copy with the same description.
    fn clone(&self) -> (r: Self)
        ensures
            r@ == self@,
    {
        VerificationInformation {
            id: self.id.clone(),
            name: self.name.clone(),
            category: self.category.clone(),
        }
    }
}

/// Mathematical value of a [`VerificationStatus`].
#[verifier::ext_equal]
pub struct VerificationStatusView {
    pub id: Seq<char>,
    pub status: VerificationStatusEnum,
    pub failures: Seq<Seq<char>>,
    pub errors: Seq<Seq<char>>,
}

/// The progress of one verification item: its per-item status and the
/// failure and error messages its run reported.
#[derive(Debug)]
pub struct VerificationStatus {
    pub id: String,
    pub status: VerificationStatusEnum,
    pub failures: Vec<String>,
    pub errors: Vec<String>,
}

impl View for VerificationStatus {
    type V = VerificationStatusView;

    open spec fn view(&self) -> VerificationStatusView {
        VerificationStatusView {
            id: self.id@,
            status: self.status,
            failures: self.failures.deep_view(),
            errors: self.errors.deep_view(),
        }
    }
}

impl DeepView for VerificationStatus {
    type V = VerificationStatusView;

    open spec fn deep_view(&self) -> VerificationStatusView {
        self.view()
    }
}

impl Clone for VerificationStatus {
    /// A copy with the same progress.
    fn clone(&self) -> (r: Self)
        ensures
            r@ == self@,
    {
        let r = VerificationStatus {
            id: self.id.clone(),
            status: self.status,
            failures: clone_string_vec(&self.failures),
            errors: clone_string_vec(&self.errors),
        };
        proof {
            assert(r@ =~= self@);
        }
        r
    }
}

/// Externally supplied metadata for one verification item, already reduced to
/// plain values: identifier, display name and category.
#[derive(Debug)]
pub struct VerificationMetadataItem {
    pub id: String,
    pub name: String,
    pub category: String,
}

/// Mathematical value of the whole workflow state.
#[verifier::ext_equal]
pub struct AppDataView {
    pub app_status: AppStatus,
    pub verfification_period: Option<VerificationPeriodDef>,
    pub input_file_location: InputFileLocationView,
    pub extracted_dataset_result: Option<Seq<char>>,
    pub error: Option<Seq<char>>,
    pub verification_information: Seq<VerificationInformationView>,
    pub verification_status: Seq<VerificationStatusView>,
}

/// The workflow state: current phase, selected period, recorded input
/// locations, the extraction result location once extraction succeeded, the
/// last recorded background error, and the per-item descriptions and statuses.
#[derive(Debug)]
pub struct AppData {
    pub app_status: AppStatus,
    pub verfification_period: Option<VerificationPeriodDef>,
    pub input_file_location: InputFileLocation,
    pub extracted_dataset_result: Option<String>,
    pub error: Option<String>,
    pub verification_information: Vec<VerificationInformation>,
    pub verification_status: Vec<VerificationStatus>,
}

impl View for AppData {
    type V = AppDataView;

    open spec fn view(&self) -> AppDataView {
        AppDataView {
            app_status: self.app_status,
            verfification_period: self.verfification_period,
            input_file_location: self.input_file_location@,
            extracted_dataset_result: self.extracted_dataset_result.deep_view(),
            error: self.error.deep_view(),
            verification_information: self.verification_information.deep_view(),
            verification_status: self.verification_status.deep_view(),
        }
    }
}

impl AppData {
    /// The state a fresh or reset workflow holds.
    pub open spec fn spec_default() -> AppDataView {
        AppDataView {
            app_status: AppStatus::NotInitialized,
            verfification_period: None,
            input_file_location: InputFileLocationView {
                context_zip_file: None,
                setup_zip_file: None,
                tally_zip_file: None,
            },
            extracted_dataset_result: None,
            error: None,
            verification_information: Seq::empty(),
            verification_status: Seq::empty(),
        }
    }

    /// Well-formedness of the state: the description table and the status
    /// table list the same identifiers in the same order, and no identifier
    /// appears twice.
    pub open spec fn wf(self) -> bool {
        let v = self@;
        &&& v.verification_status.len() == v.verification_information.len()
        &&& (forall|i: int|
            0 <= i < v.verification_status.len() ==> (#[trigger] v.verification_status[i]).id
                == v.verification_information[i].id)
        &&& (forall|i: int, j: int|
            0 <= i < j < v.verification_status.len() ==> (#[trigger] v.verification_status[i]).id
                != (#[trigger] v.verification_status[j]).id)
    }

    /// Repopulate the two per-item tables from the supplied metadata, one
    /// entry per item: its description verbatim, its status not started with
    /// empty message lists. The previous table contents are discarded; the
    /// rest of the state is untouched.
    pub fn set_with_medata(&mut self, metadata_list: &Vec<VerificationMetadataItem>)
        requires
            forall|i: int, j: int|
                0 <= i < j < metadata_list@.len() ==> (#[trigger] metadata_list@[i]).id@
                    != (#[trigger] metadata_list@[j]).id@,
        ensures
            final(self)@ == (AppDataView {
                verification_information: final(self)@.verification_information,
                verification_status: final(self)@.verification_status,
                ..old(self)@
            }),
            final(self)@.verification_information.len() == metadata_list@.len(),
            final(self)@.verification_status.len() == metadata_list@.len(),
            forall|i: int|
                0 <= i < metadata_list@.len() ==> final(self)@.verification_information[i]
                    == (VerificationInformationView {
                    id: (#[trigger] metadata_list@[i]).id@,
                    name: metadata_list@[i].name@,
                    category: metadata_list@[i].category@,
                }),
            forall|i: int|
                0 <= i < metadata_list@.len() ==> final(self)@.verification_status[i]
                    == (VerificationStatusView {
                    id: (#[trigger] metadata_list@[i]).id@,
                    status: VerificationStatusEnum::NotStarted,
                    failures: Seq::empty(),
                    errors: Seq::empty(),
                }),
            final(self).wf(),
    {
        self.verification_information.clear();
        self.verification_status.clear();
        let n = metadata_list.len();
        let mut k: usize = 0;
        while k < n
            invariant
                n == metadata_list@.len(),
                k <= n,
                self.app_status == old(self).app_status,
                self.verfification_period == old(self).verfification_period,
                self.input_file_location@ == old(self).input_file_location@,
                self.extracted_dataset_result.deep_view() == old(self).extracted_dataset_result.deep_view(),
                self.error.deep_view() == old(self).error.deep_view(),
                self.verification_information@.len() == k,
                self.verification_status@.len() == k,
                forall|i: int|
                    0 <= i < k ==> self.verification_information.deep_view()[i]
                        == (VerificationInformationView {
                        id: (#[trigger] metadata_list@[i]).id@,
                        name: metadata_list@[i].name@,
                        category: metadata_list@[i].category@,
                    }),
                forall|i: int|
                    0 <= i < k ==> self.verification_status.deep_view()[i]
                        == (VerificationStatusView {
                        id: (#[trigger] metadata_list@[i]).id@,
                        status: VerificationStatusEnum::NotStarted,
                        failures: Seq::empty(),
                        errors: Seq::empty(),
                    }),
            decreases n - k,
        {
            let item = &metadata_list[k];
            self.verification_information.push(
                VerificationInformation {
                    id: item.id.clone(),
                    name: item.name.clone(),
                    category: item.category.clone(),
                },
            );
            self.verification_status.push(
                VerificationStatus {
                    id: item.id.clone(),
                    status: VerificationStatusEnum::NotStarted,
                    failures: Vec::new(),
                    errors: Vec::new(),
                },
            );
            k = k + 1;
        }
        proof {
            assert forall|i: int|
                0 <= i < self@.verification_status.len() implies (
            #[trigger] self@.verification_status[i]).id == self@.verification_information[i].id by {
                assert(self@.verification_status[i].id == metadata_list@[i].id@);
                assert(self@.verification_information[i].id == metadata_list@[i].id@);
            }
            assert forall|i: int, j: int|
                0 <= i < j < self@.verification_status.len() implies (
            #[trigger] self@.verification_status[i]).id != (
            #[trigger] self@.verification_status[j]).id by {
                assert(self@.verification_status[i].id == metadata_list@[i].id@);
                assert(self@.verification_status[j].id == metadata_list@[j].id@);
            }
            assert(self.wf());
        }
    }

    /// True while some item has not yet reached a terminal status.
    pub fn not_finished(&self) -> (r: bool)
        ensures
            r == exists|i: int|
                0 <= i < self@.verification_status.len() && !is_terminal(
                    #[trigger] self@.verification_status[i].status,
                ),
    {
        let n = self.verification_status.len();
        let mut k: usize = 0;
        while k < n
            invariant
                n == self@.verification_status.len(),
                k <= n,
                forall|i: int| 0 <= i < k ==> is_terminal(#[trigger] self@.verification_status[i].status),
            decreases n - k,
        {
            match self.verification_status[k].status {
                VerificationStatusEnum::NotStarted | VerificationStatusEnum::Running => {
                    proof {
                        assert(!is_terminal(self@.verification_status[k as int].status));
                    }
                    return true;
                },
                _ => {},
            }
            k = k + 1;
        }
        false
    }

    /// Record the outcome of one item's run: the item named by `id` moves to
    /// the terminal status its outcomes earn, and the reported message lists
    /// are stored verbatim. Every other item, and the rest of the state, is
    /// untouched. An identifier that names no item changes nothing.
    pub fn set_verification_status(&mut self, id: &str, errors: Vec<String>, failures: Vec<String>)
        requires
            old(self).wf(),
        ensures
            final(self).wf(),
            final(self)@ == (AppDataView {
                verification_status: final(self)@.verification_status,
                ..old(self)@
            }),
            final(self)@.verification_status.len() == old(self)@.verification_status.len(),
            forall|i: int|
                0 <= i < old(self)@.verification_status.len() && (
                #[trigger] old(self)@.verification_status[i]).id != id@ ==> final(self)@.verification_status[i] == old(self)@.verification_status[i],
            forall|i: int|
                0 <= i < old(self)@.verification_status.len() && (
                #[trigger] old(self)@.verification_status[i]).id == id@ ==> final(self)@.verification_status[i] == (VerificationStatusView {
                    status: VerificationStatusEnum::spec_from_has_errors_has_failures(
                        errors@.len() > 0,
                        failures@.len() > 0,
                    ),
                    failures: failures.deep_view(),
                    errors: errors.deep_view(),
                    ..old(self)@.verification_status[i]
                }),
            forall|i: int|
                0 <= i < old(self)@.verification_status.len() ==> status_rank(
                    (#[trigger] old(self)@.verification_status[i]).status,
                ) <= status_rank(final(self)@.verification_status[i].status),
            forall|i: int|
                0 <= i < old(self)@.verification_status.len() && (#[trigger] final(self)@.verification_status[i]).status is Running ==> old(self)@.verification_status[i].status is Running,
    {
        let n = self.verification_status.len();
        let mut k: usize = 0;
        while k < n
            invariant
                old(self).wf(),
                *self == *old(self),
                n == self@.verification_status.len(),
                k <= n,
                forall|i: int|
                    0 <= i < k ==> (#[trigger] self@.verification_status[i]).id != id@,
            decreases n - k,
        {
            if str_eq(self.verification_status[k].id.as_str(), id) {
                let has_errors = errors.len() > 0;
                let has_failures = failures.len() > 0;
                let ghost pre = self.verification_status.deep_view();
                let ghost pre_shallow = self.verification_status@;
                let ghost errors_v = errors.deep_view();
                let ghost failures_v = failures.deep_view();
                let mut entry = self.verification_status.remove(k);
                entry.status = VerificationStatusEnum::from_has_errors_has_failures(
                    has_errors,
                    has_failures,
                );
                entry.failures = failures;
                entry.errors = errors;
                let ghost entry_v = entry@;
                self.verification_status.insert(k, entry);
                proof {
                    let post = self.verification_status.deep_view();
                    let post_shallow = self.verification_status@;
                    assert forall|i: int|
                        0 <= i < pre_shallow.len() && i != k implies post_shallow[i]
                        == pre_shallow[i] by {
                        if i < k {
                            assert(pre_shallow.remove(k as int)[i] == pre_shallow[i]);
                        } else {
                            assert(pre_shallow.remove(k as int)[i - 1] == pre_shallow[i]);
                        }
                    }
                    assert(post[k as int] == entry_v);
                    assert(entry_v == (VerificationStatusView {
                        status: VerificationStatusEnum::spec_from_has_errors_has_failures(
                            errors_v.len() > 0,
                            failures_v.len() > 0,
                        ),
                        failures: failures_v,
                        errors: errors_v,
                        ..pre[k as int]
                    }));
                    assert forall|i: int| 0 <= i < pre.len() && i != k implies post[i] == pre[i] by {
                        assert(post_shallow[i] == pre_shallow[i]);
                    }
                    assert forall|i: int, j: int|
                        0 <= i < j < post.len() implies (#[trigger] post[i]).id != (
                    #[trigger] post[j]).id by {
                        assert(post[i].id == pre[i].id);
                        assert(post[j].id == pre[j].id);
                    }
                    assert(self.wf());
                }
                return ;
            }
            k = k + 1;
        }
    }

    /// Mark the item named by `id` as running, unless it already holds a
    /// terminal status. Every other item, and the rest of the state, is
    /// untouched. An identifier that names no item changes nothing.
    pub fn set_verification_running(&mut self, id: &str)
        requires
            old(self).wf(),
        ensures
            final(self).wf(),
            final(self)@ == (AppDataView {
                verification_status: final(self)@.verification_status,
                ..old(self)@
            }),
            final(self)@.verification_status.len() == old(self)@.verification_status.len(),
            forall|i: int|
                0 <= i < old(self)@.verification_status.len() && (
                #[trigger] old(self)@.verification_status[i]).id != id@ ==> final(self)@.verification_status[i] == old(self)@.verification_status[i],
            forall|i: int|
                0 <= i < old(self)@.verification_status.len() && (
                #[trigger] old(self)@.verification_status[i]).id == id@ ==> final(self)@.verification_status[i] == (if is_terminal(
                    old(self)@.verification_status[i].status,
                ) {
                    old(self)@.verification_status[i]
                } else {
                    VerificationStatusView {
                        status: VerificationStatusEnum::Running,
                        ..old(self)@.verification_status[i]
                    }
                }),
            forall|i: int|
                0 <= i < old(self)@.verification_status.len() ==> status_rank(
                    (#[trigger] old(self)@.verification_status[i]).status,
                ) <= status_rank(final(self)@.verification_status[i].status),
            forall|i: int|
                0 <= i < old(self)@.verification_status.len() && (#[trigger] final(self)@.verification_status[i]).status is Running ==> !is_terminal(
                    old(self)@.verification_status[i].status,
                ),
    {
        let n = self.verification_status.len();
        let mut k: usize = 0;
        while k < n
            invariant
                old(self).wf(),
                *self == *old(self),
                n == self@.verification_status.len(),
                k <= n,
                forall|i: int|
                    0 <= i < k ==> (#[trigger] self@.verification_status[i]).id != id@,
            decreases n - k,
        {
            if str_eq(self.verification_status[k].id.as_str(), id) {
                match self.verification_status[k].status {
                    VerificationStatusEnum::NotStarted | VerificationStatusEnum::Running => {
                        let ghost pre = self.verification_status.deep_view();
                        let ghost pre_shallow = self.verification_status@;
                        let mut entry = self.verification_status.remove(k);
                        entry.status = VerificationStatusEnum::Running;
                        let ghost entry_v = entry@;
                        self.verification_status.insert(k, entry);
                        proof {
                            let post = self.verification_status.deep_view();
                            let post_shallow = self.verification_status@;
                            assert forall|i: int|
                                0 <= i < pre_shallow.len() && i != k implies post_shallow[i]
                                == pre_shallow[i] by {
                                if i < k {
                                    assert(pre_shallow.remove(k as int)[i] == pre_shallow[i]);
                                } else {
                                    assert(pre_shallow.remove(k as int)[i - 1] == pre_shallow[i]);
                                }
                            }
                            assert(post[k as int] == entry_v);
                            assert(entry_v == (VerificationStatusView {
                                status: VerificationStatusEnum::Running,
                                ..pre[k as int]
                            }));
                            assert forall|i: int|
                                0 <= i < pre.len() && i != k implies post[i] == pre[i] by {
                                assert(post_shallow[i] == pre_shallow[i]);
                            }
                            assert forall|i: int, j: int|
                                0 <= i < j < post.len() implies (#[trigger] post[i]).id != (
                            #[trigger] post[j]).id by {
                                assert(post[i].id == pre[i].id);
                                assert(post[j].id == pre[j].id);
                            }
                            assert(!is_terminal(pre[k as int].status));
                            assert(self.wf());
                        }
                    },
                    _ => {
                        proof {
                            assert(is_terminal(self@.verification_status[k as int].status));
                        }
                    },
                }
                return ;
            }
            k = k + 1;
        }
    }
}

impl Default for AppData {
    /// A fresh workflow: not initialized, nothing recorded, no items.
    fn default() -> (r: Self)
        ensures
            r@ == AppData::spec_default(),
            r.wf(),
    {
        let r = AppData {
            app_status: AppStatus::NotInitialized,
            verfification_period: None,
            input_file_location: InputFileLocation::default(),
            extracted_dataset_result: None,
            error: None,
            verification_information: Vec::new(),
            verification_status: Vec::new(),
        };
        proof {
            assert(r@ =~= AppData::spec_default());
        }
        r
    }
}

} // verus!
