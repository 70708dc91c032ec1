use verifier_backend::app_data::{AppData, AppStatus, VerificationPeriodDef, VerificationStatusEnum};
use verifier_backend::handler::send_file::{apply_context_dataset, apply_period_dataset};
use verifier_backend::handler::extract::{apply_extract_start, apply_extract_success};
use verifier_backend::handler::{apply_init, apply_reset};
use verifier_backend::response::StatusResponse;

const CONTEXT_FILE_ZIP: &str = "./datasets/Dataset-context-NE_20231124_TT05-20240802_1158.zip";
const SETUP_FILE_ZIP: &str = "./datasets/Dataset-setup-NE_20231124_TT05-20240802_1158.zip";
const TALLY_FILE_ZIP: &str = "./datasets/Dataset-tally-NE_20231124_TT05-20240802_1207.zip";

#[test]
fn test_health_check() {
    let data = AppData::default();
    assert_eq!(data.app_status, AppStatus::NotInitialized);
    assert_eq!(data.verfification_period, None);
}

#[test]
fn test_status() {
    let data = AppData::default();
    let json = StatusResponse::from(&data);
    assert_eq!(json.app_status, AppStatus::NotInitialized)
}

#[test]
fn test_init() {
    let mut data = AppData::default();
    apply_init(&mut data, VerificationPeriodDef::Tally);
    let json = StatusResponse::from(&data);
    assert_eq!(json.app_status, AppStatus::Initialized);
    assert_eq!(json.verfification_period, Some(VerificationPeriodDef::Tally));
    assert_eq!(data.app_status, AppStatus::Initialized);
    assert_eq!(data.verfification_period, Some(VerificationPeriodDef::Tally));
}

#[test]
fn test_reset() {
    let mut data = AppData::default();
    apply_init(&mut data, VerificationPeriodDef::Tally);
    apply_reset(&mut data);
    assert_eq!(data.app_status, AppStatus::NotInitialized);
    assert_eq!(data.verfification_period, None);
}

#[test]
fn test_files_setup() {
    let mut data = AppData::default();
    apply_init(&mut data, VerificationPeriodDef::Setup);
    apply_context_dataset(&mut data, CONTEXT_FILE_ZIP.to_string(), true).unwrap();
    assert_eq!(data.app_status, AppStatus::ContextDataSetLoaded);
    apply_period_dataset(&mut data, SETUP_FILE_ZIP.to_string(), true).unwrap();
    assert_eq!(data.app_status, AppStatus::PeriodDataSetLoaded);
    assert_eq!(
        data.input_file_location.context_zip_file.as_ref().unwrap(),
        CONTEXT_FILE_ZIP
    );
    assert_eq!(
        data.input_file_location.setup_zip_file.as_ref().unwrap(),
        SETUP_FILE_ZIP
    );
    assert!(data.input_file_location.tally_zip_file.is_none())
}

#[test]
fn test_files_tally() {
    let mut data = AppData::default();
    apply_init(&mut data, VerificationPeriodDef::Tally);
    apply_context_dataset(&mut data, CONTEXT_FILE_ZIP.to_string(), true).unwrap();
    assert_eq!(data.app_status, AppStatus::ContextDataSetLoaded);
    apply_period_dataset(&mut data, TALLY_FILE_ZIP.to_string(), true).unwrap();
    assert_eq!(data.app_status, AppStatus::PeriodDataSetLoaded);
    assert_eq!(
        data.input_file_location.context_zip_file.as_ref().unwrap(),
        CONTEXT_FILE_ZIP
    );
    assert_eq!(
        data.input_file_location.tally_zip_file.as_ref().unwrap(),
        TALLY_FILE_ZIP
    );
    assert!(data.input_file_location.setup_zip_file.is_none())
}

#[test]
fn test_files_error() {
    let mut data = AppData::default();
    apply_init(&mut data, VerificationPeriodDef::Tally);
    let response = apply_context_dataset(&mut data, "./toto".to_string(), false);
    assert!(response.is_err());
    assert_eq!(data.app_status, AppStatus::Initialized);

    apply_reset(&mut data);
    apply_init(&mut data, VerificationPeriodDef::Tally);
    apply_context_dataset(&mut data, CONTEXT_FILE_ZIP.to_string(), true).unwrap();
    let response = apply_period_dataset(&mut data, "./toto".to_string(), false);
    assert!(response.is_err());
    assert_eq!(data.app_status, AppStatus::ContextDataSetLoaded);
}

#[test]
fn test_extract() {
    let mut data = AppData::default();
    apply_init(&mut data, VerificationPeriodDef::Tally);
    apply_context_dataset(&mut data, CONTEXT_FILE_ZIP.to_string(), true).unwrap();
    apply_period_dataset(&mut data, TALLY_FILE_ZIP.to_string(), true).unwrap();

    apply_extract_start(&mut data);
    assert_eq!(data.app_status, AppStatus::Extracting);

    apply_extract_success(&mut data, "./extracted".to_string());
    assert_eq!(data.app_status, AppStatus::Extracted);
    assert!(data.extracted_dataset_result.is_some());
}

#[test]
fn test_rejection_message_is_exact() {
    let mut data = AppData::default();
    apply_init(&mut data, VerificationPeriodDef::Tally);
    let err = apply_context_dataset(&mut data, "./toto".to_string(), false).unwrap_err();
    assert_eq!(err.0, "Context file ./toto not exist");
    apply_context_dataset(&mut data, CONTEXT_FILE_ZIP.to_string(), true).unwrap();
    let err = apply_period_dataset(&mut data, "./toto".to_string(), false).unwrap_err();
    assert_eq!(err.0, "Period dataset file ./toto not exist");
}

#[test]
fn test_from_has_errors_has_failures() {
    assert_eq!(
        VerificationStatusEnum::from_has_errors_has_failures(false, false),
        VerificationStatusEnum::FinishedSuccessfully
    );
    assert_eq!(
        VerificationStatusEnum::from_has_errors_has_failures(false, true),
        VerificationStatusEnum::FinishedWithFailures
    );
    assert_eq!(
        VerificationStatusEnum::from_has_errors_has_failures(true, false),
        VerificationStatusEnum::FinishedWithErrors
    );
    assert_eq!(
        VerificationStatusEnum::from_has_errors_has_failures(true, true),
        VerificationStatusEnum::FinishedWithFailureAndErrors
    );
}

#[test]
fn test_reset_clears_everything() {
    let mut data = AppData::default();
    apply_init(&mut data, VerificationPeriodDef::Tally);
    apply_context_dataset(&mut data, CONTEXT_FILE_ZIP.to_string(), true).unwrap();
    apply_period_dataset(&mut data, TALLY_FILE_ZIP.to_string(), true).unwrap();
    apply_extract_start(&mut data);
    apply_extract_success(&mut data, "./extracted".to_string());

    apply_reset(&mut data);
    assert_eq!(data.app_status, AppStatus::NotInitialized);
    assert_eq!(data.verfification_period, None);
    assert!(data.input_file_location.context_zip_file.is_none());
    assert!(data.input_file_location.setup_zip_file.is_none());
    assert!(data.input_file_location.tally_zip_file.is_none());
    assert!(data.extracted_dataset_result.is_none());
    assert!(data.error.is_none());
    assert!(data.verification_information.is_empty());
    assert!(data.verification_status.is_empty());
}
