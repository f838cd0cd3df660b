use taple_sdk::error::TapleError;
use taple_sdk::models::TapleRequestState;
use taple_sdk::subject::{
    error_conversion, governance_check, refresh_start, refresh_subject, request_progress,
    EngineFailure, RefreshStart, RequestProgress, SubjectDraft,
};

#[test]
fn refresh_start_choices() {
    assert_eq!(refresh_start(true, true), Ok(RefreshStart::CheckSubject));
    assert_eq!(refresh_start(true, false), Ok(RefreshStart::CheckSubject));
    assert_eq!(refresh_start(false, true), Ok(RefreshStart::CheckRequest));
    assert_eq!(
        refresh_start(false, false),
        Err(TapleError::NotFound("Event request not found".to_string()))
    );
}

#[test]
fn newer_subject_replaces_cached_one() {
    let mut cached = "v3".to_string();
    assert!(refresh_subject(&mut cached, 3, "v5".to_string(), 5));
    assert_eq!(cached, "v5");
    assert!(!refresh_subject(&mut cached, 5, "v5b".to_string(), 5));
    assert!(!refresh_subject(&mut cached, 5, "v4".to_string(), 4));
    assert_eq!(cached, "v5");
}

#[test]
fn creation_request_progress() {
    assert_eq!(
        request_progress(TapleRequestState::Processing, None),
        Ok(RequestProgress::Pending)
    );
    assert_eq!(
        request_progress(TapleRequestState::Error, Some("s".to_string())),
        Ok(RequestProgress::Pending)
    );
    assert_eq!(
        request_progress(TapleRequestState::Finished, Some("s".to_string())),
        Ok(RequestProgress::SubjectReady("s".to_string()))
    );
    assert_eq!(
        request_progress(TapleRequestState::Finished, None),
        Err(TapleError::NotFound("Subject ID not found".to_string()))
    );
}

#[test]
fn only_governance_schema_is_a_governance() {
    assert_eq!(governance_check(Some(&"governance".to_string())), Ok(()));
    assert_eq!(
        governance_check(Some(&"traceability".to_string())),
        Err(TapleError::NotFound("Schema ID not valid".to_string()))
    );
    assert_eq!(
        governance_check(None),
        Err(TapleError::NotFound("Subject data not found".to_string()))
    );
}

#[test]
fn draft_defaults_to_empty() {
    let mut d = SubjectDraft::new();
    assert_eq!(d.get_name(), "");
    assert_eq!(d.get_namespace(), "");
    d.with_name("car".to_string());
    d.with_namespace("fleet".to_string());
    assert_eq!(d.get_name(), "car");
    assert_eq!(d.get_namespace(), "fleet");
}

#[test]
fn engine_failures_map_to_caller_errors() {
    assert_eq!(
        error_conversion(EngineFailure::NotFound("no subject".to_string())),
        TapleError::NotFound("no subject".to_string())
    );
    assert_eq!(
        error_conversion(EngineFailure::Other("db down".to_string())),
        TapleError::ExecutionError("db down".to_string())
    );
}
