use fuel_ingestion_service::api_errors::{
    classify_calibration_profile_error, classify_calibration_session_start_error,
    ErrorResponseKind,
};
use fuel_ingestion_service::calibration_session::{
    check_anchor_application, check_point_capture, check_profile_creation,
    check_profile_lifecycle, check_session_completion, check_session_start, validate_sessions,
    FuelCalibrationSession, FuelCalibrationSessionError, LitreReading, ProfileCreationError,
    ProfileLifecycleError, SessionStartError, SessionWorkflowError,
};
use fuel_ingestion_service::calibration_status::{
    FuelCalibrationConfidence, FuelCalibrationSessionStatus, FuelCalibrationStatus,
};

/// 2026-01-01T00:00:00Z in microseconds since the Unix epoch.
const STARTED_AT: i64 = 1_767_225_600_000_000;
const ONE_MINUTE: i64 = 60_000_000;

fn litres(quantity: Option<f64>) -> LitreReading {
    match quantity {
        None => LitreReading::Unknown,
        Some(value) if value.is_finite() && value >= 0.0 => LitreReading::Valid,
        Some(_) => LitreReading::Invalid,
    }
}

fn base_session(status: FuelCalibrationSessionStatus) -> FuelCalibrationSession {
    FuelCalibrationSession {
        id: 1,
        started_at: STARTED_AT,
        completed_at: None,
        status,
        starting_litres: litres(Some(20.0)),
        ending_litres: litres(Some(40.0)),
        captured_point_count: 1,
    }
}

#[test]
fn active_session_without_completion_time_is_valid() {
    let session = base_session(FuelCalibrationSessionStatus::Active);

    assert!(session.validate().is_ok());
    assert!(session.is_active());
    assert!(!session.is_paused());
    assert!(!session.is_completed());
}

#[test]
fn paused_session_without_completion_time_is_valid() {
    let session = base_session(FuelCalibrationSessionStatus::Paused);

    assert!(session.validate().is_ok());
    assert!(!session.is_active());
    assert!(session.is_paused());
    assert!(!session.is_completed());
}

#[test]
fn completed_session_requires_completion_time() {
    let mut session = base_session(FuelCalibrationSessionStatus::Completed);
    session.captured_point_count = 2;

    let error = session
        .validate()
        .expect_err("completed session without completion time should fail");

    assert_eq!(
        error.message(),
        "A completed calibration session must have a completion time."
    );
}

#[test]
fn completed_session_requires_at_least_two_verified_points() {
    let mut session = base_session(FuelCalibrationSessionStatus::Completed);
    session.completed_at = Some(session.started_at + 10 * ONE_MINUTE);

    let error = session
        .validate()
        .expect_err("completed session with fewer than two points should fail");

    assert_eq!(
        error.message(),
        "A completed calibration session must contain at least two verified points."
    );
}

#[test]
fn completed_session_with_two_points_is_valid() {
    let mut session = base_session(FuelCalibrationSessionStatus::Completed);
    session.completed_at = Some(session.started_at + 10 * ONE_MINUTE);
    session.captured_point_count = 2;

    assert!(session.validate().is_ok());
    assert!(session.is_completed());
}

#[test]
fn active_session_must_not_have_completion_time() {
    let mut session = base_session(FuelCalibrationSessionStatus::Active);
    session.completed_at = Some(session.started_at + 10 * ONE_MINUTE);

    let error = session
        .validate()
        .expect_err("active session with completion time should fail");

    assert_eq!(
        error.message(),
        "An active calibration session must not have a completion time."
    );
}

#[test]
fn paused_session_must_not_have_completion_time() {
    let mut session = base_session(FuelCalibrationSessionStatus::Paused);
    session.completed_at = Some(session.started_at + 10 * ONE_MINUTE);

    let error = session
        .validate()
        .expect_err("paused session with completion time should fail");

    assert_eq!(
        error.message(),
        "A paused calibration session must not have a completion time."
    );
}

#[test]
fn draining_session_allows_ending_litres_below_starting_litres() {
    let mut session = base_session(FuelCalibrationSessionStatus::Active);

    session.starting_litres = litres(Some(50.0));
    session.ending_litres = litres(Some(20.0));

    assert!(session.validate().is_ok());
}

#[test]
fn completed_draining_session_is_valid() {
    let mut session = base_session(FuelCalibrationSessionStatus::Completed);

    session.starting_litres = litres(Some(100.0));
    session.ending_litres = litres(Some(0.0));
    session.completed_at = Some(session.started_at + 10 * ONE_MINUTE);
    session.captured_point_count = 2;

    assert!(session.validate().is_ok());
    assert!(session.is_completed());
}

#[test]
fn completion_time_must_not_be_before_start_time() {
    let mut session = base_session(FuelCalibrationSessionStatus::Completed);
    session.completed_at = Some(session.started_at - ONE_MINUTE);
    session.captured_point_count = 2;

    let error = session
        .validate()
        .expect_err("completion before start should fail");

    assert_eq!(
        error.message(),
        "Calibration session completion time must not be before its start time."
    );
}

#[test]
fn active_session_allows_unknown_starting_and_ending_litres() {
    let mut session = base_session(FuelCalibrationSessionStatus::Active);

    session.starting_litres = litres(None);
    session.ending_litres = litres(None);

    assert!(session.validate().is_ok());
}

#[test]
fn paused_session_allows_unknown_starting_and_ending_litres() {
    let mut session = base_session(FuelCalibrationSessionStatus::Paused);

    session.starting_litres = litres(None);
    session.ending_litres = litres(None);

    assert!(session.validate().is_ok());
}

#[test]
fn completed_session_requires_resolved_litre_values() {
    let mut session = base_session(FuelCalibrationSessionStatus::Completed);

    session.completed_at = Some(session.started_at + 10 * ONE_MINUTE);
    session.captured_point_count = 2;
    session.starting_litres = litres(None);
    session.ending_litres = litres(None);

    let error = session
        .validate()
        .expect_err("completed session with unresolved litres should fail");

    assert_eq!(
        error.message(),
        "A completed calibration session must have resolved starting and ending litres."
    );
}

#[test]
fn abandoned_session_without_completion_time_is_valid() {
    let session = base_session(FuelCalibrationSessionStatus::Abandoned);

    assert!(session.validate().is_ok());

    assert!(!session.is_active());
    assert!(!session.is_paused());
    assert!(session.is_abandoned());
    assert!(!session.is_completed());
}

#[test]
fn abandoned_session_must_not_have_completion_time() {
    let mut session = base_session(FuelCalibrationSessionStatus::Abandoned);

    session.completed_at = Some(session.started_at + 10 * ONE_MINUTE);

    let error = session
        .validate()
        .expect_err("abandoned session with completion time should fail");

    assert_eq!(
        error.message(),
        "An abandoned calibration session must not have a completion time."
    );
}

#[test]
fn abandoned_session_allows_unknown_litre_values() {
    let mut session = base_session(FuelCalibrationSessionStatus::Abandoned);

    session.starting_litres = litres(None);
    session.ending_litres = litres(None);

    assert!(session.validate().is_ok());
    assert!(session.is_abandoned());
}

#[test]
fn negative_starting_litres_are_reported_first() {
    let mut session = base_session(FuelCalibrationSessionStatus::Completed);
    session.starting_litres = litres(Some(-1.0));
    session.ending_litres = litres(Some(f64::NAN));

    assert_eq!(
        session.validate(),
        Err(FuelCalibrationSessionError::InvalidStartingLitres)
    );
    session.starting_litres = litres(Some(1.0));
    assert_eq!(
        session.validate(),
        Err(FuelCalibrationSessionError::InvalidEndingLitres)
    );
}

fn paused_session() -> FuelCalibrationSession {
    FuelCalibrationSession {
        id: 2,
        started_at: STARTED_AT,
        completed_at: None,
        status: FuelCalibrationSessionStatus::Paused,
        starting_litres: litres(Some(20.0)),
        ending_litres: litres(Some(80.0)),
        captured_point_count: 1,
    }
}

fn completed_session() -> FuelCalibrationSession {
    FuelCalibrationSession {
        id: 3,
        started_at: STARTED_AT,
        completed_at: Some(STARTED_AT + 10 * ONE_MINUTE),
        status: FuelCalibrationSessionStatus::Completed,
        starting_litres: litres(Some(20.0)),
        ending_litres: litres(Some(80.0)),
        captured_point_count: 2,
    }
}

/// Coverage of the progressive profile used below: 20 L to 80 L of a 200 L tank.
const PROGRESSIVE_COVERAGE_IS_COMPLETE: bool = false;

#[test]
fn progressive_profile_allows_valid_paused_session() {
    let sessions = vec![paused_session()];

    assert!(validate_sessions(&sessions).is_ok());
    assert!(check_profile_lifecycle(
        FuelCalibrationStatus::Progressive,
        FuelCalibrationConfidence::Medium,
        &sessions,
        PROGRESSIVE_COVERAGE_IS_COMPLETE,
    )
    .is_ok());
}

#[test]
fn invalid_session_makes_profile_invalid() {
    let mut session = paused_session();
    session.completed_at = Some(STARTED_AT + ONE_MINUTE);
    let sessions = vec![session];

    let error = validate_sessions(&sessions).expect_err("invalid session should invalidate profile");

    assert_eq!(
        error.message(),
        "A paused calibration session must not have a completion time."
    );
}

#[test]
fn validated_profile_requires_completed_session() {
    let sessions = vec![paused_session()];

    let error = check_profile_lifecycle(
        FuelCalibrationStatus::Validated,
        FuelCalibrationConfidence::Medium,
        &sessions,
        PROGRESSIVE_COVERAGE_IS_COMPLETE,
    )
    .expect_err("validated profile without completed session should fail");

    assert_eq!(
        error.message(),
        "Validated and production calibrations require at least one completed session."
    );
}

#[test]
fn validated_profile_accepts_completed_session() {
    let sessions = vec![completed_session()];

    assert!(validate_sessions(&sessions).is_ok());
    assert!(check_profile_lifecycle(
        FuelCalibrationStatus::Validated,
        FuelCalibrationConfidence::Medium,
        &sessions,
        PROGRESSIVE_COVERAGE_IS_COMPLETE,
    )
    .is_ok());
}

#[test]
fn production_profile_rejects_low_confidence() {
    let sessions = vec![completed_session()];

    let error = check_profile_lifecycle(
        FuelCalibrationStatus::Production,
        FuelCalibrationConfidence::Low,
        &sessions,
        PROGRESSIVE_COVERAGE_IS_COMPLETE,
    )
    .expect_err("production profile with low confidence should fail");

    assert_eq!(error.message(), "A production calibration cannot have low confidence.");
}

#[test]
fn verified_confidence_requires_complete_coverage() {
    let sessions = vec![paused_session()];

    let error = check_profile_lifecycle(
        FuelCalibrationStatus::Progressive,
        FuelCalibrationConfidence::Verified,
        &sessions,
        PROGRESSIVE_COVERAGE_IS_COMPLETE,
    )
    .expect_err("verified confidence with partial coverage should fail");

    assert_eq!(
        error.message(),
        "Verified calibration confidence requires complete tank coverage."
    );
}

#[test]
fn draft_profile_must_not_hold_sessions() {
    assert_eq!(
        check_profile_lifecycle(
            FuelCalibrationStatus::Draft,
            FuelCalibrationConfidence::Low,
            &vec![paused_session()],
            false,
        ),
        Err(ProfileLifecycleError::DraftWithSessions)
    );
    assert!(check_profile_lifecycle(
        FuelCalibrationStatus::Draft,
        FuelCalibrationConfidence::Low,
        &vec![],
        false,
    )
    .is_ok());
}

#[test]
fn points_are_captured_only_while_active() {
    assert!(check_point_capture(Some(FuelCalibrationSessionStatus::Active)).is_ok());
    let refused = check_point_capture(Some(FuelCalibrationSessionStatus::Paused)).unwrap_err();
    assert_eq!(
        refused.message(),
        "Calibration points can only be captured while the session is active."
    );
    assert!(check_point_capture(None).is_err());
}

#[test]
fn pause_resume_and_abandon_follow_the_lifecycle() {
    type Status = FuelCalibrationSessionStatus;
    assert_eq!(Status::Active.paused(), Status::Paused);
    assert_eq!(Status::Paused.resumed(), Status::Active);
    assert_eq!(Status::Completed.paused(), Status::Completed);
    assert_eq!(Status::Abandoned.resumed(), Status::Abandoned);
    assert_eq!(Status::Paused.abandoned(), Ok(Status::Abandoned));
    assert_eq!(
        Status::Completed.abandoned().unwrap_err().message(),
        "Only an active or paused fuel calibration session can be abandoned."
    );
}

#[test]
fn anchors_need_an_unfinished_session_with_points() {
    assert!(check_anchor_application(Some(FuelCalibrationSessionStatus::Paused), 3).is_ok());
    assert_eq!(
        check_anchor_application(Some(FuelCalibrationSessionStatus::Completed), 3),
        Err(SessionWorkflowError::AnchorRequiresUnfinishedSession)
    );
    assert_eq!(
        check_anchor_application(Some(FuelCalibrationSessionStatus::Active), 0)
            .unwrap_err()
            .message(),
        "A fuel calibration anchor cannot be applied before any calibration points have been captured."
    );
}

#[test]
fn completion_requires_resolved_evidence() {
    let active = Some(FuelCalibrationSessionStatus::Active);
    assert!(check_session_completion(active, true, true, &vec![true, true]).is_ok());
    assert_eq!(
        check_session_completion(Some(FuelCalibrationSessionStatus::Abandoned), true, true, &vec![true, true]),
        Err(SessionWorkflowError::CompletionRequiresUnfinishedSession)
    );
    assert_eq!(
        check_session_completion(active, false, true, &vec![true, true]),
        Err(SessionWorkflowError::CompletionRequiresStartingQuantity)
    );
    assert_eq!(
        check_session_completion(active, true, false, &vec![true, true]),
        Err(SessionWorkflowError::CompletionRequiresEndingQuantity)
    );
    assert_eq!(
        check_session_completion(active, true, true, &vec![true]),
        Err(SessionWorkflowError::CompletionRequiresTwoPoints)
    );
    assert_eq!(
        check_session_completion(active, true, true, &vec![true, false, true])
            .unwrap_err()
            .message(),
        "Fuel calibration session cannot be completed while calibration points remain unresolved."
    );
}

#[test]
fn profile_creation_checks_run_in_order() {
    assert_eq!(
        check_profile_creation(None, false, true),
        Err(ProfileCreationError::SensorNotFound)
    );
    assert_eq!(
        check_profile_creation(Some("GPS"), false, true),
        Err(ProfileCreationError::NotAFuelSensor)
    );
    assert_eq!(
        check_profile_creation(Some("FUEL"), false, true),
        Err(ProfileCreationError::InvalidTankCapacity)
    );
    assert_eq!(
        check_profile_creation(Some("FUEL"), true, true),
        Err(ProfileCreationError::CurrentProfileExists)
    );
    assert_eq!(check_profile_creation(Some("FUEL"), true, false), Ok(()));

    let expected = [
        (ProfileCreationError::SensorNotFound, ErrorResponseKind::NotFound),
        (ProfileCreationError::NotAFuelSensor, ErrorResponseKind::BadRequest),
        (ProfileCreationError::InvalidTankCapacity, ErrorResponseKind::BadRequest),
        (ProfileCreationError::CurrentProfileExists, ErrorResponseKind::Conflict),
    ];
    for (error, kind) in expected {
        assert_eq!(classify_calibration_profile_error(error.message()), kind);
    }
}

#[test]
fn session_start_checks_run_in_order() {
    let finished = vec![
        Some(FuelCalibrationSessionStatus::Completed),
        Some(FuelCalibrationSessionStatus::Abandoned),
        None,
    ];
    let with_paused = vec![
        Some(FuelCalibrationSessionStatus::Completed),
        Some(FuelCalibrationSessionStatus::Paused),
    ];
    assert_eq!(
        check_session_start(false, None, false, &with_paused),
        Err(SessionStartError::ProfileNotFound)
    );
    assert_eq!(
        check_session_start(true, Some(FuelCalibrationStatus::Superseded), false, &with_paused),
        Err(SessionStartError::SupersededProfile)
    );
    assert_eq!(
        check_session_start(true, Some(FuelCalibrationStatus::Draft), false, &with_paused),
        Err(SessionStartError::InvalidStartingQuantity)
    );
    assert_eq!(
        check_session_start(true, Some(FuelCalibrationStatus::Draft), true, &with_paused),
        Err(SessionStartError::UnfinishedSessionExists)
    );
    assert_eq!(
        check_session_start(true, Some(FuelCalibrationStatus::Progressive), true, &finished),
        Ok(())
    );

    let expected = [
        (SessionStartError::ProfileNotFound, ErrorResponseKind::NotFound),
        (SessionStartError::SupersededProfile, ErrorResponseKind::BadRequest),
        (SessionStartError::InvalidStartingQuantity, ErrorResponseKind::BadRequest),
        (SessionStartError::UnfinishedSessionExists, ErrorResponseKind::Conflict),
    ];
    for (error, kind) in expected {
        assert_eq!(classify_calibration_session_start_error(error.message()), kind);
    }
}
