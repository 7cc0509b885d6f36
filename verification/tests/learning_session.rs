use fuel_ingestion_service::learning_session::{
    map_learning_session, BehaviourSampleRecordError, BehaviourSampleRecordOutcome, BehaviourType,
    LearningSessionMappingError, LearningStatus, OperationalBehaviourLearningSession,
};

fn session(status: LearningStatus, requested: i32, collected: i32) -> OperationalBehaviourLearningSession {
    OperationalBehaviourLearningSession {
        id: 7,
        device_id: 8,
        sensor_id: 9,
        behaviour_type: BehaviourType::Idle,
        status,
        requested_sample_count: requested,
        collected_sample_count: collected,
        started_at: Some(1_000),
        completed_at: None,
        failure_reason: None,
        created_at: 500,
        updated_at: 1_000,
    }
}

#[test]
fn behaviour_type_maps_to_database_values() {
    assert_eq!(BehaviourType::Parked.as_str(), "PARKED");
    assert_eq!(BehaviourType::Idle.as_str(), "IDLE");
    assert_eq!(BehaviourType::Moving.as_str(), "MOVING");
}

#[test]
fn behaviour_type_parses_database_values() {
    assert_eq!(BehaviourType::from_str("PARKED"), Some(BehaviourType::Parked));
    assert_eq!(BehaviourType::from_str("IDLE"), Some(BehaviourType::Idle));
    assert_eq!(BehaviourType::from_str("MOVING"), Some(BehaviourType::Moving));
    assert_eq!(BehaviourType::from_str("UNKNOWN"), None);
}

#[test]
fn learning_status_maps_to_database_values() {
    assert_eq!(LearningStatus::NotStarted.as_str(), "NOT_STARTED");
    assert_eq!(LearningStatus::Collecting.as_str(), "COLLECTING");
    assert_eq!(LearningStatus::Completed.as_str(), "COMPLETED");
    assert_eq!(LearningStatus::Failed.as_str(), "FAILED");
}

#[test]
fn learning_status_parses_its_database_values_back() {
    for status in [
        LearningStatus::NotStarted,
        LearningStatus::Collecting,
        LearningStatus::Completed,
        LearningStatus::Failed,
    ] {
        assert_eq!(LearningStatus::from_str(status.as_str()), Some(status));
    }
    assert_eq!(LearningStatus::from_str("collecting"), None);
}

#[test]
fn remaining_sample_count_never_goes_negative() {
    assert_eq!(session(LearningStatus::Collecting, 30, 12).remaining_sample_count(), 18);
    assert_eq!(session(LearningStatus::Collecting, 30, 30).remaining_sample_count(), 0);
    assert_eq!(session(LearningStatus::Collecting, 30, 35).remaining_sample_count(), 0);
}

#[test]
fn status_predicates_follow_the_status() {
    assert!(session(LearningStatus::Collecting, 1, 0).is_collecting());
    assert!(!session(LearningStatus::Collecting, 1, 0).is_complete());
    assert!(session(LearningStatus::Completed, 1, 1).is_complete());
}

#[test]
fn only_a_not_started_session_starts() {
    let mut not_started = session(LearningStatus::NotStarted, 30, 0);
    not_started.started_at = None;
    not_started.failure_reason = Some("old".to_string());
    let started = not_started.start(2_000).expect("a new session starts");
    assert_eq!(started.status, LearningStatus::Collecting);
    assert_eq!(started.started_at, Some(2_000));
    assert_eq!(started.failure_reason, None);
    assert_eq!(started.updated_at, 2_000);

    assert!(session(LearningStatus::Collecting, 30, 0).start(2_000).is_none());
}

#[test]
fn only_a_collecting_session_completes() {
    let completed = session(LearningStatus::Collecting, 30, 30).complete(3_000).unwrap();
    assert_eq!(completed.status, LearningStatus::Completed);
    assert_eq!(completed.completed_at, Some(3_000));
    assert!(session(LearningStatus::NotStarted, 30, 0).complete(3_000).is_none());
    assert!(session(LearningStatus::Failed, 30, 0).complete(3_000).is_none());
}

#[test]
fn unfinished_sessions_can_fail_and_finished_ones_cannot() {
    let failed = session(LearningStatus::NotStarted, 30, 0)
        .fail("device offline".to_string(), 4_000)
        .unwrap();
    assert_eq!(failed.status, LearningStatus::Failed);
    assert_eq!(failed.failure_reason.as_deref(), Some("device offline"));
    assert_eq!(failed.completed_at, Some(4_000));
    assert!(session(LearningStatus::Completed, 30, 30)
        .fail("late".to_string(), 4_000)
        .is_none());
    assert!(session(LearningStatus::Failed, 30, 3)
        .fail("again".to_string(), 4_000)
        .is_none());
}

#[test]
fn recording_a_sample_increments_the_collected_count() {
    match session(LearningStatus::Collecting, 30, 12).record_sample(1_500, 1_600) {
        Ok(BehaviourSampleRecordOutcome::Recorded(next)) => {
            assert_eq!(next.collected_sample_count, 13);
            assert_eq!(next.updated_at, 1_600);
            assert_eq!(next.requested_sample_count, 30);
        }
        other => panic!("unexpected outcome {other:?}"),
    }
}

#[test]
fn samples_before_the_session_start_are_skipped() {
    assert!(matches!(
        session(LearningStatus::Collecting, 30, 12).record_sample(999, 1_600),
        Ok(BehaviourSampleRecordOutcome::SkippedBeforeSessionStart)
    ));
}

#[test]
fn full_sessions_skip_further_samples() {
    assert!(matches!(
        session(LearningStatus::Collecting, 30, 30).record_sample(1_500, 1_600),
        Ok(BehaviourSampleRecordOutcome::SkippedSessionFull)
    ));
}

#[test]
fn samples_are_refused_unless_collecting() {
    assert_eq!(
        session(LearningStatus::Completed, 30, 30)
            .record_sample(1_500, 1_600)
            .unwrap_err(),
        BehaviourSampleRecordError::NotCollecting {
            learning_session_id: 7,
            status: LearningStatus::Completed,
        }
    );
}

#[test]
fn persisted_rows_map_to_sessions() {
    let mapped = map_learning_session(
        1,
        2,
        3,
        "MOVING".to_string(),
        "COLLECTING".to_string(),
        40,
        10,
        Some(5),
        None,
        None,
        1,
        5,
    )
    .unwrap();
    assert_eq!(mapped.behaviour_type, BehaviourType::Moving);
    assert_eq!(mapped.status, LearningStatus::Collecting);
    assert_eq!(mapped.requested_sample_count, 40);

    let bad_type = map_learning_session(
        1, 2, 3, "DRIFTING".to_string(), "COLLECTING".to_string(), 40, 10, None, None, None, 1, 5,
    );
    assert_eq!(
        bad_type.unwrap_err(),
        LearningSessionMappingError::UnsupportedBehaviourType("DRIFTING".to_string())
    );

    let bad_status = map_learning_session(
        1, 2, 3, "IDLE".to_string(), "PAUSED".to_string(), 40, 10, None, None, None, 1, 5,
    );
    assert_eq!(
        bad_status.unwrap_err(),
        LearningSessionMappingError::UnsupportedLearningStatus("PAUSED".to_string())
    );
}
