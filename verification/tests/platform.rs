use fuel_ingestion_service::analytics::{normalize_trend_days, requested_trend_days};
use fuel_ingestion_service::api_models::{
    AnalyticsDeviceHealthTrendQuery, AnalyticsGeofenceUtilizationQuery, ApiResponse,
    HeartbeatResponse,
};
use fuel_ingestion_service::behaviour_profile_builder::{
    BehaviourProfileBuildError, BehaviourProfileBuilder, MINIMUM_SAMPLE_COUNT,
};
use fuel_ingestion_service::calibration_factory::{
    CalibrationFactory, CalibrationType, SensorCalibration,
};
use fuel_ingestion_service::cors::is_allowed_origin;
use fuel_ingestion_service::geofence::{geofence_transitions, GeofenceTransitionType};

fn sensor_calibration(calibration_type: &str) -> SensorCalibration {
    SensorCalibration {
        id: 1,
        sensor_id: 2,
        calibration_type: calibration_type.to_string(),
        calibration_values: serde_json::Value::Null,
        is_active: true,
        calibrated_at: 0,
        created_at: 0,
        updated_at: 0,
    }
}

#[test]
fn wrong_calibration_type_is_rejected() {
    let calibration = sensor_calibration("FUEL");

    let error = CalibrationFactory::ensure_calibration_type(&calibration, CalibrationType::Imu.as_str())
        .expect_err("non-IMU calibration type should fail");

    assert_eq!(error.message(), "Expected IMU calibration, but found FUEL.");
}

#[test]
fn matching_calibration_type_is_accepted() {
    let calibration = sensor_calibration("FUEL");
    assert!(CalibrationFactory::ensure_calibration_type(&calibration, CalibrationType::Fuel.as_str()).is_ok());
}

#[test]
fn trend_windows_are_clamped() {
    assert_eq!(normalize_trend_days(0), 30);
    assert_eq!(normalize_trend_days(-5), 30);
    assert_eq!(normalize_trend_days(1), 1);
    assert_eq!(normalize_trend_days(45), 45);
    assert_eq!(normalize_trend_days(90), 90);
    assert_eq!(normalize_trend_days(91), 90);
    assert_eq!(requested_trend_days(None), 30);
    assert_eq!(requested_trend_days(Some(7)), 7);
    assert_eq!(AnalyticsDeviceHealthTrendQuery { days: None }.effective_days(), 30);
    assert_eq!(AnalyticsGeofenceUtilizationQuery { days: Some(365) }.effective_days(), 90);
}

#[test]
fn dashboard_origins_are_allowed() {
    assert!(is_allowed_origin("http://127.0.0.1:5173"));
    assert!(is_allowed_origin("http://localhost:5173"));
    assert!(is_allowed_origin("https://williamtekpeh.com"));
    assert!(is_allowed_origin("http://williamtekpeh.com"));
    assert!(is_allowed_origin("https://fleet.williamtekpeh.com"));
    assert!(!is_allowed_origin("https://williamtekpeh.com.evil.example"));
    assert!(!is_allowed_origin("http://localhost:3000"));
    assert!(!is_allowed_origin("williamtekpeh.com"));
}

#[test]
fn geofence_transitions_report_entries_and_exits() {
    let transitions = geofence_transitions(&vec![1, 2, 3], &vec![3, 4, 5]);
    assert_eq!(transitions.entered, vec![4, 5]);
    assert_eq!(transitions.exited, vec![1, 2]);

    let unchanged = geofence_transitions(&vec![7], &vec![7]);
    assert!(unchanged.entered.is_empty());
    assert!(unchanged.exited.is_empty());

    assert_eq!(GeofenceTransitionType::EnteredZone.as_str(), "ENTERED_ZONE");
    assert_eq!(GeofenceTransitionType::ExitedZone.as_str(), "EXITED_ZONE");
}

#[test]
fn profile_building_needs_thirty_samples() {
    assert_eq!(MINIMUM_SAMPLE_COUNT, 30);
    assert_eq!(
        BehaviourProfileBuilder::ensure_enough_samples(29),
        Err(BehaviourProfileBuildError::InsufficientSamples { required: 30, actual: 29 })
    );
    assert!(BehaviourProfileBuilder::ensure_enough_samples(30).is_ok());
}

#[test]
fn batch_and_heartbeat_replies() {
    let stored = ApiResponse::batch_stored(12);
    assert!(stored.success);
    assert_eq!(stored.message, "Batch stored successfully");
    assert_eq!(stored.received_count, 12);

    let failed = ApiResponse::batch_failed("database unavailable");
    assert!(!failed.success);
    assert_eq!(failed.message, "Failed to store batch: database unavailable");
    assert_eq!(failed.received_count, 0);

    let heartbeat = HeartbeatResponse::received("ORBI-GPS-001".to_string());
    assert!(heartbeat.success);
    assert_eq!(heartbeat.message, "Heartbeat received");
    assert_eq!(heartbeat.device_id, "ORBI-GPS-001");
}

#[test]
fn calibration_types_read_their_stored_text() {
    assert_eq!(CalibrationType::from_str("IMU"), Some(CalibrationType::Imu));
    assert_eq!(CalibrationType::from_str("FUEL"), Some(CalibrationType::Fuel));
    assert_eq!(CalibrationType::from_str("fuel"), None);
    assert_eq!(CalibrationType::from_str(CalibrationType::Fuel.as_str()), Some(CalibrationType::Fuel));
}
