use fuel_ingestion_service::adapter_registry::{AdapterNotRegistered, AdapterRegistry};
use fuel_ingestion_service::api_errors::{
    classify_active_calibration_error, classify_calibration_profile_error,
    classify_calibration_session_start_error, classify_device_registration_error,
    classify_inventory_status_update_error, classify_provisioning_error,
    classify_sensor_calibration_error, ErrorResponseKind, InventoryCreationFailure,
};
use fuel_ingestion_service::ingestion::{plan_reading, ReadingPlan, RegisteredTelemetryContext};
use fuel_ingestion_service::inventory_status::check_inventory_transition;
use fuel_ingestion_service::text::{contains_str, ends_with, str_eq};

#[test]
fn text_helpers_compare_and_search() {
    assert!(str_eq("kum-modbus", "kum-modbus"));
    assert!(!str_eq("kum-modbus", "kum-modbu"));
    assert!(ends_with("https://fleet.vercel.app", ".vercel.app"));
    assert!(!ends_with("app", ".vercel.app"));
    assert!(ends_with("anything", ""));
    assert!(contains_str("duplicate key devices_device_code_key", "device_code"));
    assert!(contains_str("abc", ""));
    assert!(!contains_str("abc", "abcd"));
    assert!(!contains_str("aab", "abb"));
}

#[test]
fn registry_registers_replaces_and_lists_adapters() {
    let mut registry: AdapterRegistry<u32> = AdapterRegistry::new();
    assert!(!registry.contains("legacy-fuel-json"));
    registry.register("legacy-fuel-json".to_string(), 1);
    registry.register("kum-modbus".to_string(), 2);
    registry.register("legacy-fuel-json".to_string(), 3);

    assert!(registry.contains("legacy-fuel-json"));
    assert_eq!(registry.get("legacy-fuel-json"), Ok(&3));
    assert_eq!(registry.get("kum-modbus"), Ok(&2));

    let mut ids = registry.adapter_ids();
    ids.sort();
    assert_eq!(ids, vec!["kum-modbus", "legacy-fuel-json"]);
}

#[test]
fn missing_adapter_is_reported_by_name() {
    let registry: AdapterRegistry<u32> = AdapterRegistry::default();
    let missing = registry.get("nmea-gps").unwrap_err();
    assert_eq!(missing, AdapterNotRegistered { adapter_id: "nmea-gps".to_string() });
    assert_eq!(missing.message(), "telemetry adapter not registered: nmea-gps");
    assert!(registry.adapter_ids().is_empty());
}

#[test]
fn readings_are_planned_from_the_registered_sensors() {
    let full = RegisteredTelemetryContext {
        device_id: 7,
        gps_sensor_id: Some(11),
        fuel_sensor_id: Some(12),
    };
    assert_eq!(
        plan_reading(&full, false),
        ReadingPlan {
            store_gps_reading: Some(11),
            detect_geofence_transitions: false,
            run_fuel_intelligence: Some(12),
        }
    );
    assert!(plan_reading(&full, true).detect_geofence_transitions);

    let fuel_only = RegisteredTelemetryContext {
        device_id: 7,
        gps_sensor_id: None,
        fuel_sensor_id: Some(12),
    };
    assert_eq!(
        plan_reading(&fuel_only, true),
        ReadingPlan {
            store_gps_reading: None,
            detect_geofence_transitions: false,
            run_fuel_intelligence: Some(12),
        }
    );
}

#[test]
fn registration_and_inventory_errors_are_classified() {
    assert_eq!(
        classify_device_registration_error(
            "duplicate key value violates unique constraint \"devices_device_code_key\""
        ),
        ErrorResponseKind::Conflict
    );
    assert_eq!(classify_device_registration_error("connection reset"), ErrorResponseKind::Internal);

    let failure = InventoryCreationFailure::classify(
        "violates unique constraint \"orbi_device_inventory_serial_number_key\"",
    );
    assert_eq!(failure, InventoryCreationFailure::DuplicateSerialNumber);
    assert_eq!(failure.kind(), ErrorResponseKind::Conflict);
    assert_eq!(failure.message(), "Serial number already exists.");
    assert_eq!(
        InventoryCreationFailure::classify("orbi_device_inventory_device_code_key"),
        InventoryCreationFailure::DuplicateDeviceCode
    );
    assert_eq!(
        InventoryCreationFailure::classify("orbi_device_inventory_imei_key").message(),
        "IMEI already exists."
    );
    let other = InventoryCreationFailure::classify("timeout");
    assert_eq!(other, InventoryCreationFailure::Other);
    assert_eq!(other.kind(), ErrorResponseKind::Internal);
    assert_eq!(other.message(), "Failed to create ORBI inventory device.");
}

#[test]
fn refused_inventory_updates_are_bad_requests() {
    let refusal = check_inventory_transition("ASSEMBLED".to_string(), "TESTED".to_string())
        .unwrap_err();
    assert_eq!(
        classify_inventory_status_update_error(&refusal.message()),
        ErrorResponseKind::BadRequest
    );
    let unknown = check_inventory_transition("LOST".to_string(), "TESTED".to_string()).unwrap_err();
    assert_eq!(
        classify_inventory_status_update_error(&unknown.message()),
        ErrorResponseKind::BadRequest
    );
    assert_eq!(
        classify_inventory_status_update_error("Inventory device not found"),
        ErrorResponseKind::BadRequest
    );
    assert_eq!(classify_inventory_status_update_error("pool closed"), ErrorResponseKind::Internal);
}

#[test]
fn provisioning_and_calibration_errors_are_classified() {
    assert_eq!(classify_provisioning_error("Inventory device not found"), ErrorResponseKind::NotFound);
    assert_eq!(
        classify_provisioning_error("Inventory device has already been provisioned"),
        ErrorResponseKind::Conflict
    );
    assert_eq!(
        classify_provisioning_error("Retired inventory device cannot be provisioned"),
        ErrorResponseKind::Conflict
    );
    assert_eq!(classify_provisioning_error("io"), ErrorResponseKind::Internal);

    assert_eq!(classify_calibration_profile_error("Sensor not found"), ErrorResponseKind::NotFound);
    assert_eq!(
        classify_calibration_profile_error("Sensor is not a FUEL sensor"),
        ErrorResponseKind::BadRequest
    );
    assert_eq!(
        classify_calibration_profile_error("unique_current_fuel_calibration_profile"),
        ErrorResponseKind::Conflict
    );
    assert_eq!(
        classify_calibration_session_start_error("Fuel calibration profile not found"),
        ErrorResponseKind::NotFound
    );
    assert_eq!(
        classify_calibration_session_start_error("Starting fuel quantity must be positive"),
        ErrorResponseKind::BadRequest
    );
    assert_eq!(
        classify_calibration_session_start_error("Profile already has an unfinished session"),
        ErrorResponseKind::Conflict
    );
    assert_eq!(classify_sensor_calibration_error("Sensor not found"), ErrorResponseKind::NotFound);
    assert_eq!(
        classify_sensor_calibration_error("Calibration values must be an object"),
        ErrorResponseKind::BadRequest
    );
    assert_eq!(
        classify_active_calibration_error("Calibration type must be IMU or FUEL"),
        ErrorResponseKind::BadRequest
    );
    assert_eq!(classify_active_calibration_error("db"), ErrorResponseKind::Internal);
}
