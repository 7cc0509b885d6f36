use fuel_ingestion_service::calibration_status::{FuelCalibrationSessionStatus, FuelCalibrationStatus};
use fuel_ingestion_service::inventory_status::{
    check_inventory_transition, InventoryStatus, InventoryTransitionError,
};

const ALL_INVENTORY: [InventoryStatus; 6] = [
    InventoryStatus::Assembled,
    InventoryStatus::Programmed,
    InventoryStatus::Tested,
    InventoryStatus::ReadyForDeployment,
    InventoryStatus::Provisioned,
    InventoryStatus::Retired,
];

#[test]
fn inventory_status_text_round_trips() {
    assert_eq!(InventoryStatus::ReadyForDeployment.as_str(), "READY_FOR_DEPLOYMENT");
    for status in ALL_INVENTORY {
        assert_eq!(InventoryStatus::from_str(status.as_str()), Some(status));
    }
    assert_eq!(InventoryStatus::from_str("assembled"), None);
    assert_eq!(InventoryStatus::from_str(""), None);
}

#[test]
fn inventory_lifecycle_only_moves_one_stage_forward() {
    for (index, from) in ALL_INVENTORY.iter().enumerate() {
        for (other, to) in ALL_INVENTORY.iter().enumerate() {
            assert_eq!(from.can_transition_to(*to), other == index + 1);
        }
    }
}

#[test]
fn inventory_status_updates_are_checked() {
    assert_eq!(
        check_inventory_transition("TESTED".to_string(), "READY_FOR_DEPLOYMENT".to_string()),
        Ok(InventoryStatus::ReadyForDeployment)
    );
    assert_eq!(
        check_inventory_transition("TESTED".to_string(), "RETIRED".to_string()),
        Err(InventoryTransitionError::InvalidTransition {
            from: InventoryStatus::Tested,
            to: InventoryStatus::Retired,
        })
    );
    assert_eq!(
        check_inventory_transition("BROKEN".to_string(), "RETIRED".to_string()),
        Err(InventoryTransitionError::UnknownCurrentStatus("BROKEN".to_string()))
    );
    assert_eq!(
        check_inventory_transition("TESTED".to_string(), "SHIPPED".to_string()),
        Err(InventoryTransitionError::UnknownRequestedStatus("SHIPPED".to_string()))
    );
}

#[test]
fn calibration_statuses_use_snake_case_text() {
    for status in [
        FuelCalibrationStatus::Draft,
        FuelCalibrationStatus::Progressive,
        FuelCalibrationStatus::Validated,
        FuelCalibrationStatus::Production,
        FuelCalibrationStatus::Superseded,
    ] {
        assert_eq!(FuelCalibrationStatus::from_str(status.as_str()), Some(status));
    }
    assert_eq!(FuelCalibrationStatus::Progressive.as_str(), "progressive");
    assert_eq!(FuelCalibrationSessionStatus::Abandoned.as_str(), "abandoned");
    assert_eq!(
        FuelCalibrationSessionStatus::from_str("paused"),
        Some(FuelCalibrationSessionStatus::Paused)
    );
    assert_eq!(FuelCalibrationSessionStatus::from_str("PAUSED"), None);
}

#[test]
fn completing_a_session_promotes_only_draft_profiles() {
    assert_eq!(
        FuelCalibrationStatus::Draft.after_completed_session(),
        FuelCalibrationStatus::Progressive
    );
    assert_eq!(
        FuelCalibrationStatus::Production.after_completed_session(),
        FuelCalibrationStatus::Production
    );
    assert_eq!(
        FuelCalibrationStatus::Superseded.after_completed_session(),
        FuelCalibrationStatus::Superseded
    );
}

#[test]
fn unfinished_sessions_are_active_or_paused() {
    assert!(FuelCalibrationSessionStatus::Active.is_unfinished());
    assert!(FuelCalibrationSessionStatus::Paused.is_unfinished());
    assert!(!FuelCalibrationSessionStatus::Completed.is_unfinished());
    assert!(!FuelCalibrationSessionStatus::Abandoned.is_unfinished());
}
