use vstd::prelude::*;

use crate::inventory_status::{InventoryTransitionError, inventory_transition_message};
use crate::text::{contains_str, has_substring};

verus! {

/// How the HTTP layer answers a failed platform operation.
#[derive(Debug, Clone, Copy, PartialEq, Eq, Structural)]
pub enum ErrorResponseKind {
    /// 404: the addressed resource does not exist.
    NotFound,
    /// 400: the request itself is invalid.
    BadRequest,
    /// 409: the request conflicts with existing data.
    Conflict,
    /// 500: anything else; the details are logged, not returned.
    Internal,
}

/// Registering a device whose code is taken is a conflict.
pub open spec fn device_registration_error_kind(message: Seq<char>) -> ErrorResponseKind {
    if has_substring(message, "devices_device_code_key"@) {
        ErrorResponseKind::Conflict
    } else {
        ErrorResponseKind::Internal
    }
}

/// Answer to a failed device registration.
pub fn classify_device_registration_error(message: &str) -> (kind: ErrorResponseKind)
    ensures
        kind == device_registration_error_kind(message@),
{
    if contains_str(message, "devices_device_code_key") {
        ErrorResponseKind::Conflict
    } else {
        ErrorResponseKind::Internal
    }
}

/// Why adding a device to the inventory failed, as far as the caller is told.
#[derive(Debug, Clone, Copy, PartialEq, Eq, Structural)]
pub enum InventoryCreationFailure {
    DuplicateDeviceCode,
    DuplicateSerialNumber,
    DuplicateImei,
    Other,
}

/// The unique constraint named in the database error decides the failure.
pub open spec fn inventory_creation_failure(message: Seq<char>) -> InventoryCreationFailure {
    if has_substring(message, "orbi_device_inventory_device_code_key"@) {
        InventoryCreationFailure::DuplicateDeviceCode
    } else if has_substring(message, "orbi_device_inventory_serial_number_key"@) {
        InventoryCreationFailure::DuplicateSerialNumber
    } else if has_substring(message, "orbi_device_inventory_imei_key"@) {
        InventoryCreationFailure::DuplicateImei
    } else {
        InventoryCreationFailure::Other
    }
}

impl InventoryCreationFailure {
    /// Classifies the error text of a failed inventory insert.
    pub fn classify(message: &str) -> (failure: InventoryCreationFailure)
        ensures
            failure == inventory_creation_failure(message@),
    {
        if contains_str(message, "orbi_device_inventory_device_code_key") {
            InventoryCreationFailure::DuplicateDeviceCode
        } else if contains_str(message, "orbi_device_inventory_serial_number_key") {
            InventoryCreationFailure::DuplicateSerialNumber
        } else if contains_str(message, "orbi_device_inventory_imei_key") {
            InventoryCreationFailure::DuplicateImei
        } else {
            InventoryCreationFailure::Other
        }
    }

    /// Duplicates are conflicts; anything else is an internal error.
    pub fn kind(self) -> (kind: ErrorResponseKind)
        ensures
            kind == (if self == InventoryCreationFailure::Other {
                ErrorResponseKind::Internal
            } else {
                ErrorResponseKind::Conflict
            }),
    {
        match self {
            InventoryCreationFailure::Other => ErrorResponseKind::Internal,
            _ => ErrorResponseKind::Conflict,
        }
    }

    /// Message returned to the caller.
    pub fn message(self) -> (text: &'static str)
        ensures
            text@ == match self {
                InventoryCreationFailure::DuplicateDeviceCode => "Device code already exists."@,
                InventoryCreationFailure::DuplicateSerialNumber => "Serial number already exists."@,
                InventoryCreationFailure::DuplicateImei => "IMEI already exists."@,
                InventoryCreationFailure::Other => "Failed to create ORBI inventory device."@,
            },
    {
        match self {
            InventoryCreationFailure::DuplicateDeviceCode => "Device code already exists.",
            InventoryCreationFailure::DuplicateSerialNumber => "Serial number already exists.",
            InventoryCreationFailure::DuplicateImei => "IMEI already exists.",
            InventoryCreationFailure::Other => "Failed to create ORBI inventory device.",
        }
    }
}

/// Refused lifecycle changes and unknown devices are the caller's fault.
pub open spec fn inventory_status_update_error_kind(message: Seq<char>) -> ErrorResponseKind {
    if has_substring(message, "Invalid inventory lifecycle transition"@) || has_substring(
        message,
        "Unknown current inventory status"@,
    ) || has_substring(message, "Unknown requested inventory status"@) || has_substring(
        message,
        "Inventory device not found"@,
    ) {
        ErrorResponseKind::BadRequest
    } else {
        ErrorResponseKind::Internal
    }
}

/// Answer to a failed inventory status update.
pub fn classify_inventory_status_update_error(message: &str) -> (kind: ErrorResponseKind)
    ensures
        kind == inventory_status_update_error_kind(message@),
{
    if contains_str(message, "Invalid inventory lifecycle transition") || contains_str(
        message,
        "Unknown current inventory status",
    ) || contains_str(message, "Unknown requested inventory status") || contains_str(
        message,
        "Inventory device not found",
    ) {
        ErrorResponseKind::BadRequest
    } else {
        ErrorResponseKind::Internal
    }
}

/// A refused inventory status change is answered as a bad request, never
/// as an internal error: every refusal's message names its reason in the
/// words the HTTP layer looks for.
pub proof fn lemma_refused_inventory_updates_are_bad_requests(error: InventoryTransitionError)
    ensures
        inventory_status_update_error_kind(inventory_transition_message(error))
            == ErrorResponseKind::BadRequest,
{
    let message = inventory_transition_message(error);
    match error {
        InventoryTransitionError::UnknownCurrentStatus(text) => {
            let needle = "Unknown current inventory status"@;
            reveal_strlit("Unknown current inventory status");
            reveal_strlit("Unknown current inventory status: ");
            assert(message.subrange(0, needle.len() as int) =~= needle);
            assert(message.subrange(0int, 0int + needle.len()) == needle);
            assert(has_substring(message, needle));
        },
        InventoryTransitionError::UnknownRequestedStatus(text) => {
            let needle = "Unknown requested inventory status"@;
            reveal_strlit("Unknown requested inventory status");
            reveal_strlit("Unknown requested inventory status: ");
            assert(message.subrange(0, needle.len() as int) =~= needle);
            assert(message.subrange(0int, 0int + needle.len()) == needle);
            assert(has_substring(message, needle));
        },
        InventoryTransitionError::InvalidTransition { from, to } => {
            let needle = "Invalid inventory lifecycle transition"@;
            reveal_strlit("Invalid inventory lifecycle transition");
            reveal_strlit("Invalid inventory lifecycle transition from ");
            assert(message.subrange(0, needle.len() as int) =~= needle);
            assert(message.subrange(0int, 0int + needle.len()) == needle);
            assert(has_substring(message, needle));
        },
    }
}

/// Provisioning a missing device is not-found; re-provisioning, retired
/// devices and taken codes are conflicts.
pub open spec fn provisioning_error_kind(message: Seq<char>) -> ErrorResponseKind {
    if has_substring(message, "Inventory device not found"@) {
        ErrorResponseKind::NotFound
    } else if has_substring(message, "already been provisioned"@) || has_substring(
        message,
        "Retired inventory device"@,
    ) || has_substring(message, "Device code already exists"@) {
        ErrorResponseKind::Conflict
    } else {
        ErrorResponseKind::Internal
    }
}

/// Answer to a failed provisioning of an inventory device.
pub fn classify_provisioning_error(message: &str) -> (kind: ErrorResponseKind)
    ensures
        kind == provisioning_error_kind(message@),
{
    if contains_str(message, "Inventory device not found") {
        ErrorResponseKind::NotFound
    } else if contains_str(message, "already been provisioned") || contains_str(
        message,
        "Retired inventory device",
    ) || contains_str(message, "Device code already exists") {
        ErrorResponseKind::Conflict
    } else {
        ErrorResponseKind::Internal
    }
}

/// Creating a calibration profile: unknown sensor, wrong sensor or bad
/// capacity, or an existing current profile.
pub open spec fn calibration_profile_error_kind(message: Seq<char>) -> ErrorResponseKind {
    if has_substring(message, "Sensor not found"@) {
        ErrorResponseKind::NotFound
    } else if has_substring(message, "not a FUEL sensor"@) || has_substring(
        message,
        "Tank capacity"@,
    ) {
        ErrorResponseKind::BadRequest
    } else if has_substring(message, "already has a current fuel calibration profile"@)
        || has_substring(message, "unique_current_fuel_calibration_profile"@) {
        ErrorResponseKind::Conflict
    } else {
        ErrorResponseKind::Internal
    }
}

/// Answer to a failed creation of a guided fuel-calibration profile.
pub fn classify_calibration_profile_error(message: &str) -> (kind: ErrorResponseKind)
    ensures
        kind == calibration_profile_error_kind(message@),
{
    if contains_str(message, "Sensor not found") {
        ErrorResponseKind::NotFound
    } else if contains_str(message, "not a FUEL sensor") || contains_str(message, "Tank capacity") {
        ErrorResponseKind::BadRequest
    } else if contains_str(message, "already has a current fuel calibration profile")
        || contains_str(message, "unique_current_fuel_calibration_profile") {
        ErrorResponseKind::Conflict
    } else {
        ErrorResponseKind::Internal
    }
}

/// Starting a calibration session: unknown profile, bad starting quantity
/// or superseded profile, or an unfinished session already open.
pub open spec fn calibration_session_start_error_kind(message: Seq<char>) -> ErrorResponseKind {
    if has_substring(message, "profile not found"@) {
        ErrorResponseKind::NotFound
    } else if has_substring(message, "Starting fuel quantity"@) || has_substring(
        message,
        "superseded profile"@,
    ) {
        ErrorResponseKind::BadRequest
    } else if has_substring(message, "already has an unfinished session"@) || has_substring(
        message,
        "unique_unfinished_fuel_calibration_session"@,
    ) {
        ErrorResponseKind::Conflict
    } else {
        ErrorResponseKind::Internal
    }
}

/// Answer to a failed start of a guided fuel-calibration session.
pub fn classify_calibration_session_start_error(message: &str) -> (kind: ErrorResponseKind)
    ensures
        kind == calibration_session_start_error_kind(message@),
{
    if contains_str(message, "profile not found") {
        ErrorResponseKind::NotFound
    } else if contains_str(message, "Starting fuel quantity") || contains_str(
        message,
        "superseded profile",
    ) {
        ErrorResponseKind::BadRequest
    } else if contains_str(message, "already has an unfinished session") || contains_str(
        message,
        "unique_unfinished_fuel_calibration_session",
    ) {
        ErrorResponseKind::Conflict
    } else {
        ErrorResponseKind::Internal
    }
}

/// Creating a sensor calibration: unknown sensor, or invalid type or values.
pub open spec fn sensor_calibration_error_kind(message: Seq<char>) -> ErrorResponseKind {
    if has_substring(message, "Sensor not found"@) {
        ErrorResponseKind::NotFound
    } else if has_substring(message, "Calibration type"@) || has_substring(
        message,
        "Calibration values"@,
    ) {
        ErrorResponseKind::BadRequest
    } else {
        ErrorResponseKind::Internal
    }
}

/// Answer to a failed creation of a sensor calibration.
pub fn classify_sensor_calibration_error(message: &str) -> (kind: ErrorResponseKind)
    ensures
        kind == sensor_calibration_error_kind(message@),
{
    if contains_str(message, "Sensor not found") {
        ErrorResponseKind::NotFound
    } else if contains_str(message, "Calibration type") || contains_str(
        message,
        "Calibration values",
    ) {
        ErrorResponseKind::BadRequest
    } else {
        ErrorResponseKind::Internal
    }
}

/// Looking up the active calibration with an invalid type is a bad request.
pub open spec fn active_calibration_error_kind(message: Seq<char>) -> ErrorResponseKind {
    if has_substring(message, "Calibration type"@) {
        ErrorResponseKind::BadRequest
    } else {
        ErrorResponseKind::Internal
    }
}

/// Answer to a failed lookup of a sensor's active calibration.
pub fn classify_active_calibration_error(message: &str) -> (kind: ErrorResponseKind)
    ensures
        kind == active_calibration_error_kind(message@),
{
    if contains_str(message, "Calibration type") {
        ErrorResponseKind::BadRequest
    } else {
        ErrorResponseKind::Internal
    }
}

} // verus!
