use vstd::prelude::*;

use crate::text::str_eq;

verus! {

/// A JSON document as parsed by serde_json, carried here unopened.
#[verifier::external_type_specification]
#[verifier::external_body]
pub struct ExJsonValue(serde_json::Value);

/// Kind of calibration stored for a sensor.
#[derive(Debug, Clone, Copy, PartialEq, Eq, Structural)]
pub enum CalibrationType {
    Imu,
    Fuel,
}

/// Stored text of each calibration type.
pub open spec fn calibration_type_name(calibration_type: CalibrationType) -> Seq<char> {
    match calibration_type {
        CalibrationType::Imu => "IMU"@,
        CalibrationType::Fuel => "FUEL"@,
    }
}

/// The calibration type whose stored text is `text`, if any.
pub open spec fn parse_calibration_type(text: Seq<char>) -> Option<CalibrationType> {
    if text == "IMU"@ {
        Some(CalibrationType::Imu)
    } else if text == "FUEL"@ {
        Some(CalibrationType::Fuel)
    } else {
        None
    }
}

/// Reading back the stored text of a calibration type gives the same type,
/// and only stored texts are read as a type.
pub proof fn lemma_calibration_type_text_roundtrip(calibration_type: CalibrationType, text: Seq<char>)
    ensures
        parse_calibration_type(calibration_type_name(calibration_type)) == Some(calibration_type),
        parse_calibration_type(text) matches Some(t) ==> calibration_type_name(t) == text,
{
    reveal_strlit("IMU");
    reveal_strlit("FUEL");
    assert("IMU"@.len() != "FUEL"@.len());
}

impl CalibrationType {
    pub fn as_str(self) -> (text: &'static str)
        ensures
            text@ == calibration_type_name(self),
    {
        match self {
            CalibrationType::Imu => "IMU",
            CalibrationType::Fuel => "FUEL",
        }
    }

    /// Parses the stored text of a calibration type (`IMU` or `FUEL`).
    pub fn from_str(value: &str) -> (calibration_type: Option<CalibrationType>)
        ensures
            calibration_type == parse_calibration_type(value@),
    {
        if str_eq(value, "IMU") {
            Some(CalibrationType::Imu)
        } else if str_eq(value, "FUEL") {
            Some(CalibrationType::Fuel)
        } else {
            None
        }
    }
}

/// A persisted calibration record of one sensor.
///
/// Identifiers are the 128-bit values of the persisted UUIDs; timestamps are
/// microseconds since the Unix epoch (UTC).
#[derive(Debug)]
pub struct SensorCalibration {
    pub id: u128,
    pub sensor_id: u128,
    pub calibration_type: String,
    pub calibration_values: serde_json::Value,
    pub is_active: bool,
    pub calibrated_at: i64,
    pub created_at: i64,
    pub updated_at: i64,
}

/// A persisted calibration record was not of the expected type.
#[derive(Debug, PartialEq, Eq)]
pub struct CalibrationTypeMismatch {
    pub expected: String,
    pub found: String,
}

impl CalibrationTypeMismatch {
    /// "Expected {expected} calibration, but found {found}."
    pub fn message(&self) -> (text: String)
        ensures
            text@ == "Expected "@ + self.expected@ + " calibration, but found "@ + self.found@ + "."@,
    {
        let mut text = "Expected ".to_owned();
        text.append(self.expected.as_str());
        text.append(" calibration, but found ");
        text.append(self.found.as_str());
        text.append(".");
        text
    }
}

/// Converts persisted calibration records into strongly typed domain
/// calibration objects; this part checks the record type.
pub struct CalibrationFactory;

impl CalibrationFactory {
    /// Ensures the persisted record contains the expected calibration type.
    pub fn ensure_calibration_type(calibration: &SensorCalibration, expected_type: &str) -> (result:
        Result<(), CalibrationTypeMismatch>)
        ensures
            result is Ok <==> calibration.calibration_type@ == expected_type@,
            result matches Err(mismatch) ==> mismatch.expected@ == expected_type@
                && mismatch.found@ == calibration.calibration_type@,
    {
        if !str_eq(calibration.calibration_type.as_str(), expected_type) {
            return Err(
                CalibrationTypeMismatch {
                    expected: expected_type.to_owned(),
                    found: calibration.calibration_type.clone(),
                },
            );
        }
        Ok(())
    }
}

} // verus!
