use vstd::prelude::*;

verus! {

/// A provisioned device and the sensors through which its telemetry is
/// processed (128-bit values of the persisted UUIDs).
#[derive(Debug, Clone, Copy, PartialEq, Eq, Structural)]
pub struct RegisteredTelemetryContext {
    pub device_id: u128,
    pub gps_sensor_id: Option<u128>,
    pub fuel_sensor_id: Option<u128>,
}

/// What the ingestion service does with one reading of an uploaded batch.
#[derive(Debug, Clone, Copy, PartialEq, Eq, Structural)]
pub struct ReadingPlan {
    /// GPS sensor under which the position is stored, when the device has one.
    pub store_gps_reading: Option<u128>,
    /// Whether geofence entries and exits are derived from the move since
    /// the previous reading of the batch.
    pub detect_geofence_transitions: bool,
    /// Fuel sensor whose reading is stored and analysed for refills, theft,
    /// leaks and frozen values, when the device has one.
    pub run_fuel_intelligence: Option<u128>,
}

/// The processing of one reading: GPS work needs a GPS sensor, geofence
/// transitions additionally need a previous reading in the same batch, and
/// fuel intelligence needs a fuel sensor.
pub open spec fn reading_plan(context: RegisteredTelemetryContext, has_previous_reading: bool) -> ReadingPlan {
    ReadingPlan {
        store_gps_reading: context.gps_sensor_id,
        detect_geofence_transitions: context.gps_sensor_id is Some && has_previous_reading,
        run_fuel_intelligence: context.fuel_sensor_id,
    }
}

/// Decides the processing of one reading of a telemetry batch.
pub fn plan_reading(context: &RegisteredTelemetryContext, has_previous_reading: bool) -> (plan:
    ReadingPlan)
    ensures
        plan == reading_plan(*context, has_previous_reading),
{
    ReadingPlan {
        store_gps_reading: context.gps_sensor_id,
        detect_geofence_transitions: context.gps_sensor_id.is_some() && has_previous_reading,
        run_fuel_intelligence: context.fuel_sensor_id,
    }
}

/// GPS readings are stored under the device's GPS sensor and fuel work is
/// done under its fuel sensor, each exactly when the device has that
/// sensor; geofence transitions are derived exactly when the device has a
/// GPS sensor and the batch holds a previous reading.
pub proof fn lemma_reading_plan_follows_the_sensors(
    context: RegisteredTelemetryContext,
    has_previous_reading: bool,
)
    ensures
        reading_plan(context, has_previous_reading).store_gps_reading == context.gps_sensor_id,
        reading_plan(context, has_previous_reading).run_fuel_intelligence == context.fuel_sensor_id,
        reading_plan(context, has_previous_reading).detect_geofence_transitions <==> (
        context.gps_sensor_id is Some && has_previous_reading),
        !has_previous_reading ==> !reading_plan(context, has_previous_reading).detect_geofence_transitions,
{
}

} // verus!
