use vstd::prelude::*;

use crate::analytics::{effective_trend_days, normalize_trend_days, requested_trend_days, DEFAULT_TREND_DAYS};

verus! {

/// Reply to a telemetry batch upload.
#[derive(Debug, PartialEq, Eq)]
pub struct ApiResponse {
    pub success: bool,
    pub message: String,
    pub received_count: usize,
}

impl ApiResponse {
    /// Reply for a batch whose readings were all stored.
    pub fn batch_stored(received_count: usize) -> (response: ApiResponse)
        ensures
            response.success,
            response.message@ == "Batch stored successfully"@,
            response.received_count == received_count,
    {
        ApiResponse {
            success: true,
            message: "Batch stored successfully".to_owned(),
            received_count,
        }
    }

    /// Reply for a batch that could not be stored: nothing counts as received.
    pub fn batch_failed(reason: &str) -> (response: ApiResponse)
        ensures
            !response.success,
            response.message@ == "Failed to store batch: "@ + reason@,
            response.received_count == 0,
    {
        let mut message = "Failed to store batch: ".to_owned();
        message.append(reason);
        ApiResponse { success: false, message, received_count: 0 }
    }
}

/// Reply to a device heartbeat.
#[derive(Debug, PartialEq, Eq)]
pub struct HeartbeatResponse {
    pub success: bool,
    pub message: String,
    pub device_id: String,
}

impl HeartbeatResponse {
    /// Reply for a heartbeat that was recorded for `device_id`.
    pub fn received(device_id: String) -> (response: HeartbeatResponse)
        ensures
            response.success,
            response.message@ == "Heartbeat received"@,
            response.device_id == device_id,
    {
        HeartbeatResponse { success: true, message: "Heartbeat received".to_owned(), device_id }
    }
}

#[derive(Debug, Clone, Copy, PartialEq, Eq, Structural)]
pub struct AlertTrendSummary {
    pub total_alerts: i64,
    pub theft_alerts: i64,
    pub refill_alerts: i64,
    pub leak_alerts: i64,
    pub open_alerts: i64,
    pub acknowledged_alerts: i64,
    pub resolved_alerts: i64,
}

#[derive(Debug, PartialEq, Eq)]
pub struct AlertTrendPoint {
    pub day: String,
    pub alert_type: String,
    pub status: String,
    pub count: i64,
}

#[derive(Debug)]
pub struct AlertTrendsResponse {
    pub days: i64,
    pub summary: AlertTrendSummary,
    pub trend: Vec<AlertTrendPoint>,
}

#[derive(Debug, PartialEq, Eq)]
pub struct GeofenceActivityTrendPoint {
    pub day: String,
    pub entries: i64,
    pub exits: i64,
}

#[derive(Debug)]
pub struct GeofenceActivityTrendResponse {
    pub days: i64,
    pub trend: Vec<GeofenceActivityTrendPoint>,
}

/// Query string of the device-health trend endpoint.
#[derive(Debug, Clone, Copy, PartialEq, Eq, Structural)]
pub struct AnalyticsDeviceHealthTrendQuery {
    pub days: Option<i64>,
}

/// Query string of the geofence-utilization endpoint.
#[derive(Debug, Clone, Copy, PartialEq, Eq, Structural)]
pub struct AnalyticsGeofenceUtilizationQuery {
    pub days: Option<i64>,
}

/// Days a trend query with an optional `days` parameter covers.
pub open spec fn query_trend_days(days: Option<i64>) -> i64 {
    effective_trend_days(
        match days {
            Some(d) => d,
            None => DEFAULT_TREND_DAYS,
        },
    )
}

impl AnalyticsDeviceHealthTrendQuery {
    /// The look-back window this query is answered for.
    pub fn effective_days(&self) -> (days: i64)
        ensures
            days == query_trend_days(self.days),
    {
        normalize_trend_days(requested_trend_days(self.days))
    }
}

impl AnalyticsGeofenceUtilizationQuery {
    /// The look-back window this query is answered for.
    pub fn effective_days(&self) -> (days: i64)
        ensures
            days == query_trend_days(self.days),
    {
        normalize_trend_days(requested_trend_days(self.days))
    }
}

#[derive(Debug, PartialEq, Eq)]
pub struct GeofenceUtilizationZone {
    pub geofence_name: String,
    pub visits: i64,
}

#[derive(Debug)]
pub struct GeofenceUtilizationResponse {
    pub days: i64,
    pub zones: Vec<GeofenceUtilizationZone>,
}

/// Body of a request to move an inventory device to another status.
#[derive(Debug, PartialEq, Eq)]
pub struct UpdateOrbiDeviceInventoryStatusRequest {
    pub inventory_status: String,
    pub quality_test_status: String,
}

#[derive(Debug, PartialEq, Eq)]
pub struct CreateOrganizationRequest {
    pub organization_name: String,
    pub industry: String,
}

#[derive(Debug, PartialEq, Eq)]
pub struct UpdateOrganizationRequest {
    pub organization_name: String,
    pub industry: String,
}

/// Error body returned by the platform endpoints.
#[derive(Debug, PartialEq, Eq)]
pub struct ApiErrorResponse {
    pub message: String,
}

} // verus!
