# fuel-ingestion-service

Telemetry ingestion and fleet-management service for ORBI fuel and motion
sensors. The rules of the service form a library verified with Verus; the
HTTP server around it is ordinary Rust.

## Layout

- `src/` — the verified library:
  - `inventory_status` — the device inventory lifecycle and the checked
    status update;
  - `learning_session` — operational-behaviour learning sessions: start,
    complete, fail and sample recording;
  - `calibration_status`, `calibration_session` — guided fuel-calibration
    profiles and sessions: validation, lifecycle guarantees and the workflow
    checks for opening profiles, starting sessions, capturing points,
    anchoring and completion;
  - `motion_buffer`, `motion_tracker` — the rolling motion window of each
    device;
  - `geofence`, `ingestion`, `analytics`, `cors`, `api_errors`,
    `api_models` — the decisions of the HTTP layer: what a reading triggers,
    which zones were entered or left, trend windows, allowed origins and how
    failures are answered;
  - `catalogue` — grouping of the device catalogue into models, hardware
    profiles and sensors;
  - `adapter_registry`, `calibration_factory`, `behaviour_profile_builder`,
    `text` — supporting types.
- `tests/` — tests of the library on concrete values.
- `app/` — the server: configuration, PostgreSQL access, HTTP handlers and
  the floating-point measurement arithmetic (IMU interpretation, fuel lookup
  tables, calibration coverage, behaviour statistics).

Identifiers cross into the library as the 128-bit values of their UUIDs and
timestamps as microseconds since the Unix epoch.
