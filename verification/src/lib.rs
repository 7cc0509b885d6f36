//! Verified domain logic of the ORBI fuel-ingestion service: device
//! inventory lifecycle, operational-behaviour learning sessions, guided
//! fuel-calibration lifecycle rules, rolling motion windows and the small
//! decision functions used by the HTTP and persistence layers.

pub mod text;
pub mod inventory_status;
pub mod learning_session;
pub mod calibration_status;
pub mod calibration_session;
pub mod motion_buffer;
pub mod motion_tracker;
pub mod geofence;
pub mod analytics;
pub mod catalogue;
pub mod cors;
pub mod calibration_factory;
pub mod behaviour_profile_builder;
pub mod api_models;
pub mod adapter_registry;
pub mod ingestion;
pub mod api_errors;
