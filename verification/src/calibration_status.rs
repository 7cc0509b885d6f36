use vstd::prelude::*;

use crate::text::str_eq;

verus! {

/// Represents the lifecycle of a fuel calibration profile.
///
/// A calibration becomes more complete over time as additional verified
/// refuelling sessions are performed. The stored text of each status is its
/// snake_case name.
#[derive(Debug, Clone, Copy, PartialEq, Eq, Structural)]
pub enum FuelCalibrationStatus {
    /// Calibration has been created but contains no verified points.
    Draft,
    /// Calibration is active but only part of the tank has been verified.
    Progressive,
    /// The calibration covers the intended operating range and has passed validation.
    Validated,
    /// Calibration has been approved for production use.
    Production,
    /// Replaced by a newer calibration profile.
    Superseded,
}

/// Stored text of each calibration-profile status.
pub open spec fn calibration_status_name(status: FuelCalibrationStatus) -> Seq<char> {
    match status {
        FuelCalibrationStatus::Draft => "draft"@,
        FuelCalibrationStatus::Progressive => "progressive"@,
        FuelCalibrationStatus::Validated => "validated"@,
        FuelCalibrationStatus::Production => "production"@,
        FuelCalibrationStatus::Superseded => "superseded"@,
    }
}

/// The calibration-profile status whose stored text is `text`, if any.
pub open spec fn parse_calibration_status(text: Seq<char>) -> Option<FuelCalibrationStatus> {
    if text == "draft"@ {
        Some(FuelCalibrationStatus::Draft)
    } else if text == "progressive"@ {
        Some(FuelCalibrationStatus::Progressive)
    } else if text == "validated"@ {
        Some(FuelCalibrationStatus::Validated)
    } else if text == "production"@ {
        Some(FuelCalibrationStatus::Production)
    } else if text == "superseded"@ {
        Some(FuelCalibrationStatus::Superseded)
    } else {
        None
    }
}

/// Status of a profile once one of its guided sessions has completed: a
/// draft becomes progressive, every other status is kept.
pub open spec fn status_after_completed_session(status: FuelCalibrationStatus) -> FuelCalibrationStatus {
    if status == FuelCalibrationStatus::Draft {
        FuelCalibrationStatus::Progressive
    } else {
        status
    }
}

impl FuelCalibrationStatus {
    pub fn as_str(self) -> (text: &'static str)
        ensures
            text@ == calibration_status_name(self),
    {
        match self {
            FuelCalibrationStatus::Draft => "draft",
            FuelCalibrationStatus::Progressive => "progressive",
            FuelCalibrationStatus::Validated => "validated",
            FuelCalibrationStatus::Production => "production",
            FuelCalibrationStatus::Superseded => "superseded",
        }
    }

    pub fn from_str(value: &str) -> (status: Option<FuelCalibrationStatus>)
        ensures
            status == parse_calibration_status(value@),
    {
        if str_eq(value, "draft") {
            Some(FuelCalibrationStatus::Draft)
        } else if str_eq(value, "progressive") {
            Some(FuelCalibrationStatus::Progressive)
        } else if str_eq(value, "validated") {
            Some(FuelCalibrationStatus::Validated)
        } else if str_eq(value, "production") {
            Some(FuelCalibrationStatus::Production)
        } else if str_eq(value, "superseded") {
            Some(FuelCalibrationStatus::Superseded)
        } else {
            None
        }
    }

    /// Completing a guided session is verified evidence, not approval: a
    /// draft profile becomes progressive and no other status changes.
    pub fn after_completed_session(self) -> (next: FuelCalibrationStatus)
        ensures
            next == status_after_completed_session(self),
    {
        match self {
            FuelCalibrationStatus::Draft => FuelCalibrationStatus::Progressive,
            other => other,
        }
    }
}

/// Represents ORBI's confidence in the current fuel calibration, derived
/// from the percentage of the declared tank capacity that has been
/// physically verified (`<25%` low, `<75%` medium, `<100%` high, `100%`
/// verified).
#[derive(Debug, Clone, Copy, PartialEq, Eq, Structural)]
pub enum FuelCalibrationConfidence {
    /// Less than 25% of the declared tank capacity has been verified.
    Low,
    /// At least 25%, but less than 75%, has been verified.
    Medium,
    /// At least 75%, but less than the complete tank range, has been verified.
    High,
    /// The complete declared tank range has been physically verified.
    Verified,
}

/// Represents the lifecycle state of one guided fuel-calibration session.
///
/// This is separate from `FuelCalibrationStatus`, which represents the
/// lifecycle of the overall calibration profile. The stored text of each
/// status is its snake_case name.
#[derive(Debug, Clone, Copy, PartialEq, Eq, Structural)]
pub enum FuelCalibrationSessionStatus {
    /// The installer is currently capturing verified calibration points.
    Active,
    /// The session has been intentionally stopped and can be resumed later.
    Paused,
    /// The session was given up; it is kept for traceability only.
    Abandoned,
    /// The session has been completed and its verified points can
    /// contribute to calibration-profile coverage.
    Completed,
}

/// Stored text of each session status.
pub open spec fn session_status_name(status: FuelCalibrationSessionStatus) -> Seq<char> {
    match status {
        FuelCalibrationSessionStatus::Active => "active"@,
        FuelCalibrationSessionStatus::Paused => "paused"@,
        FuelCalibrationSessionStatus::Abandoned => "abandoned"@,
        FuelCalibrationSessionStatus::Completed => "completed"@,
    }
}

/// The session status whose stored text is `text`, if any.
pub open spec fn parse_session_status(text: Seq<char>) -> Option<FuelCalibrationSessionStatus> {
    if text == "active"@ {
        Some(FuelCalibrationSessionStatus::Active)
    } else if text == "paused"@ {
        Some(FuelCalibrationSessionStatus::Paused)
    } else if text == "abandoned"@ {
        Some(FuelCalibrationSessionStatus::Abandoned)
    } else if text == "completed"@ {
        Some(FuelCalibrationSessionStatus::Completed)
    } else {
        None
    }
}

/// An unfinished session is one that is active or paused.
pub open spec fn session_is_unfinished(status: FuelCalibrationSessionStatus) -> bool {
    status == FuelCalibrationSessionStatus::Active || status == FuelCalibrationSessionStatus::Paused
}

impl FuelCalibrationSessionStatus {
    pub fn as_str(self) -> (text: &'static str)
        ensures
            text@ == session_status_name(self),
    {
        match self {
            FuelCalibrationSessionStatus::Active => "active",
            FuelCalibrationSessionStatus::Paused => "paused",
            FuelCalibrationSessionStatus::Abandoned => "abandoned",
            FuelCalibrationSessionStatus::Completed => "completed",
        }
    }

    pub fn from_str(value: &str) -> (status: Option<FuelCalibrationSessionStatus>)
        ensures
            status == parse_session_status(value@),
    {
        if str_eq(value, "active") {
            Some(FuelCalibrationSessionStatus::Active)
        } else if str_eq(value, "paused") {
            Some(FuelCalibrationSessionStatus::Paused)
        } else if str_eq(value, "abandoned") {
            Some(FuelCalibrationSessionStatus::Abandoned)
        } else if str_eq(value, "completed") {
            Some(FuelCalibrationSessionStatus::Completed)
        } else {
            None
        }
    }

    /// True for a session that may still be anchored, paused, resumed,
    /// abandoned or completed: an active or paused one.
    pub fn is_unfinished(self) -> (unfinished: bool)
        ensures
            unfinished == session_is_unfinished(self),
    {
        self == FuelCalibrationSessionStatus::Active || self == FuelCalibrationSessionStatus::Paused
    }
}

/// Parsing the stored text of a profile status gives it back, and only
/// that text parses to it.
pub proof fn lemma_calibration_status_text_roundtrip(status: FuelCalibrationStatus, text: Seq<char>)
    ensures
        parse_calibration_status(calibration_status_name(status)) == Some(status),
        parse_calibration_status(text) == Some(status) <==> text == calibration_status_name(status),
{
    reveal_strlit("draft");
    reveal_strlit("progressive");
    reveal_strlit("validated");
    reveal_strlit("production");
    reveal_strlit("superseded");
    assert("draft"@.len() == 5);
    assert("progressive"@.len() == 11);
    assert("validated"@.len() == 9);
    assert("production"@.len() == 10);
    assert("superseded"@.len() == 10);
    assert("production"@[0] != "superseded"@[0]);
}

/// Parsing the stored text of a session status gives it back, and only
/// that text parses to it.
pub proof fn lemma_session_status_text_roundtrip(status: FuelCalibrationSessionStatus, text: Seq<char>)
    ensures
        parse_session_status(session_status_name(status)) == Some(status),
        parse_session_status(text) == Some(status) <==> text == session_status_name(status),
{
    reveal_strlit("active");
    reveal_strlit("paused");
    reveal_strlit("abandoned");
    reveal_strlit("completed");
    assert("active"@.len() == 6);
    assert("paused"@.len() == 6);
    assert("abandoned"@.len() == 9);
    assert("completed"@.len() == 9);
    assert("active"@[0] != "paused"@[0]);
    assert("abandoned"@[0] != "completed"@[0]);
}

/// Completing a session never moves a profile backwards: only a draft
/// changes, and it becomes progressive; applying it twice changes nothing more.
pub proof fn lemma_completion_status_is_idempotent(status: FuelCalibrationStatus)
    ensures
        status_after_completed_session(status) != FuelCalibrationStatus::Draft,
        status_after_completed_session(FuelCalibrationStatus::Draft)
            == FuelCalibrationStatus::Progressive,
        status != FuelCalibrationStatus::Draft ==> status_after_completed_session(status) == status,
        status_after_completed_session(status_after_completed_session(status))
            == status_after_completed_session(status),
{
}

} // verus!
