use vstd::prelude::*;

use crate::text::str_eq;

use crate::calibration_status::{
    FuelCalibrationConfidence, FuelCalibrationSessionStatus, FuelCalibrationStatus,
    session_is_unfinished,
};

verus! {

/// What the lifecycle rules know about one absolute litre quantity of a
/// guided session.
///
/// The quantity is `Valid` when it is a finite, non-negative number of
/// litres and `Invalid` when it is present but not physically meaningful.
#[derive(Debug, Clone, Copy, PartialEq, Eq, Structural)]
pub enum LitreReading {
    /// The quantity has not been resolved yet.
    Unknown,
    /// A finite, non-negative quantity.
    Valid,
    /// A quantity that is negative or not finite.
    Invalid,
}

/// One guided calibration session as seen by its lifecycle rules.
///
/// Timestamps are microseconds since the Unix epoch (UTC); `id` is the
/// 128-bit value of the session UUID.
#[derive(Debug, Clone, Copy, PartialEq, Eq, Structural)]
pub struct FuelCalibrationSession {
    pub id: u128,
    /// When the guided calibration began.
    pub started_at: i64,
    /// When the session finished.
    pub completed_at: Option<i64>,
    /// Current lifecycle state of this guided calibration session.
    pub status: FuelCalibrationSessionStatus,
    /// Absolute fuel quantity at the beginning of the session.
    pub starting_litres: LitreReading,
    /// Absolute fuel quantity at the end of the session.
    pub ending_litres: LitreReading,
    /// Number of verified calibration points captured.
    pub captured_point_count: usize,
}

/// The first rule a guided session breaks.
#[derive(Debug, Clone, Copy, PartialEq, Eq, Structural)]
pub enum FuelCalibrationSessionError {
    InvalidStartingLitres,
    InvalidEndingLitres,
    CompletedBeforeStarted,
    ActiveWithCompletionTime,
    PausedWithCompletionTime,
    AbandonedWithCompletionTime,
    CompletedWithoutCompletionTime,
    CompletedWithUnresolvedLitres,
    CompletedWithTooFewPoints,
}

/// Human-readable text of each session rule violation.
pub open spec fn session_error_message(error: FuelCalibrationSessionError) -> Seq<char> {
    match error {
        FuelCalibrationSessionError::InvalidStartingLitres => "Calibration session starting litres must be a finite non-negative value."@,
        FuelCalibrationSessionError::InvalidEndingLitres => "Calibration session ending litres must be a finite non-negative value."@,
        FuelCalibrationSessionError::CompletedBeforeStarted => "Calibration session completion time must not be before its start time."@,
        FuelCalibrationSessionError::ActiveWithCompletionTime => "An active calibration session must not have a completion time."@,
        FuelCalibrationSessionError::PausedWithCompletionTime => "A paused calibration session must not have a completion time."@,
        FuelCalibrationSessionError::AbandonedWithCompletionTime => "An abandoned calibration session must not have a completion time."@,
        FuelCalibrationSessionError::CompletedWithoutCompletionTime => "A completed calibration session must have a completion time."@,
        FuelCalibrationSessionError::CompletedWithUnresolvedLitres => "A completed calibration session must have resolved starting and ending litres."@,
        FuelCalibrationSessionError::CompletedWithTooFewPoints => "A completed calibration session must contain at least two verified points."@,
    }
}

impl FuelCalibrationSessionError {
    pub fn message(self) -> (text: &'static str)
        ensures
            text@ == session_error_message(self),
    {
        match self {
            FuelCalibrationSessionError::InvalidStartingLitres => "Calibration session starting litres must be a finite non-negative value.",
            FuelCalibrationSessionError::InvalidEndingLitres => "Calibration session ending litres must be a finite non-negative value.",
            FuelCalibrationSessionError::CompletedBeforeStarted => "Calibration session completion time must not be before its start time.",
            FuelCalibrationSessionError::ActiveWithCompletionTime => "An active calibration session must not have a completion time.",
            FuelCalibrationSessionError::PausedWithCompletionTime => "A paused calibration session must not have a completion time.",
            FuelCalibrationSessionError::AbandonedWithCompletionTime => "An abandoned calibration session must not have a completion time.",
            FuelCalibrationSessionError::CompletedWithoutCompletionTime => "A completed calibration session must have a completion time.",
            FuelCalibrationSessionError::CompletedWithUnresolvedLitres => "A completed calibration session must have resolved starting and ending litres.",
            FuelCalibrationSessionError::CompletedWithTooFewPoints => "A completed calibration session must contain at least two verified points.",
        }
    }
}

/// Result of validating one guided session: its first broken rule, in the
/// order quantities, timestamps, lifecycle.
pub open spec fn session_validation(session: FuelCalibrationSession) -> Result<(), FuelCalibrationSessionError> {
    if session.starting_litres == LitreReading::Invalid {
        Err(FuelCalibrationSessionError::InvalidStartingLitres)
    } else if session.ending_litres == LitreReading::Invalid {
        Err(FuelCalibrationSessionError::InvalidEndingLitres)
    } else if session.completed_at is Some && session.completed_at->0 < session.started_at {
        Err(FuelCalibrationSessionError::CompletedBeforeStarted)
    } else {
        match session.status {
            FuelCalibrationSessionStatus::Active => if session.completed_at is Some {
                Err(FuelCalibrationSessionError::ActiveWithCompletionTime)
            } else {
                Ok(())
            },
            FuelCalibrationSessionStatus::Paused => if session.completed_at is Some {
                Err(FuelCalibrationSessionError::PausedWithCompletionTime)
            } else {
                Ok(())
            },
            FuelCalibrationSessionStatus::Abandoned => if session.completed_at is Some {
                Err(FuelCalibrationSessionError::AbandonedWithCompletionTime)
            } else {
                Ok(())
            },
            FuelCalibrationSessionStatus::Completed => if session.completed_at is None {
                Err(FuelCalibrationSessionError::CompletedWithoutCompletionTime)
            } else if session.starting_litres == LitreReading::Unknown || session.ending_litres
                == LitreReading::Unknown {
                Err(FuelCalibrationSessionError::CompletedWithUnresolvedLitres)
            } else if session.captured_point_count < 2 {
                Err(FuelCalibrationSessionError::CompletedWithTooFewPoints)
            } else {
                Ok(())
            },
        }
    }
}

/// A session counts as completed evidence only with a completion time.
pub open spec fn session_is_completed(session: FuelCalibrationSession) -> bool {
    session.status == FuelCalibrationSessionStatus::Completed && session.completed_at is Some
}

impl FuelCalibrationSession {
    pub fn is_active(&self) -> (active: bool)
        ensures
            active == (self.status == FuelCalibrationSessionStatus::Active),
    {
        self.status == FuelCalibrationSessionStatus::Active
    }

    pub fn is_paused(&self) -> (paused: bool)
        ensures
            paused == (self.status == FuelCalibrationSessionStatus::Paused),
    {
        self.status == FuelCalibrationSessionStatus::Paused
    }

    pub fn is_abandoned(&self) -> (abandoned: bool)
        ensures
            abandoned == (self.status == FuelCalibrationSessionStatus::Abandoned),
    {
        self.status == FuelCalibrationSessionStatus::Abandoned
    }

    pub fn is_completed(&self) -> (completed: bool)
        ensures
            completed == session_is_completed(*self),
    {
        self.status == FuelCalibrationSessionStatus::Completed && self.completed_at.is_some()
    }

    /// Validates the lifecycle and verified range of this guided session.
    pub fn validate(&self) -> (result: Result<(), FuelCalibrationSessionError>)
        ensures
            result == session_validation(*self),
    {
        if self.starting_litres == LitreReading::Invalid {
            return Err(FuelCalibrationSessionError::InvalidStartingLitres);
        }
        if self.ending_litres == LitreReading::Invalid {
            return Err(FuelCalibrationSessionError::InvalidEndingLitres);
        }
        if let Some(completed_at) = self.completed_at {
            if completed_at < self.started_at {
                return Err(FuelCalibrationSessionError::CompletedBeforeStarted);
            }
        }
        match self.status {
            FuelCalibrationSessionStatus::Active => {
                if self.completed_at.is_some() {
                    return Err(FuelCalibrationSessionError::ActiveWithCompletionTime);
                }
            },
            FuelCalibrationSessionStatus::Paused => {
                if self.completed_at.is_some() {
                    return Err(FuelCalibrationSessionError::PausedWithCompletionTime);
                }
            },
            FuelCalibrationSessionStatus::Abandoned => {
                if self.completed_at.is_some() {
                    return Err(FuelCalibrationSessionError::AbandonedWithCompletionTime);
                }
            },
            FuelCalibrationSessionStatus::Completed => {
                if self.completed_at.is_none() {
                    return Err(FuelCalibrationSessionError::CompletedWithoutCompletionTime);
                }
                if self.starting_litres == LitreReading::Unknown || self.ending_litres
                    == LitreReading::Unknown {
                    return Err(FuelCalibrationSessionError::CompletedWithUnresolvedLitres);
                }
                if self.captured_point_count < 2 {
                    return Err(FuelCalibrationSessionError::CompletedWithTooFewPoints);
                }
            },
        }
        Ok(())
    }
}

/// A session that passes validation and counts as completed carries a
/// usable verified range: a completion time no earlier than its start,
/// resolved and valid starting and ending quantities, and at least two
/// points; an unfinished or abandoned valid session has no completion time.
pub proof fn lemma_valid_session_shape(session: FuelCalibrationSession)
    requires
        session_validation(session) is Ok,
    ensures
        session.status == FuelCalibrationSessionStatus::Completed ==> {
            &&& session_is_completed(session)
            &&& session.completed_at->0 >= session.started_at
            &&& session.starting_litres == LitreReading::Valid
            &&& session.ending_litres == LitreReading::Valid
            &&& session.captured_point_count >= 2
        },
        session.status != FuelCalibrationSessionStatus::Completed ==> session.completed_at is None,
        session_is_completed(session) <==> session.status == FuelCalibrationSessionStatus::Completed,
{
}

/// Result of validating every session of a profile, front to back: the
/// first session error met, if any.
pub open spec fn sessions_validation(sessions: Seq<FuelCalibrationSession>) -> Result<
    (),
    FuelCalibrationSessionError,
>
    decreases sessions.len(),
{
    if sessions.len() == 0 {
        Ok(())
    } else if session_validation(sessions[0]) is Err {
        session_validation(sessions[0])
    } else {
        sessions_validation(sessions.drop_first())
    }
}

/// Validates every guided session of a profile in order and reports the
/// first violation.
pub fn validate_sessions(sessions: &Vec<FuelCalibrationSession>) -> (result: Result<
    (),
    FuelCalibrationSessionError,
>)
    ensures
        result == sessions_validation(sessions@),
{
    let mut index: usize = 0;
    assert(sessions@.skip(0) =~= sessions@);
    while index < sessions.len()
        invariant
            index <= sessions@.len(),
            sessions_validation(sessions@) == sessions_validation(sessions@.skip(index as int)),
        decreases sessions@.len() - index,
    {
        let ghost rest = sessions@.skip(index as int);
        assert(rest[0] == sessions@[index as int]);
        assert(rest.drop_first() =~= sessions@.skip(index + 1));
        let checked = sessions[index].validate();
        if checked.is_err() {
            return checked;
        }
        index = index + 1;
    }
    assert(sessions@.skip(index as int).len() == 0);
    Ok(())
}

/// Whether a list of sessions holds at least one completed session.
pub open spec fn has_completed_session(sessions: Seq<FuelCalibrationSession>) -> bool {
    exists|i: int| 0 <= i < sessions.len() && session_is_completed(#[trigger] sessions[i])
}

/// The first lifecycle rule of a calibration profile that is broken.
#[derive(Debug, Clone, Copy, PartialEq, Eq, Structural)]
pub enum ProfileLifecycleError {
    DraftWithSessions,
    MissingCompletedSession,
    ProductionWithLowConfidence,
    VerifiedWithoutCompleteCoverage,
}

/// Human-readable text of each profile lifecycle violation.
pub open spec fn profile_error_message(error: ProfileLifecycleError) -> Seq<char> {
    match error {
        ProfileLifecycleError::DraftWithSessions => "A draft calibration profile must not contain completed calibration sessions."@,
        ProfileLifecycleError::MissingCompletedSession => "Validated and production calibrations require at least one completed session."@,
        ProfileLifecycleError::ProductionWithLowConfidence => "A production calibration cannot have low confidence."@,
        ProfileLifecycleError::VerifiedWithoutCompleteCoverage => "Verified calibration confidence requires complete tank coverage."@,
    }
}

impl ProfileLifecycleError {
    pub fn message(self) -> (text: &'static str)
        ensures
            text@ == profile_error_message(self),
    {
        match self {
            ProfileLifecycleError::DraftWithSessions => "A draft calibration profile must not contain completed calibration sessions.",
            ProfileLifecycleError::MissingCompletedSession => "Validated and production calibrations require at least one completed session.",
            ProfileLifecycleError::ProductionWithLowConfidence => "A production calibration cannot have low confidence.",
            ProfileLifecycleError::VerifiedWithoutCompleteCoverage => "Verified calibration confidence requires complete tank coverage.",
        }
    }
}

/// Result of the lifecycle rules of a calibration profile with the given
/// status, confidence and sessions, whose verified coverage is complete
/// exactly when `coverage_is_complete`.
pub open spec fn profile_lifecycle(
    status: FuelCalibrationStatus,
    confidence: FuelCalibrationConfidence,
    sessions: Seq<FuelCalibrationSession>,
    coverage_is_complete: bool,
) -> Result<(), ProfileLifecycleError> {
    if status == FuelCalibrationStatus::Draft && sessions.len() > 0 {
        Err(ProfileLifecycleError::DraftWithSessions)
    } else if (status == FuelCalibrationStatus::Validated || status
        == FuelCalibrationStatus::Production) && !has_completed_session(sessions) {
        Err(ProfileLifecycleError::MissingCompletedSession)
    } else if status == FuelCalibrationStatus::Production && confidence
        == FuelCalibrationConfidence::Low {
        Err(ProfileLifecycleError::ProductionWithLowConfidence)
    } else if confidence == FuelCalibrationConfidence::Verified && !coverage_is_complete {
        Err(ProfileLifecycleError::VerifiedWithoutCompleteCoverage)
    } else {
        Ok(())
    }
}

/// Checks the lifecycle rules that tie a profile's status, confidence and
/// session history together.
pub fn check_profile_lifecycle(
    status: FuelCalibrationStatus,
    confidence: FuelCalibrationConfidence,
    sessions: &Vec<FuelCalibrationSession>,
    coverage_is_complete: bool,
) -> (result: Result<(), ProfileLifecycleError>)
    ensures
        result == profile_lifecycle(status, confidence, sessions@, coverage_is_complete),
{
    if status == FuelCalibrationStatus::Draft && sessions.len() > 0 {
        return Err(ProfileLifecycleError::DraftWithSessions);
    }
    if status == FuelCalibrationStatus::Validated || status == FuelCalibrationStatus::Production {
        let mut found = false;
        let mut index: usize = 0;
        while index < sessions.len()
            invariant
                index <= sessions@.len(),
                found <==> exists|i: int| 0 <= i < index && session_is_completed(#[trigger] sessions@[i]),
            decreases sessions@.len() - index,
        {
            if sessions[index].is_completed() {
                found = true;
            }
            index = index + 1;
        }
        if !found {
            return Err(ProfileLifecycleError::MissingCompletedSession);
        }
    }
    if status == FuelCalibrationStatus::Production && confidence == FuelCalibrationConfidence::Low {
        return Err(ProfileLifecycleError::ProductionWithLowConfidence);
    }
    if confidence == FuelCalibrationConfidence::Verified && !coverage_is_complete {
        return Err(ProfileLifecycleError::VerifiedWithoutCompleteCoverage);
    }
    Ok(())
}

/// A profile that passes its lifecycle rules is trustworthy in the ways the
/// rules promise: a draft has no sessions, a validated or production profile
/// holds a completed session, production is never low-confidence, and
/// verified confidence implies complete coverage.
pub proof fn lemma_profile_lifecycle_guarantees(
    status: FuelCalibrationStatus,
    confidence: FuelCalibrationConfidence,
    sessions: Seq<FuelCalibrationSession>,
    coverage_is_complete: bool,
)
    requires
        profile_lifecycle(status, confidence, sessions, coverage_is_complete) is Ok,
    ensures
        status == FuelCalibrationStatus::Draft ==> sessions.len() == 0,
        (status == FuelCalibrationStatus::Validated || status == FuelCalibrationStatus::Production)
            ==> exists|i: int| 0 <= i < sessions.len() && session_is_completed(#[trigger] sessions[i]),
        status == FuelCalibrationStatus::Production ==> confidence != FuelCalibrationConfidence::Low,
        confidence == FuelCalibrationConfidence::Verified ==> coverage_is_complete,
{
}

/// When every session of a profile validates, each of them does.
pub proof fn lemma_sessions_validation_covers_each(sessions: Seq<FuelCalibrationSession>, i: int)
    requires
        sessions_validation(sessions) is Ok,
        0 <= i < sessions.len(),
    ensures
        session_validation(sessions[i]) is Ok,
    decreases sessions.len(),
{
    if i > 0 {
        assert(sessions.drop_first()[i - 1] == sessions[i]);
        lemma_sessions_validation_covers_each(sessions.drop_first(), i - 1);
    }
}

/// Why a step of the guided-session workflow is refused.
#[derive(Debug, Clone, Copy, PartialEq, Eq, Structural)]
pub enum SessionWorkflowError {
    CaptureRequiresActiveSession,
    AbandonRequiresUnfinishedSession,
    AnchorRequiresUnfinishedSession,
    AnchorRequiresCapturedPoints,
    CompletionRequiresUnfinishedSession,
    CompletionRequiresStartingQuantity,
    CompletionRequiresEndingQuantity,
    CompletionRequiresTwoPoints,
    CompletionRequiresResolvedPoints,
}

/// Human-readable text of each refused workflow step.
pub open spec fn workflow_error_message(error: SessionWorkflowError) -> Seq<char> {
    match error {
        SessionWorkflowError::CaptureRequiresActiveSession => "Calibration points can only be captured while the session is active."@,
        SessionWorkflowError::AbandonRequiresUnfinishedSession => "Only an active or paused fuel calibration session can be abandoned."@,
        SessionWorkflowError::AnchorRequiresUnfinishedSession => "Only an active or paused fuel calibration session can be anchored."@,
        SessionWorkflowError::AnchorRequiresCapturedPoints => "A fuel calibration anchor cannot be applied before any calibration points have been captured."@,
        SessionWorkflowError::CompletionRequiresUnfinishedSession => "Only an active or paused fuel calibration session can be completed."@,
        SessionWorkflowError::CompletionRequiresStartingQuantity => "Fuel calibration session cannot be completed before its starting quantity has been resolved."@,
        SessionWorkflowError::CompletionRequiresEndingQuantity => "Fuel calibration session cannot be completed before its ending quantity has been resolved."@,
        SessionWorkflowError::CompletionRequiresTwoPoints => "A completed calibration session must contain at least two verified points."@,
        SessionWorkflowError::CompletionRequiresResolvedPoints => "Fuel calibration session cannot be completed while calibration points remain unresolved."@,
    }
}

impl SessionWorkflowError {
    pub fn message(self) -> (text: &'static str)
        ensures
            text@ == workflow_error_message(self),
    {
        match self {
            SessionWorkflowError::CaptureRequiresActiveSession => "Calibration points can only be captured while the session is active.",
            SessionWorkflowError::AbandonRequiresUnfinishedSession => "Only an active or paused fuel calibration session can be abandoned.",
            SessionWorkflowError::AnchorRequiresUnfinishedSession => "Only an active or paused fuel calibration session can be anchored.",
            SessionWorkflowError::AnchorRequiresCapturedPoints => "A fuel calibration anchor cannot be applied before any calibration points have been captured.",
            SessionWorkflowError::CompletionRequiresUnfinishedSession => "Only an active or paused fuel calibration session can be completed.",
            SessionWorkflowError::CompletionRequiresStartingQuantity => "Fuel calibration session cannot be completed before its starting quantity has been resolved.",
            SessionWorkflowError::CompletionRequiresEndingQuantity => "Fuel calibration session cannot be completed before its ending quantity has been resolved.",
            SessionWorkflowError::CompletionRequiresTwoPoints => "A completed calibration session must contain at least two verified points.",
            SessionWorkflowError::CompletionRequiresResolvedPoints => "Fuel calibration session cannot be completed while calibration points remain unresolved.",
        }
    }
}

/// Status after a pause request: only an active session pauses.
pub open spec fn paused_status(status: FuelCalibrationSessionStatus) -> FuelCalibrationSessionStatus {
    if status == FuelCalibrationSessionStatus::Active {
        FuelCalibrationSessionStatus::Paused
    } else {
        status
    }
}

/// Status after a resume request: only a paused session resumes.
pub open spec fn resumed_status(status: FuelCalibrationSessionStatus) -> FuelCalibrationSessionStatus {
    if status == FuelCalibrationSessionStatus::Paused {
        FuelCalibrationSessionStatus::Active
    } else {
        status
    }
}

/// Result of an abandon request: only an unfinished session is abandoned.
pub open spec fn abandoned_status(status: FuelCalibrationSessionStatus) -> Result<
    FuelCalibrationSessionStatus,
    SessionWorkflowError,
> {
    if session_is_unfinished(status) {
        Ok(FuelCalibrationSessionStatus::Abandoned)
    } else {
        Err(SessionWorkflowError::AbandonRequiresUnfinishedSession)
    }
}

impl FuelCalibrationSessionStatus {
    /// Pausing stops an active session; any other session is left as it is.
    pub fn paused(self) -> (next: FuelCalibrationSessionStatus)
        ensures
            next == paused_status(self),
    {
        if self == FuelCalibrationSessionStatus::Active {
            FuelCalibrationSessionStatus::Paused
        } else {
            self
        }
    }

    /// Resuming reactivates a paused session; any other session is left as it is.
    pub fn resumed(self) -> (next: FuelCalibrationSessionStatus)
        ensures
            next == resumed_status(self),
    {
        if self == FuelCalibrationSessionStatus::Paused {
            FuelCalibrationSessionStatus::Active
        } else {
            self
        }
    }

    /// Abandoning keeps an unfinished session for traceability only;
    /// completed or already abandoned sessions are refused.
    pub fn abandoned(self) -> (next: Result<FuelCalibrationSessionStatus, SessionWorkflowError>)
        ensures
            next == abandoned_status(self),
    {
        if self.is_unfinished() {
            Ok(FuelCalibrationSessionStatus::Abandoned)
        } else {
            Err(SessionWorkflowError::AbandonRequiresUnfinishedSession)
        }
    }
}

/// Points may only be captured into an active session. `status` is the
/// parsed stored status (`None` when the stored text is not a known status).
pub fn check_point_capture(status: Option<FuelCalibrationSessionStatus>) -> (result: Result<
    (),
    SessionWorkflowError,
>)
    ensures
        result is Ok <==> status == Some(FuelCalibrationSessionStatus::Active),
        result is Err ==> result == Err::<(), SessionWorkflowError>(
            SessionWorkflowError::CaptureRequiresActiveSession,
        ),
{
    match status {
        Some(FuelCalibrationSessionStatus::Active) => Ok(()),
        _ => Err(SessionWorkflowError::CaptureRequiresActiveSession),
    }
}

/// Result of the checks made before an absolute anchor is applied.
pub open spec fn anchor_application_check(
    status: Option<FuelCalibrationSessionStatus>,
    captured_point_count: nat,
) -> Result<(), SessionWorkflowError> {
    if !(status matches Some(s) && session_is_unfinished(s)) {
        Err(SessionWorkflowError::AnchorRequiresUnfinishedSession)
    } else if captured_point_count == 0 {
        Err(SessionWorkflowError::AnchorRequiresCapturedPoints)
    } else {
        Ok(())
    }
}

/// An anchor may only be applied to an unfinished session that already
/// holds captured points.
pub fn check_anchor_application(
    status: Option<FuelCalibrationSessionStatus>,
    captured_point_count: usize,
) -> (result: Result<(), SessionWorkflowError>)
    ensures
        result == anchor_application_check(status, captured_point_count as nat),
{
    let unfinished = match status {
        Some(s) => s.is_unfinished(),
        None => false,
    };
    if !unfinished {
        return Err(SessionWorkflowError::AnchorRequiresUnfinishedSession);
    }
    if captured_point_count == 0 {
        return Err(SessionWorkflowError::AnchorRequiresCapturedPoints);
    }
    Ok(())
}

/// Result of the checks made before a guided session is completed.
pub open spec fn session_completion_check(
    status: Option<FuelCalibrationSessionStatus>,
    starting_resolved: bool,
    ending_resolved: bool,
    points_resolved: Seq<bool>,
) -> Result<(), SessionWorkflowError> {
    if !(status matches Some(s) && session_is_unfinished(s)) {
        Err(SessionWorkflowError::CompletionRequiresUnfinishedSession)
    } else if !starting_resolved {
        Err(SessionWorkflowError::CompletionRequiresStartingQuantity)
    } else if !ending_resolved {
        Err(SessionWorkflowError::CompletionRequiresEndingQuantity)
    } else if points_resolved.len() < 2 {
        Err(SessionWorkflowError::CompletionRequiresTwoPoints)
    } else if exists|i: int| 0 <= i < points_resolved.len() && !#[trigger] points_resolved[i] {
        Err(SessionWorkflowError::CompletionRequiresResolvedPoints)
    } else {
        Ok(())
    }
}

/// Checks that a guided session may be completed: it is unfinished, both
/// ends have been resolved into litres, and it holds at least two points,
/// every one of them resolved (`points_resolved[i]` tells whether the
/// i-th captured point has an absolute quantity).
pub fn check_session_completion(
    status: Option<FuelCalibrationSessionStatus>,
    starting_resolved: bool,
    ending_resolved: bool,
    points_resolved: &Vec<bool>,
) -> (result: Result<(), SessionWorkflowError>)
    ensures
        result == session_completion_check(status, starting_resolved, ending_resolved, points_resolved@),
{
    let unfinished = match status {
        Some(s) => s.is_unfinished(),
        None => false,
    };
    if !unfinished {
        return Err(SessionWorkflowError::CompletionRequiresUnfinishedSession);
    }
    if !starting_resolved {
        return Err(SessionWorkflowError::CompletionRequiresStartingQuantity);
    }
    if !ending_resolved {
        return Err(SessionWorkflowError::CompletionRequiresEndingQuantity);
    }
    if points_resolved.len() < 2 {
        return Err(SessionWorkflowError::CompletionRequiresTwoPoints);
    }
    let mut index: usize = 0;
    while index < points_resolved.len()
        invariant
            index <= points_resolved@.len(),
            forall|i: int| 0 <= i < index ==> #[trigger] points_resolved@[i],
            status matches Some(s) && session_is_unfinished(s),
            starting_resolved,
            ending_resolved,
            points_resolved@.len() >= 2,
        decreases points_resolved@.len() - index,
    {
        if !points_resolved[index] {
            assert(!points_resolved@[index as int]);
            return Err(SessionWorkflowError::CompletionRequiresResolvedPoints);
        }
        index = index + 1;
    }
    Ok(())
}

/// Pausing and resuming undo each other on unfinished sessions, and a
/// finished (completed or abandoned) session is final: pausing and resuming
/// leave it as it is and it can be neither abandoned, anchored, completed,
/// nor receive points.
pub proof fn lemma_session_workflow_laws(
    status: FuelCalibrationSessionStatus,
    captured_point_count: nat,
    starting_resolved: bool,
    ending_resolved: bool,
    points_resolved: Seq<bool>,
)
    ensures
        status == FuelCalibrationSessionStatus::Active ==> resumed_status(paused_status(status))
            == status,
        status == FuelCalibrationSessionStatus::Paused ==> paused_status(resumed_status(status))
            == status,
        session_is_unfinished(status) ==> session_is_unfinished(paused_status(status))
            && session_is_unfinished(resumed_status(status)),
        !session_is_unfinished(status) ==> {
            &&& paused_status(status) == status
            &&& resumed_status(status) == status
            &&& abandoned_status(status) is Err
            &&& anchor_application_check(Some(status), captured_point_count) is Err
            &&& session_completion_check(
                Some(status),
                starting_resolved,
                ending_resolved,
                points_resolved,
            ) is Err
            &&& status != FuelCalibrationSessionStatus::Active
        },
{
}

/// A session accepted for completion carries at least two captured points,
/// all resolved, and both resolved ends.
pub proof fn lemma_completion_requires_resolved_evidence(
    status: Option<FuelCalibrationSessionStatus>,
    starting_resolved: bool,
    ending_resolved: bool,
    points_resolved: Seq<bool>,
)
    requires
        session_completion_check(status, starting_resolved, ending_resolved, points_resolved) is Ok,
    ensures
        status matches Some(s) && session_is_unfinished(s),
        starting_resolved && ending_resolved,
        points_resolved.len() >= 2,
        forall|i: int| 0 <= i < points_resolved.len() ==> #[trigger] points_resolved[i],
{
}

/// Why a guided calibration profile cannot be opened for a sensor.
#[derive(Debug, Clone, Copy, PartialEq, Eq, Structural)]
pub enum ProfileCreationError {
    SensorNotFound,
    NotAFuelSensor,
    InvalidTankCapacity,
    CurrentProfileExists,
}

/// Human-readable text of each refused profile creation.
pub open spec fn profile_creation_message(error: ProfileCreationError) -> Seq<char> {
    match error {
        ProfileCreationError::SensorNotFound => "Sensor not found."@,
        ProfileCreationError::NotAFuelSensor => "Sensor is not a FUEL sensor."@,
        ProfileCreationError::InvalidTankCapacity => "Tank capacity must be a finite positive value."@,
        ProfileCreationError::CurrentProfileExists => "Sensor already has a current fuel calibration profile."@,
    }
}

impl ProfileCreationError {
    pub fn message(self) -> (text: &'static str)
        ensures
            text@ == profile_creation_message(self),
    {
        match self {
            ProfileCreationError::SensorNotFound => "Sensor not found.",
            ProfileCreationError::NotAFuelSensor => "Sensor is not a FUEL sensor.",
            ProfileCreationError::InvalidTankCapacity => "Tank capacity must be a finite positive value.",
            ProfileCreationError::CurrentProfileExists => "Sensor already has a current fuel calibration profile.",
        }
    }
}

/// Result of the checks made before a profile is opened, in the order they
/// are made: the sensor exists, it is a `FUEL` sensor, the declared
/// capacity is a finite positive value, and the sensor has no current
/// (non-superseded) profile yet.
pub open spec fn profile_creation_check(
    sensor_type: Option<Seq<char>>,
    capacity_is_valid: bool,
    has_current_profile: bool,
) -> Result<(), ProfileCreationError> {
    match sensor_type {
        None => Err(ProfileCreationError::SensorNotFound),
        Some(t) => if t != "FUEL"@ {
            Err(ProfileCreationError::NotAFuelSensor)
        } else if !capacity_is_valid {
            Err(ProfileCreationError::InvalidTankCapacity)
        } else if has_current_profile {
            Err(ProfileCreationError::CurrentProfileExists)
        } else {
            Ok(())
        },
    }
}

/// Checks that a guided calibration profile may be opened. `sensor_type` is
/// the stored type of the sensor (`None` when there is no such sensor).
pub fn check_profile_creation(
    sensor_type: Option<&str>,
    capacity_is_valid: bool,
    has_current_profile: bool,
) -> (result: Result<(), ProfileCreationError>)
    ensures
        result == profile_creation_check(
            match sensor_type {
                Some(t) => Some(t@),
                None => None,
            },
            capacity_is_valid,
            has_current_profile,
        ),
{
    match sensor_type {
        None => Err(ProfileCreationError::SensorNotFound),
        Some(t) => {
            if !str_eq(t, "FUEL") {
                Err(ProfileCreationError::NotAFuelSensor)
            } else if !capacity_is_valid {
                Err(ProfileCreationError::InvalidTankCapacity)
            } else if has_current_profile {
                Err(ProfileCreationError::CurrentProfileExists)
            } else {
                Ok(())
            }
        },
    }
}

/// Why a guided calibration session cannot be started on a profile.
#[derive(Debug, Clone, Copy, PartialEq, Eq, Structural)]
pub enum SessionStartError {
    ProfileNotFound,
    SupersededProfile,
    InvalidStartingQuantity,
    UnfinishedSessionExists,
}

/// Human-readable text of each refused session start.
pub open spec fn session_start_message(error: SessionStartError) -> Seq<char> {
    match error {
        SessionStartError::ProfileNotFound => "Fuel calibration profile not found."@,
        SessionStartError::SupersededProfile => "A calibration session cannot be started on a superseded profile."@,
        SessionStartError::InvalidStartingQuantity => "Starting fuel quantity must be between zero and the tank capacity."@,
        SessionStartError::UnfinishedSessionExists => "Fuel calibration profile already has an unfinished session."@,
    }
}

impl SessionStartError {
    pub fn message(self) -> (text: &'static str)
        ensures
            text@ == session_start_message(self),
    {
        match self {
            SessionStartError::ProfileNotFound => "Fuel calibration profile not found.",
            SessionStartError::SupersededProfile => "A calibration session cannot be started on a superseded profile.",
            SessionStartError::InvalidStartingQuantity => "Starting fuel quantity must be between zero and the tank capacity.",
            SessionStartError::UnfinishedSessionExists => "Fuel calibration profile already has an unfinished session.",
        }
    }
}

/// Whether any of the stored session statuses is an unfinished one.
pub open spec fn has_unfinished_session(statuses: Seq<Option<FuelCalibrationSessionStatus>>) -> bool {
    exists|i: int|
        0 <= i < statuses.len() && (#[trigger] statuses[i] matches Some(s) && session_is_unfinished(s))
}

/// Result of the checks made before a session is started, in the order they
/// are made: the profile exists, it is not superseded, the starting
/// quantity (when given) lies within the tank, and none of the profile's
/// sessions is unfinished.
pub open spec fn session_start_check(
    profile_found: bool,
    profile_status: Option<FuelCalibrationStatus>,
    starting_quantity_is_valid: bool,
    session_statuses: Seq<Option<FuelCalibrationSessionStatus>>,
) -> Result<(), SessionStartError> {
    if !profile_found {
        Err(SessionStartError::ProfileNotFound)
    } else if profile_status == Some(FuelCalibrationStatus::Superseded) {
        Err(SessionStartError::SupersededProfile)
    } else if !starting_quantity_is_valid {
        Err(SessionStartError::InvalidStartingQuantity)
    } else if has_unfinished_session(session_statuses) {
        Err(SessionStartError::UnfinishedSessionExists)
    } else {
        Ok(())
    }
}

/// Checks that a guided session may be started. `profile_status` is the
/// parsed stored status of the profile (`None` when the text is unknown)
/// and `session_statuses` the parsed statuses of its existing sessions.
pub fn check_session_start(
    profile_found: bool,
    profile_status: Option<FuelCalibrationStatus>,
    starting_quantity_is_valid: bool,
    session_statuses: &Vec<Option<FuelCalibrationSessionStatus>>,
) -> (result: Result<(), SessionStartError>)
    ensures
        result == session_start_check(
            profile_found,
            profile_status,
            starting_quantity_is_valid,
            session_statuses@,
        ),
{
    if !profile_found {
        return Err(SessionStartError::ProfileNotFound);
    }
    if profile_status == Some(FuelCalibrationStatus::Superseded) {
        return Err(SessionStartError::SupersededProfile);
    }
    if !starting_quantity_is_valid {
        return Err(SessionStartError::InvalidStartingQuantity);
    }
    let mut index: usize = 0;
    while index < session_statuses.len()
        invariant
            profile_found,
            profile_status != Some(FuelCalibrationStatus::Superseded),
            starting_quantity_is_valid,
            index <= session_statuses@.len(),
            forall|i: int|
                0 <= i < index ==> !(#[trigger] session_statuses@[i] matches Some(s)
                    && session_is_unfinished(s)),
        decreases session_statuses@.len() - index,
    {
        let unfinished = match session_statuses[index] {
            Some(s) => s.is_unfinished(),
            None => false,
        };
        if unfinished {
            assert(session_statuses@[index as int] matches Some(s) && session_is_unfinished(s));
            return Err(SessionStartError::UnfinishedSessionExists);
        }
        index = index + 1;
    }
    Ok(())
}

/// A profile never gets a second unfinished session: whenever one of its
/// sessions is active or paused, starting another is refused.
pub proof fn lemma_one_unfinished_session_per_profile(
    profile_status: Option<FuelCalibrationStatus>,
    starting_quantity_is_valid: bool,
    session_statuses: Seq<Option<FuelCalibrationSessionStatus>>,
    i: int,
)
    requires
        0 <= i < session_statuses.len(),
        session_statuses[i] matches Some(s) && session_is_unfinished(s),
    ensures
        session_start_check(true, profile_status, starting_quantity_is_valid, session_statuses)
            is Err,
{
    assert(session_statuses[i] matches Some(s) && session_is_unfinished(s));
}

/// Completion accepts exactly the active and paused sessions whose ends are
/// resolved and that hold at least two points, all resolved; the refusal
/// for an unsuitable status is given exactly when the session is neither
/// active nor paused (completed, abandoned, or of unknown status).
pub proof fn lemma_completion_accepts_active_and_paused_sessions(
    status: Option<FuelCalibrationSessionStatus>,
    starting_resolved: bool,
    ending_resolved: bool,
    points_resolved: Seq<bool>,
)
    ensures
        (status == Some(FuelCalibrationSessionStatus::Active) || status == Some(
            FuelCalibrationSessionStatus::Paused,
        )) && starting_resolved && ending_resolved && points_resolved.len() >= 2 && (forall|
            i: int,
        | 0 <= i < points_resolved.len() ==> #[trigger] points_resolved[i]) ==> session_completion_check(
            status,
            starting_resolved,
            ending_resolved,
            points_resolved,
        ) == Ok::<(), SessionWorkflowError>(()),
        session_completion_check(status, starting_resolved, ending_resolved, points_resolved)
            == Err::<(), SessionWorkflowError>(
            SessionWorkflowError::CompletionRequiresUnfinishedSession,
        ) <==> !(status == Some(FuelCalibrationSessionStatus::Active) || status == Some(
            FuelCalibrationSessionStatus::Paused,
        )),
        session_completion_check(status, starting_resolved, ending_resolved, points_resolved) is Ok
            ==> (status == Some(FuelCalibrationSessionStatus::Active) || status == Some(
            FuelCalibrationSessionStatus::Paused,
        )) && starting_resolved && ending_resolved && points_resolved.len() >= 2,
{
}

/// The other workflow steps, by status: points are captured only into an
/// active session; anchors are refused for their status exactly when the
/// session is neither active nor paused and otherwise accepted once a point
/// exists; abandoning succeeds exactly for active and paused sessions;
/// pausing turns active into paused and resuming paused into active.
pub proof fn lemma_workflow_steps_by_status(
    status: FuelCalibrationSessionStatus,
    captured_point_count: nat,
)
    ensures
        anchor_application_check(Some(status), captured_point_count) == Err::<
            (),
            SessionWorkflowError,
        >(SessionWorkflowError::AnchorRequiresUnfinishedSession) <==> !(status
            == FuelCalibrationSessionStatus::Active || status
            == FuelCalibrationSessionStatus::Paused),
        (status == FuelCalibrationSessionStatus::Active || status
            == FuelCalibrationSessionStatus::Paused) && captured_point_count > 0
            ==> anchor_application_check(Some(status), captured_point_count) is Ok,
        abandoned_status(status) is Ok <==> (status == FuelCalibrationSessionStatus::Active
            || status == FuelCalibrationSessionStatus::Paused),
        abandoned_status(status) is Ok ==> abandoned_status(status) == Ok::<
            FuelCalibrationSessionStatus,
            SessionWorkflowError,
        >(FuelCalibrationSessionStatus::Abandoned),
        paused_status(FuelCalibrationSessionStatus::Active) == FuelCalibrationSessionStatus::Paused,
        resumed_status(FuelCalibrationSessionStatus::Paused) == FuelCalibrationSessionStatus::Active,
        anchor_application_check(None, captured_point_count) is Err,
{
}

/// A well-formed session is accepted: known quantities are valid, a
/// completion time is never before the start, unfinished and abandoned
/// sessions have none, and a completed session has one, both quantities
/// resolved and at least two points. A broken rule is always reported.
pub proof fn lemma_well_formed_sessions_are_accepted(session: FuelCalibrationSession)
    ensures
        ({
            &&& session.starting_litres != LitreReading::Invalid
            &&& session.ending_litres != LitreReading::Invalid
            &&& (session.completed_at matches Some(at) ==> at >= session.started_at)
            &&& (session.status != FuelCalibrationSessionStatus::Completed
                ==> session.completed_at is None)
            &&& (session.status == FuelCalibrationSessionStatus::Completed ==> {
                &&& session.completed_at is Some
                &&& session.starting_litres == LitreReading::Valid
                &&& session.ending_litres == LitreReading::Valid
                &&& session.captured_point_count >= 2
            })
        }) <==> session_validation(session) is Ok,
        session.starting_litres == LitreReading::Invalid ==> session_validation(session) == Err::<
            (),
            FuelCalibrationSessionError,
        >(FuelCalibrationSessionError::InvalidStartingLitres),
{
}

/// A list of sessions is accepted exactly when each session is accepted.
pub proof fn lemma_sessions_accepted_when_each_is(sessions: Seq<FuelCalibrationSession>)
    ensures
        sessions_validation(sessions) is Ok <==> forall|i: int|
            0 <= i < sessions.len() ==> session_validation(#[trigger] sessions[i]) is Ok,
    decreases sessions.len(),
{
    if sessions.len() > 0 {
        let rest = sessions.drop_first();
        lemma_sessions_accepted_when_each_is(rest);
        assert forall|i: int| 0 < i < sessions.len() implies #[trigger] sessions[i] == rest[i - 1] by {}
        if forall|i: int| 0 <= i < sessions.len() ==> session_validation(#[trigger] sessions[i]) is Ok {
            assert forall|j: int| 0 <= j < rest.len() implies session_validation(#[trigger] rest[j]) is Ok by {
                assert(rest[j] == sessions[j + 1]);
            }
        }
        if sessions_validation(sessions) is Ok {
            assert forall|i: int| 0 <= i < sessions.len() implies session_validation(
                #[trigger] sessions[i],
            ) is Ok by {
                if i > 0 {
                    assert(session_validation(rest[i - 1]) is Ok);
                }
            }
        }
    }
}

/// A profile is accepted exactly when a draft holds no sessions, a validated
/// or production profile holds a completed session (status completed, with
/// a completion time), production is not low-confidence, and verified
/// confidence comes with complete coverage.
pub proof fn lemma_profile_lifecycle_accepts_exactly(
    status: FuelCalibrationStatus,
    confidence: FuelCalibrationConfidence,
    sessions: Seq<FuelCalibrationSession>,
    coverage_is_complete: bool,
)
    ensures
        profile_lifecycle(status, confidence, sessions, coverage_is_complete) is Ok <==> {
            &&& (status == FuelCalibrationStatus::Draft ==> sessions.len() == 0)
            &&& ((status == FuelCalibrationStatus::Validated || status
                == FuelCalibrationStatus::Production) ==> exists|i: int|
                0 <= i < sessions.len() && #[trigger] sessions[i].status
                    == FuelCalibrationSessionStatus::Completed && sessions[i].completed_at is Some)
            &&& (status == FuelCalibrationStatus::Production ==> confidence
                != FuelCalibrationConfidence::Low)
            &&& (confidence == FuelCalibrationConfidence::Verified ==> coverage_is_complete)
        },
{
    if exists|i: int|
        0 <= i < sessions.len() && #[trigger] sessions[i].status
            == FuelCalibrationSessionStatus::Completed && sessions[i].completed_at is Some {
        let i = choose|i: int|
            0 <= i < sessions.len() && #[trigger] sessions[i].status
                == FuelCalibrationSessionStatus::Completed && sessions[i].completed_at is Some;
        assert(session_is_completed(sessions[i]));
    }
    if has_completed_session(sessions) {
        let i = choose|i: int| 0 <= i < sessions.len() && session_is_completed(#[trigger] sessions[i]);
        assert(sessions[i].status == FuelCalibrationSessionStatus::Completed);
    }
}

/// A profile may be opened exactly for an existing FUEL sensor with a valid
/// capacity and no current profile; a missing sensor is always reported as
/// such, whatever else holds.
pub proof fn lemma_profile_creation_accepts_exactly(
    sensor_type: Option<Seq<char>>,
    capacity_is_valid: bool,
    has_current_profile: bool,
)
    ensures
        profile_creation_check(sensor_type, capacity_is_valid, has_current_profile) is Ok <==> (
        sensor_type == Some("FUEL"@) && capacity_is_valid && !has_current_profile),
        sensor_type is None ==> profile_creation_check(
            sensor_type,
            capacity_is_valid,
            has_current_profile,
        ) == Err::<(), ProfileCreationError>(ProfileCreationError::SensorNotFound),
        sensor_type == Some("FUEL"@) && capacity_is_valid && has_current_profile
            ==> profile_creation_check(sensor_type, capacity_is_valid, has_current_profile) == Err::<
            (),
            ProfileCreationError,
        >(ProfileCreationError::CurrentProfileExists),
{
}

/// A session may be started exactly on an existing, non-superseded profile
/// with a valid starting quantity, none of whose sessions is active or
/// paused.
pub proof fn lemma_session_start_accepts_exactly(
    profile_found: bool,
    profile_status: Option<FuelCalibrationStatus>,
    starting_quantity_is_valid: bool,
    session_statuses: Seq<Option<FuelCalibrationSessionStatus>>,
)
    ensures
        session_start_check(profile_found, profile_status, starting_quantity_is_valid, session_statuses)
            is Ok <==> {
            &&& profile_found
            &&& profile_status != Some(FuelCalibrationStatus::Superseded)
            &&& starting_quantity_is_valid
            &&& forall|i: int|
                0 <= i < session_statuses.len() ==> #[trigger] session_statuses[i] != Some(
                    FuelCalibrationSessionStatus::Active,
                ) && session_statuses[i] != Some(FuelCalibrationSessionStatus::Paused)
        },
        !profile_found ==> session_start_check(
            profile_found,
            profile_status,
            starting_quantity_is_valid,
            session_statuses,
        ) == Err::<(), SessionStartError>(SessionStartError::ProfileNotFound),
{
    if has_unfinished_session(session_statuses) {
        let i = choose|i: int|
            0 <= i < session_statuses.len() && (#[trigger] session_statuses[i] matches Some(s)
                && session_is_unfinished(s));
        assert(session_statuses[i] == Some(FuelCalibrationSessionStatus::Active)
            || session_statuses[i] == Some(FuelCalibrationSessionStatus::Paused));
    }
    if exists|i: int|
        0 <= i < session_statuses.len() && !(#[trigger] session_statuses[i] != Some(
            FuelCalibrationSessionStatus::Active,
        ) && session_statuses[i] != Some(FuelCalibrationSessionStatus::Paused)) {
        let i = choose|i: int|
            0 <= i < session_statuses.len() && !(#[trigger] session_statuses[i] != Some(
                FuelCalibrationSessionStatus::Active,
            ) && session_statuses[i] != Some(FuelCalibrationSessionStatus::Paused));
        assert(session_statuses[i] matches Some(s) && session_is_unfinished(s));
    }
}

} // verus!
