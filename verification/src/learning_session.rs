use vstd::prelude::*;

use crate::text::str_eq;

verus! {

/// The operational behaviour being demonstrated during a learning session.
///
/// These values intentionally mirror the database CHECK constraint.
#[derive(Debug, Clone, Copy, PartialEq, Eq, Structural)]
pub enum BehaviourType {
    Parked,
    Idle,
    Moving,
}

/// Database text of each behaviour type.
pub open spec fn behaviour_type_name(behaviour: BehaviourType) -> Seq<char> {
    match behaviour {
        BehaviourType::Parked => "PARKED"@,
        BehaviourType::Idle => "IDLE"@,
        BehaviourType::Moving => "MOVING"@,
    }
}

/// The behaviour type whose database text is `text`, if any.
pub open spec fn parse_behaviour_type(text: Seq<char>) -> Option<BehaviourType> {
    if text == "PARKED"@ {
        Some(BehaviourType::Parked)
    } else if text == "IDLE"@ {
        Some(BehaviourType::Idle)
    } else if text == "MOVING"@ {
        Some(BehaviourType::Moving)
    } else {
        None
    }
}

impl BehaviourType {
    pub fn as_str(self) -> (text: &'static str)
        ensures
            text@ == behaviour_type_name(self),
    {
        match self {
            BehaviourType::Parked => "PARKED",
            BehaviourType::Idle => "IDLE",
            BehaviourType::Moving => "MOVING",
        }
    }

    pub fn from_str(value: &str) -> (behaviour: Option<BehaviourType>)
        ensures
            behaviour == parse_behaviour_type(value@),
    {
        if str_eq(value, "PARKED") {
            Some(BehaviourType::Parked)
        } else if str_eq(value, "IDLE") {
            Some(BehaviourType::Idle)
        } else if str_eq(value, "MOVING") {
            Some(BehaviourType::Moving)
        } else {
            None
        }
    }
}

/// Current lifecycle state of an operational behaviour learning session.
#[derive(Debug, Clone, Copy, PartialEq, Eq, Structural)]
pub enum LearningStatus {
    NotStarted,
    Collecting,
    Completed,
    Failed,
}

/// Database text of each learning status.
pub open spec fn learning_status_name(status: LearningStatus) -> Seq<char> {
    match status {
        LearningStatus::NotStarted => "NOT_STARTED"@,
        LearningStatus::Collecting => "COLLECTING"@,
        LearningStatus::Completed => "COMPLETED"@,
        LearningStatus::Failed => "FAILED"@,
    }
}

/// The learning status whose database text is `text`, if any.
pub open spec fn parse_learning_status(text: Seq<char>) -> Option<LearningStatus> {
    if text == "NOT_STARTED"@ {
        Some(LearningStatus::NotStarted)
    } else if text == "COLLECTING"@ {
        Some(LearningStatus::Collecting)
    } else if text == "COMPLETED"@ {
        Some(LearningStatus::Completed)
    } else if text == "FAILED"@ {
        Some(LearningStatus::Failed)
    } else {
        None
    }
}

impl LearningStatus {
    pub fn as_str(self) -> (text: &'static str)
        ensures
            text@ == learning_status_name(self),
    {
        match self {
            LearningStatus::NotStarted => "NOT_STARTED",
            LearningStatus::Collecting => "COLLECTING",
            LearningStatus::Completed => "COMPLETED",
            LearningStatus::Failed => "FAILED",
        }
    }

    pub fn from_str(value: &str) -> (status: Option<LearningStatus>)
        ensures
            status == parse_learning_status(value@),
    {
        if str_eq(value, "NOT_STARTED") {
            Some(LearningStatus::NotStarted)
        } else if str_eq(value, "COLLECTING") {
            Some(LearningStatus::Collecting)
        } else if str_eq(value, "COMPLETED") {
            Some(LearningStatus::Completed)
        } else if str_eq(value, "FAILED") {
            Some(LearningStatus::Failed)
        } else {
            None
        }
    }
}

/// Parsing the database text of a behaviour type gives it back, and only
/// that text parses to it.
pub proof fn lemma_behaviour_type_text_roundtrip(behaviour: BehaviourType, text: Seq<char>)
    ensures
        parse_behaviour_type(behaviour_type_name(behaviour)) == Some(behaviour),
        parse_behaviour_type(text) == Some(behaviour) <==> text == behaviour_type_name(behaviour),
{
    reveal_strlit("PARKED");
    reveal_strlit("IDLE");
    reveal_strlit("MOVING");
    assert("PARKED"@.len() == 6);
    assert("IDLE"@.len() == 4);
    assert("MOVING"@.len() == 6);
    assert("PARKED"@[0] != "MOVING"@[0]);
}

/// Parsing the database text of a learning status gives it back, and only
/// that text parses to it.
pub proof fn lemma_learning_status_text_roundtrip(status: LearningStatus, text: Seq<char>)
    ensures
        parse_learning_status(learning_status_name(status)) == Some(status),
        parse_learning_status(text) == Some(status) <==> text == learning_status_name(status),
{
    reveal_strlit("NOT_STARTED");
    reveal_strlit("COLLECTING");
    reveal_strlit("COMPLETED");
    reveal_strlit("FAILED");
    assert("NOT_STARTED"@.len() == 11);
    assert("COLLECTING"@.len() == 10);
    assert("COMPLETED"@.len() == 9);
    assert("FAILED"@.len() == 6);
}

/// Canonical domain representation of one installer-guided operational
/// behaviour learning exercise.
///
/// Identifiers are the 128-bit values of the persisted UUIDs and every
/// timestamp is a count of microseconds since the Unix epoch (UTC).
#[derive(Debug)]
pub struct OperationalBehaviourLearningSession {
    pub id: u128,
    pub device_id: u128,
    pub sensor_id: u128,
    pub behaviour_type: BehaviourType,
    pub status: LearningStatus,
    pub requested_sample_count: i32,
    pub collected_sample_count: i32,
    pub started_at: Option<i64>,
    pub completed_at: Option<i64>,
    pub failure_reason: Option<String>,
    pub created_at: i64,
    pub updated_at: i64,
}

/// Number of samples still required: never negative.
pub open spec fn remaining_samples(requested: int, collected: int) -> int {
    if requested - collected > 0 {
        requested - collected
    } else {
        0
    }
}

/// What recording one more behaviour sample does to a collecting session.
#[derive(Debug)]
pub enum BehaviourSampleRecordOutcome {
    /// The sample is stored; the session now counts it.
    Recorded(OperationalBehaviourLearningSession),
    /// The sample was taken before the session started and is ignored.
    SkippedBeforeSessionStart,
    /// The session already holds every requested sample.
    SkippedSessionFull,
}

/// Why a behaviour sample cannot be recorded at all.
#[derive(Debug, Clone, Copy, PartialEq, Eq, Structural)]
pub enum BehaviourSampleRecordError {
    /// Samples are only accepted while the session is collecting.
    NotCollecting { learning_session_id: u128, status: LearningStatus },
}

/// Why a persisted learning-session row cannot be mapped to the domain model.
#[derive(Debug, PartialEq, Eq)]
pub enum LearningSessionMappingError {
    UnsupportedBehaviourType(String),
    UnsupportedLearningStatus(String),
}

/// The session after `NOT_STARTED -> COLLECTING`.
pub open spec fn started_session(
    session: OperationalBehaviourLearningSession,
    now: i64,
) -> OperationalBehaviourLearningSession {
    OperationalBehaviourLearningSession {
        status: LearningStatus::Collecting,
        started_at: Some(now),
        failure_reason: None,
        updated_at: now,
        ..session
    }
}

/// The session after `COLLECTING -> COMPLETED`.
pub open spec fn completed_session(
    session: OperationalBehaviourLearningSession,
    now: i64,
) -> OperationalBehaviourLearningSession {
    OperationalBehaviourLearningSession {
        status: LearningStatus::Completed,
        completed_at: Some(now),
        failure_reason: None,
        updated_at: now,
        ..session
    }
}

/// The session after it has been marked as failed with `reason`.
pub open spec fn failed_session(
    session: OperationalBehaviourLearningSession,
    reason: String,
    now: i64,
) -> OperationalBehaviourLearningSession {
    OperationalBehaviourLearningSession {
        status: LearningStatus::Failed,
        failure_reason: Some(reason),
        completed_at: Some(now),
        updated_at: now,
        ..session
    }
}

/// Result of asking to start `session`: only a not-started session starts.
pub open spec fn start_transition(
    session: OperationalBehaviourLearningSession,
    now: i64,
) -> Option<OperationalBehaviourLearningSession> {
    if session.status == LearningStatus::NotStarted {
        Some(started_session(session, now))
    } else {
        None
    }
}

/// Result of asking to complete `session`: only a collecting session completes.
pub open spec fn complete_transition(
    session: OperationalBehaviourLearningSession,
    now: i64,
) -> Option<OperationalBehaviourLearningSession> {
    if session.status == LearningStatus::Collecting {
        Some(completed_session(session, now))
    } else {
        None
    }
}

/// Result of asking to fail `session`: only an unfinished session fails.
pub open spec fn fail_transition(
    session: OperationalBehaviourLearningSession,
    reason: String,
    now: i64,
) -> Option<OperationalBehaviourLearningSession> {
    if session.status == LearningStatus::NotStarted || session.status == LearningStatus::Collecting {
        Some(failed_session(session, reason, now))
    } else {
        None
    }
}

/// Outcome of recording a sample captured at `recorded_at`.
pub open spec fn sample_record_outcome(
    session: OperationalBehaviourLearningSession,
    recorded_at: i64,
    now: i64,
) -> Result<BehaviourSampleRecordOutcome, BehaviourSampleRecordError> {
    if session.status != LearningStatus::Collecting {
        Err(
            BehaviourSampleRecordError::NotCollecting {
                learning_session_id: session.id,
                status: session.status,
            },
        )
    } else if session.started_at is Some && recorded_at < session.started_at->0 {
        Ok(BehaviourSampleRecordOutcome::SkippedBeforeSessionStart)
    } else if session.collected_sample_count >= session.requested_sample_count {
        Ok(BehaviourSampleRecordOutcome::SkippedSessionFull)
    } else {
        Ok(
            BehaviourSampleRecordOutcome::Recorded(
                OperationalBehaviourLearningSession {
                    collected_sample_count: (session.collected_sample_count + 1) as i32,
                    updated_at: now,
                    ..session
                },
            ),
        )
    }
}

impl OperationalBehaviourLearningSession {
    /// Returns the number of samples still required.
    pub fn remaining_sample_count(&self) -> (remaining: i32)
        requires
            i32::MIN <= self.requested_sample_count - self.collected_sample_count <= i32::MAX,
        ensures
            remaining == remaining_samples(
                self.requested_sample_count as int,
                self.collected_sample_count as int,
            ),
    {
        let difference = self.requested_sample_count - self.collected_sample_count;
        if difference > 0 {
            difference
        } else {
            0
        }
    }

    pub fn is_collecting(&self) -> (collecting: bool)
        ensures
            collecting == (self.status == LearningStatus::Collecting),
    {
        self.status == LearningStatus::Collecting
    }

    pub fn is_complete(&self) -> (complete: bool)
        ensures
            complete == (self.status == LearningStatus::Completed),
    {
        self.status == LearningStatus::Completed
    }

    /// Moves a session from `NOT_STARTED` to `COLLECTING`; a session in any
    /// other state is not modified and `None` is returned.
    pub fn start(self, now: i64) -> (started: Option<OperationalBehaviourLearningSession>)
        ensures
            started == start_transition(self, now),
    {
        if self.status == LearningStatus::NotStarted {
            Some(
                OperationalBehaviourLearningSession {
                    status: LearningStatus::Collecting,
                    started_at: Some(now),
                    failure_reason: None,
                    updated_at: now,
                    ..self
                },
            )
        } else {
            None
        }
    }

    /// Marks a collecting session as completed; any other session is not
    /// modified and `None` is returned.
    pub fn complete(self, now: i64) -> (completed: Option<OperationalBehaviourLearningSession>)
        ensures
            completed == complete_transition(self, now),
    {
        if self.status == LearningStatus::Collecting {
            Some(
                OperationalBehaviourLearningSession {
                    status: LearningStatus::Completed,
                    completed_at: Some(now),
                    failure_reason: None,
                    updated_at: now,
                    ..self
                },
            )
        } else {
            None
        }
    }

    /// Marks a not-started or collecting session as failed and stores the
    /// reason; a finished session is not modified and `None` is returned.
    pub fn fail(self, reason: String, now: i64) -> (failed: Option<OperationalBehaviourLearningSession>)
        ensures
            failed == fail_transition(self, reason, now),
    {
        if self.status == LearningStatus::NotStarted || self.status == LearningStatus::Collecting {
            Some(
                OperationalBehaviourLearningSession {
                    status: LearningStatus::Failed,
                    failure_reason: Some(reason),
                    completed_at: Some(now),
                    updated_at: now,
                    ..self
                },
            )
        } else {
            None
        }
    }

    /// Decides what recording one behaviour sample captured at
    /// `recorded_at` does to this session.
    pub fn record_sample(self, recorded_at: i64, now: i64) -> (outcome: Result<
        BehaviourSampleRecordOutcome,
        BehaviourSampleRecordError,
    >)
        ensures
            outcome == sample_record_outcome(self, recorded_at, now),
    {
        if self.status != LearningStatus::Collecting {
            return Err(
                BehaviourSampleRecordError::NotCollecting {
                    learning_session_id: self.id,
                    status: self.status,
                },
            );
        }
        if let Some(started_at) = self.started_at {
            if recorded_at < started_at {
                return Ok(BehaviourSampleRecordOutcome::SkippedBeforeSessionStart);
            }
        }
        if self.collected_sample_count >= self.requested_sample_count {
            return Ok(BehaviourSampleRecordOutcome::SkippedSessionFull);
        }
        let sample_index = self.collected_sample_count + 1;
        Ok(
            BehaviourSampleRecordOutcome::Recorded(
                OperationalBehaviourLearningSession {
                    collected_sample_count: sample_index,
                    updated_at: now,
                    ..self
                },
            ),
        )
    }
}

/// Builds the domain session from the text columns of a persisted row.
pub fn map_learning_session(
    id: u128,
    device_id: u128,
    sensor_id: u128,
    behaviour_type: String,
    status: String,
    requested_sample_count: i32,
    collected_sample_count: i32,
    started_at: Option<i64>,
    completed_at: Option<i64>,
    failure_reason: Option<String>,
    created_at: i64,
    updated_at: i64,
) -> (mapped: Result<OperationalBehaviourLearningSession, LearningSessionMappingError>)
    ensures
        parse_behaviour_type(behaviour_type@) is None ==> mapped == Err::<
            OperationalBehaviourLearningSession,
            LearningSessionMappingError,
        >(LearningSessionMappingError::UnsupportedBehaviourType(behaviour_type)),
        parse_behaviour_type(behaviour_type@) is Some && parse_learning_status(status@) is None
            ==> mapped == Err::<OperationalBehaviourLearningSession, LearningSessionMappingError>(
            LearningSessionMappingError::UnsupportedLearningStatus(status),
        ),
        parse_behaviour_type(behaviour_type@) is Some && parse_learning_status(status@) is Some
            ==> mapped == Ok::<OperationalBehaviourLearningSession, LearningSessionMappingError>(
            OperationalBehaviourLearningSession {
                id,
                device_id,
                sensor_id,
                behaviour_type: parse_behaviour_type(behaviour_type@)->0,
                status: parse_learning_status(status@)->0,
                requested_sample_count,
                collected_sample_count,
                started_at,
                completed_at,
                failure_reason,
                created_at,
                updated_at,
            },
        ),
{
    let parsed_behaviour = match BehaviourType::from_str(behaviour_type.as_str()) {
        Some(value) => value,
        None => {
            return Err(LearningSessionMappingError::UnsupportedBehaviourType(behaviour_type));
        },
    };
    let parsed_status = match LearningStatus::from_str(status.as_str()) {
        Some(value) => value,
        None => {
            return Err(LearningSessionMappingError::UnsupportedLearningStatus(status));
        },
    };
    Ok(
        OperationalBehaviourLearningSession {
            id,
            device_id,
            sensor_id,
            behaviour_type: parsed_behaviour,
            status: parsed_status,
            requested_sample_count,
            collected_sample_count,
            started_at,
            completed_at,
            failure_reason,
            created_at,
            updated_at,
        },
    )
}

/// Position of a learning status along the session lifecycle.
pub open spec fn learning_stage(status: LearningStatus) -> int {
    match status {
        LearningStatus::NotStarted => 0,
        LearningStatus::Collecting => 1,
        LearningStatus::Completed => 2,
        LearningStatus::Failed => 2,
    }
}

/// Recording samples never takes a session past its requested sample
/// count: a recorded sample raises the count by exactly one, a session that
/// started with at most the requested number of samples still has at most
/// that many, and nothing else about the session changes but its
/// modification time.
pub proof fn lemma_recording_never_exceeds_requested_count(
    session: OperationalBehaviourLearningSession,
    recorded_at: i64,
    now: i64,
)
    requires
        session.collected_sample_count <= session.requested_sample_count,
    ensures
        sample_record_outcome(session, recorded_at, now) matches Ok(
            BehaviourSampleRecordOutcome::Recorded(next),
        ) ==> {
            &&& next.collected_sample_count == session.collected_sample_count + 1
            &&& next.collected_sample_count <= next.requested_sample_count
            &&& next.requested_sample_count == session.requested_sample_count
            &&& next.status == LearningStatus::Collecting
            &&& next.id == session.id
            &&& next.started_at == session.started_at
        },
{
}

/// A completed or failed learning session is final: it cannot be started,
/// completed, failed again, or receive samples.
pub proof fn lemma_finished_learning_sessions_are_final(
    session: OperationalBehaviourLearningSession,
    reason: String,
    recorded_at: i64,
    now: i64,
)
    requires
        session.status == LearningStatus::Completed || session.status == LearningStatus::Failed,
    ensures
        sample_record_outcome(session, recorded_at, now) is Err,
        start_transition(session, now) is None,
        complete_transition(session, now) is None,
        fail_transition(session, reason, now) is None,
{
}

/// Every lifecycle transition moves a session strictly forward.
pub proof fn lemma_learning_transitions_move_forward(
    session: OperationalBehaviourLearningSession,
    reason: String,
    now: i64,
)
    ensures
        start_transition(session, now) matches Some(next) ==> learning_stage(next.status)
            > learning_stage(session.status),
        complete_transition(session, now) matches Some(next) ==> learning_stage(next.status)
            > learning_stage(session.status),
        fail_transition(session, reason, now) matches Some(next) ==> learning_stage(next.status)
            > learning_stage(session.status),
{
}

/// Only a collecting session accepts samples: every other session is
/// refused with its own identifier and status, and a recorded sample always
/// comes from a session that was already collecting, stays collecting and
/// counts exactly one more sample, taken no earlier than the session start,
/// while fewer than the requested samples were held.
pub proof fn lemma_only_collecting_sessions_record_samples(
    session: OperationalBehaviourLearningSession,
    recorded_at: i64,
    now: i64,
)
    ensures
        session.status != LearningStatus::Collecting ==> sample_record_outcome(
            session,
            recorded_at,
            now,
        ) == Err::<BehaviourSampleRecordOutcome, BehaviourSampleRecordError>(
            BehaviourSampleRecordError::NotCollecting {
                learning_session_id: session.id,
                status: session.status,
            },
        ),
        sample_record_outcome(session, recorded_at, now) is Ok ==> session.status
            == LearningStatus::Collecting,
        sample_record_outcome(session, recorded_at, now) matches Ok(
            BehaviourSampleRecordOutcome::Recorded(next),
        ) ==> {
            &&& session.status == LearningStatus::Collecting
            &&& next.status == LearningStatus::Collecting
            &&& session.collected_sample_count < session.requested_sample_count
            &&& next.collected_sample_count == session.collected_sample_count + 1
            &&& (session.started_at matches Some(start) ==> start <= recorded_at)
            &&& next.id == session.id
            &&& next.requested_sample_count == session.requested_sample_count
            &&& next.updated_at == now
        },
        session.status == LearningStatus::Collecting && session.collected_sample_count
            < session.requested_sample_count && (session.started_at matches Some(start)
            ==> start <= recorded_at) ==> sample_record_outcome(session, recorded_at, now) matches Ok(
            BehaviourSampleRecordOutcome::Recorded(_),
        ),
{
}

/// Failing is possible exactly for sessions that have not finished: a
/// not-started or collecting session becomes failed, keeps the reason and
/// records the failure time as its completion and modification time, and a
/// completed or failed session cannot be failed.
pub proof fn lemma_unfinished_sessions_can_fail(
    session: OperationalBehaviourLearningSession,
    reason: String,
    now: i64,
)
    ensures
        (session.status == LearningStatus::NotStarted || session.status
            == LearningStatus::Collecting) ==> (fail_transition(session, reason, now) matches Some(
            next,
        ) && next.status == LearningStatus::Failed && next.failure_reason == Some(reason)
            && next.completed_at == Some(now) && next.updated_at == now && next.id == session.id
            && next.collected_sample_count == session.collected_sample_count
            && next.started_at == session.started_at),
        fail_transition(session, reason, now) is None <==> (session.status
            == LearningStatus::Completed || session.status == LearningStatus::Failed),
{
}

/// Starting and completing: a session starts exactly when it has not
/// started, becoming collecting from `now` with no failure reason, and
/// completes exactly when it is collecting, becoming completed at `now`.
pub proof fn lemma_start_and_complete_transitions(
    session: OperationalBehaviourLearningSession,
    now: i64,
)
    ensures
        start_transition(session, now) is Some <==> session.status == LearningStatus::NotStarted,
        start_transition(session, now) matches Some(next) ==> next.status
            == LearningStatus::Collecting && next.started_at == Some(now)
            && next.failure_reason is None && next.updated_at == now && next.id == session.id
            && next.collected_sample_count == session.collected_sample_count,
        complete_transition(session, now) is Some <==> session.status
            == LearningStatus::Collecting,
        complete_transition(session, now) matches Some(next) ==> next.status
            == LearningStatus::Completed && next.completed_at == Some(now)
            && next.updated_at == now && next.id == session.id && next.started_at
            == session.started_at && next.collected_sample_count == session.collected_sample_count,
{
}

} // verus!
