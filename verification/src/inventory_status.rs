use vstd::prelude::*;

use crate::text::str_eq;

verus! {

/// Manufacturing and deployment lifecycle of one ORBI device in stock.
#[derive(Debug, Clone, Copy, PartialEq, Eq, Structural)]
pub enum InventoryStatus {
    Assembled,
    Programmed,
    Tested,
    ReadyForDeployment,
    Provisioned,
    Retired,
}

/// Database text of each inventory status.
pub open spec fn inventory_status_name(status: InventoryStatus) -> Seq<char> {
    match status {
        InventoryStatus::Assembled => "ASSEMBLED"@,
        InventoryStatus::Programmed => "PROGRAMMED"@,
        InventoryStatus::Tested => "TESTED"@,
        InventoryStatus::ReadyForDeployment => "READY_FOR_DEPLOYMENT"@,
        InventoryStatus::Provisioned => "PROVISIONED"@,
        InventoryStatus::Retired => "RETIRED"@,
    }
}

/// The status whose database text is `text`, if any.
pub open spec fn parse_inventory_status(text: Seq<char>) -> Option<InventoryStatus> {
    if text == "ASSEMBLED"@ {
        Some(InventoryStatus::Assembled)
    } else if text == "PROGRAMMED"@ {
        Some(InventoryStatus::Programmed)
    } else if text == "TESTED"@ {
        Some(InventoryStatus::Tested)
    } else if text == "READY_FOR_DEPLOYMENT"@ {
        Some(InventoryStatus::ReadyForDeployment)
    } else if text == "PROVISIONED"@ {
        Some(InventoryStatus::Provisioned)
    } else if text == "RETIRED"@ {
        Some(InventoryStatus::Retired)
    } else {
        None
    }
}

/// The only status a device may move to from `status`.
pub open spec fn inventory_successor(status: InventoryStatus) -> Option<InventoryStatus> {
    match status {
        InventoryStatus::Assembled => Some(InventoryStatus::Programmed),
        InventoryStatus::Programmed => Some(InventoryStatus::Tested),
        InventoryStatus::Tested => Some(InventoryStatus::ReadyForDeployment),
        InventoryStatus::ReadyForDeployment => Some(InventoryStatus::Provisioned),
        InventoryStatus::Provisioned => Some(InventoryStatus::Retired),
        InventoryStatus::Retired => None,
    }
}

/// Position of a status along the lifecycle, starting at zero.
pub open spec fn inventory_stage(status: InventoryStatus) -> int {
    match status {
        InventoryStatus::Assembled => 0,
        InventoryStatus::Programmed => 1,
        InventoryStatus::Tested => 2,
        InventoryStatus::ReadyForDeployment => 3,
        InventoryStatus::Provisioned => 4,
        InventoryStatus::Retired => 5,
    }
}

impl InventoryStatus {
    pub fn as_str(&self) -> (text: &'static str)
        ensures
            text@ == inventory_status_name(*self),
    {
        match self {
            InventoryStatus::Assembled => "ASSEMBLED",
            InventoryStatus::Programmed => "PROGRAMMED",
            InventoryStatus::Tested => "TESTED",
            InventoryStatus::ReadyForDeployment => "READY_FOR_DEPLOYMENT",
            InventoryStatus::Provisioned => "PROVISIONED",
            InventoryStatus::Retired => "RETIRED",
        }
    }

    pub fn from_str(value: &str) -> (status: Option<InventoryStatus>)
        ensures
            status == parse_inventory_status(value@),
    {
        if str_eq(value, "ASSEMBLED") {
            Some(InventoryStatus::Assembled)
        } else if str_eq(value, "PROGRAMMED") {
            Some(InventoryStatus::Programmed)
        } else if str_eq(value, "TESTED") {
            Some(InventoryStatus::Tested)
        } else if str_eq(value, "READY_FOR_DEPLOYMENT") {
            Some(InventoryStatus::ReadyForDeployment)
        } else if str_eq(value, "PROVISIONED") {
            Some(InventoryStatus::Provisioned)
        } else if str_eq(value, "RETIRED") {
            Some(InventoryStatus::Retired)
        } else {
            None
        }
    }

    pub fn can_transition_to(self, next: InventoryStatus) -> (allowed: bool)
        ensures
            allowed == (inventory_successor(self) == Some(next)),
    {
        match (self, next) {
            (InventoryStatus::Assembled, InventoryStatus::Programmed) => true,
            (InventoryStatus::Programmed, InventoryStatus::Tested) => true,
            (InventoryStatus::Tested, InventoryStatus::ReadyForDeployment) => true,
            (InventoryStatus::ReadyForDeployment, InventoryStatus::Provisioned) => true,
            (InventoryStatus::Provisioned, InventoryStatus::Retired) => true,
            _ => false,
        }
    }
}

/// Parsing the database text of a status gives that status back, and
/// only the database text of a status parses to it.
pub proof fn lemma_inventory_status_text_roundtrip(status: InventoryStatus, text: Seq<char>)
    ensures
        parse_inventory_status(inventory_status_name(status)) == Some(status),
        parse_inventory_status(text) == Some(status) <==> text == inventory_status_name(status),
{
    reveal_strlit("ASSEMBLED");
    reveal_strlit("PROGRAMMED");
    reveal_strlit("TESTED");
    reveal_strlit("READY_FOR_DEPLOYMENT");
    reveal_strlit("PROVISIONED");
    reveal_strlit("RETIRED");
    assert("ASSEMBLED"@.len() == 9);
    assert("PROGRAMMED"@.len() == 10);
    assert("TESTED"@.len() == 6);
    assert("READY_FOR_DEPLOYMENT"@.len() == 20);
    assert("PROVISIONED"@.len() == 11);
    assert("RETIRED"@.len() == 7);
}

/// The inventory lifecycle is a single forward chain: every allowed
/// transition advances exactly one stage, no status may be re-entered,
/// `Retired` is final, and every other status has exactly one successor.
pub proof fn lemma_inventory_lifecycle_is_a_chain(from: InventoryStatus, to: InventoryStatus)
    ensures
        inventory_successor(from) == Some(to) ==> inventory_stage(to) == inventory_stage(from) + 1,
        inventory_successor(from) != Some(from),
        inventory_successor(from) is None <==> from == InventoryStatus::Retired,
        0 <= inventory_stage(from) <= 5,
        inventory_stage(from) == inventory_stage(to) ==> from == to,
{
}

/// Why a requested inventory status change is refused.
#[derive(Debug, PartialEq, Eq)]
pub enum InventoryTransitionError {
    /// The stored status text is not a known inventory status.
    UnknownCurrentStatus(String),
    /// The requested status text is not a known inventory status.
    UnknownRequestedStatus(String),
    /// The lifecycle does not allow moving between the two statuses.
    InvalidTransition { from: InventoryStatus, to: InventoryStatus },
}

/// Text of an inventory transition refusal.
pub open spec fn inventory_transition_message(error: InventoryTransitionError) -> Seq<char> {
    match error {
        InventoryTransitionError::UnknownCurrentStatus(text) => "Unknown current inventory status: "@
            + text@,
        InventoryTransitionError::UnknownRequestedStatus(text) => "Unknown requested inventory status: "@
            + text@,
        InventoryTransitionError::InvalidTransition { from, to } => "Invalid inventory lifecycle transition from "@
            + inventory_status_name(from) + " to "@ + inventory_status_name(to) + "."@,
    }
}

impl InventoryTransitionError {
    pub fn message(&self) -> (text: String)
        ensures
            text@ == inventory_transition_message(*self),
    {
        match self {
            InventoryTransitionError::UnknownCurrentStatus(current) => {
                let mut text = "Unknown current inventory status: ".to_owned();
                text.append(current.as_str());
                text
            },
            InventoryTransitionError::UnknownRequestedStatus(requested) => {
                let mut text = "Unknown requested inventory status: ".to_owned();
                text.append(requested.as_str());
                text
            },
            InventoryTransitionError::InvalidTransition { from, to } => {
                let mut text = "Invalid inventory lifecycle transition from ".to_owned();
                text.append(from.as_str());
                text.append(" to ");
                text.append(to.as_str());
                text.append(".");
                text
            },
        }
    }
}

/// Result of asking to move a device whose stored status text is
/// `current` to the status text `requested`.
pub open spec fn inventory_transition(current: String, requested: String) -> Result<
    InventoryStatus,
    InventoryTransitionError,
> {
    match parse_inventory_status(current@) {
        None => Err(InventoryTransitionError::UnknownCurrentStatus(current)),
        Some(from) => match parse_inventory_status(requested@) {
            None => Err(InventoryTransitionError::UnknownRequestedStatus(requested)),
            Some(to) => if inventory_successor(from) == Some(to) {
                Ok(to)
            } else {
                Err(InventoryTransitionError::InvalidTransition { from, to })
            },
        },
    }
}

/// Validates an inventory status change given as stored and requested
/// text, returning the new status when the lifecycle allows it.
pub fn check_inventory_transition(current: String, requested: String) -> (result: Result<
    InventoryStatus,
    InventoryTransitionError,
>)
    ensures
        result == inventory_transition(current, requested),
{
    let from = match InventoryStatus::from_str(current.as_str()) {
        Some(status) => status,
        None => {
            return Err(InventoryTransitionError::UnknownCurrentStatus(current));
        },
    };
    let to = match InventoryStatus::from_str(requested.as_str()) {
        Some(status) => status,
        None => {
            return Err(InventoryTransitionError::UnknownRequestedStatus(requested));
        },
    };
    if from.can_transition_to(to) {
        Ok(to)
    } else {
        Err(InventoryTransitionError::InvalidTransition { from, to })
    }
}

/// A status change is accepted exactly for the five forward steps
/// ASSEMBLED -> PROGRAMMED -> TESTED -> READY_FOR_DEPLOYMENT -> PROVISIONED
/// -> RETIRED: it then yields the requested status; any other pair of known
/// statuses (staying put, skipping ahead or moving back) is refused as an
/// invalid transition naming both statuses.
pub proof fn lemma_only_forward_steps_are_accepted(
    current: String,
    requested: String,
    from: InventoryStatus,
    to: InventoryStatus,
)
    requires
        parse_inventory_status(current@) == Some(from),
        parse_inventory_status(requested@) == Some(to),
    ensures
        inventory_transition(current, requested) is Ok <==> (
        (from == InventoryStatus::Assembled && to == InventoryStatus::Programmed)
            || (from == InventoryStatus::Programmed && to == InventoryStatus::Tested)
            || (from == InventoryStatus::Tested && to == InventoryStatus::ReadyForDeployment)
            || (from == InventoryStatus::ReadyForDeployment && to == InventoryStatus::Provisioned)
            || (from == InventoryStatus::Provisioned && to == InventoryStatus::Retired)),
        inventory_transition(current, requested) is Ok ==> inventory_transition(current, requested)
            == Ok::<InventoryStatus, InventoryTransitionError>(to),
        inventory_transition(current, requested) is Err ==> inventory_transition(
            current,
            requested,
        ) == Err::<InventoryStatus, InventoryTransitionError>(
            InventoryTransitionError::InvalidTransition { from, to },
        ),
{
}

/// An accepted change never moves a device backwards or leaves it where it
/// is, and unknown status texts are reported as such.
pub proof fn lemma_accepted_changes_move_forward(current: String, requested: String)
    ensures
        inventory_transition(current, requested) matches Ok(to) ==> (
        parse_inventory_status(current@) matches Some(from) && to != from && (to
            == InventoryStatus::Retired ==> from == InventoryStatus::Provisioned)
            && from != InventoryStatus::Retired),
        parse_inventory_status(current@) is None ==> inventory_transition(current, requested)
            == Err::<InventoryStatus, InventoryTransitionError>(
            InventoryTransitionError::UnknownCurrentStatus(current),
        ),
        parse_inventory_status(current@) is Some && parse_inventory_status(requested@) is None
            ==> inventory_transition(current, requested) == Err::<
            InventoryStatus,
            InventoryTransitionError,
        >(InventoryTransitionError::UnknownRequestedStatus(requested)),
{
}

/// The lifecycle allows exactly the five forward one-stage moves, so no
/// status may be left for an earlier one or for itself.
pub proof fn lemma_allowed_moves_are_the_forward_steps(from: InventoryStatus, to: InventoryStatus)
    ensures
        inventory_successor(from) == Some(to) <==> (
        (from == InventoryStatus::Assembled && to == InventoryStatus::Programmed)
            || (from == InventoryStatus::Programmed && to == InventoryStatus::Tested)
            || (from == InventoryStatus::Tested && to == InventoryStatus::ReadyForDeployment)
            || (from == InventoryStatus::ReadyForDeployment && to == InventoryStatus::Provisioned)
            || (from == InventoryStatus::Provisioned && to == InventoryStatus::Retired)),
        inventory_successor(from) == Some(to) ==> inventory_successor(to) != Some(from),
{
}

} // verus!
