use vstd::prelude::*;

verus! {

/// Kind of a recorded geofence transition.
#[derive(Debug, Clone, Copy, PartialEq, Eq, Structural)]
pub enum GeofenceTransitionType {
    EnteredZone,
    ExitedZone,
}

impl GeofenceTransitionType {
    pub fn as_str(self) -> (text: &'static str)
        ensures
            text@ == match self {
                GeofenceTransitionType::EnteredZone => "ENTERED_ZONE"@,
                GeofenceTransitionType::ExitedZone => "EXITED_ZONE"@,
            },
    {
        match self {
            GeofenceTransitionType::EnteredZone => "ENTERED_ZONE",
            GeofenceTransitionType::ExitedZone => "EXITED_ZONE",
        }
    }
}

/// Geofences entered and exited between two consecutive positions, each
/// identified by the 128-bit value of its UUID.
#[derive(Debug)]
pub struct GeofenceTransitions {
    /// Geofences containing the current position but not the previous one,
    /// in the order of the current matches.
    pub entered: Vec<u128>,
    /// Geofences containing the previous position but not the current one,
    /// in the order of the previous matches.
    pub exited: Vec<u128>,
}

/// The ids of `from` that do not occur in `other`, in order.
pub open spec fn ids_not_in(from: Seq<u128>, other: Seq<u128>) -> Seq<u128> {
    from.filter(|id: u128| !other.contains(id))
}

fn contains_id(ids: &Vec<u128>, id: u128) -> (found: bool)
    ensures
        found == ids@.contains(id),
{
    let mut index: usize = 0;
    while index < ids.len()
        invariant
            index <= ids@.len(),
            forall|j: int| 0 <= j < index ==> ids@[j] != id,
        decreases ids@.len() - index,
    {
        if ids[index] == id {
            return true;
        }
        index = index + 1;
    }
    false
}

fn ids_missing_from(from: &Vec<u128>, other: &Vec<u128>) -> (missing: Vec<u128>)
    ensures
        missing@ == ids_not_in(from@, other@),
{
    let ghost keep = |id: u128| !other@.contains(id);
    let mut missing: Vec<u128> = Vec::new();
    let mut index: usize = 0;
    while index < from.len()
        invariant
            index <= from@.len(),
            keep == (|id: u128| !other@.contains(id)),
            missing@ == from@.take(index as int).filter(keep),
        decreases from@.len() - index,
    {
        reveal_with_fuel(Seq::<_>::filter, 1);
        let id = from[index];
        if !contains_id(other, id) {
            missing.push(id);
        }
        assert(from@.take(index + 1).drop_last() =~= from@.take(index as int));
        index = index + 1;
    }
    assert(from@.take(from@.len() as int) =~= from@);
    missing
}

/// Compares the geofences that matched the previous and the current
/// position of a device and reports which were entered and which exited.
pub fn geofence_transitions(previous: &Vec<u128>, current: &Vec<u128>) -> (transitions:
    GeofenceTransitions)
    ensures
        transitions.entered@ == ids_not_in(current@, previous@),
        transitions.exited@ == ids_not_in(previous@, current@),
{
    let entered = ids_missing_from(current, previous);
    let exited = ids_missing_from(previous, current);
    GeofenceTransitions { entered, exited }
}

/// Every id kept by `ids_not_in` comes from the first list.
proof fn lemma_kept_ids_come_from_source(from: Seq<u128>, other: Seq<u128>, id: u128)
    requires
        ids_not_in(from, other).contains(id),
    ensures
        from.contains(id),
    decreases from.len(),
{
    reveal_with_fuel(Seq::<_>::filter, 1);
    let keep = |g: u128| !other.contains(g);
    if from.len() > 0 {
        let rest = from.drop_last();
        if rest.filter(keep).contains(id) {
            lemma_kept_ids_come_from_source(rest, other, id);
            let i = choose|i: int| 0 <= i < rest.len() && rest[i] == id;
            assert(from[i] == id);
        } else {
            assert(from.filter(keep) =~= rest.filter(keep) || from.filter(keep) =~= rest.filter(
                keep,
            ).push(from.last()));
            assert(from[from.len() - 1] == id);
        }
    }
}

/// A geofence containing both positions produces no transition, every
/// entered geofence contains only the current position, every exited one
/// only the previous position, and no geofence is both entered and exited.
pub proof fn lemma_transitions_partition_changes(previous: Seq<u128>, current: Seq<u128>, id: u128)
    ensures
        ids_not_in(current, previous).contains(id) <==> (current.contains(id) && !previous.contains(id)),
        ids_not_in(previous, current).contains(id) <==> (previous.contains(id) && !current.contains(id)),
        !(ids_not_in(current, previous).contains(id) && ids_not_in(previous, current).contains(id)),
{
    broadcast use vstd::seq_lib::group_filter_ensures;
    let keep_entered = |g: u128| !previous.contains(g);
    let keep_exited = |g: u128| !current.contains(g);
    if ids_not_in(current, previous).contains(id) {
        lemma_kept_ids_come_from_source(current, previous, id);
        let k = choose|k: int| 0 <= k < ids_not_in(current, previous).len() && ids_not_in(current, previous)[k] == id;
        assert(keep_entered(ids_not_in(current, previous)[k]));
    }
    if ids_not_in(previous, current).contains(id) {
        lemma_kept_ids_come_from_source(previous, current, id);
        let k = choose|k: int| 0 <= k < ids_not_in(previous, current).len() && ids_not_in(previous, current)[k] == id;
        assert(keep_exited(ids_not_in(previous, current)[k]));
    }
    if current.contains(id) && !previous.contains(id) {
        let i = choose|i: int| 0 <= i < current.len() && current[i] == id;
        assert(keep_entered(current[i]));
    }
    if previous.contains(id) && !current.contains(id) {
        let i = choose|i: int| 0 <= i < previous.len() && previous[i] == id;
        assert(keep_exited(previous[i]));
    }
}

} // verus!
