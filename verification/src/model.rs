//! The commands as steps on the set of held instances.
//!
//! An instance is held while the supervisor has a process handle for it. Whether
//! a held process has exited, whether a process could be created and
//! whether a signal could be sent are answers of the operating system. Each
//! step function takes those answers as arguments and gives the set of
//! held instances after the command together with what the command
//! reports. The supervisor's commands promise that some answers explain what
//! they did; the laws at the end of this file hold for every answer.

use crate::map_id::{id_at, lemma_id_sets_are_small, MapId, MAP_COUNT};
use crate::outcome::{StartError, State, StopError};
use vstd::prelude::*;

verus! {

/// The state of `id` when `held` are the instances with a live process.
pub open spec fn state_in(held: Set<MapId>, id: MapId) -> State {
    if held.contains(id) {
        State::Running
    } else {
        State::Stopped
    }
}

/// The state of every instance, in the fixed order.
pub open spec fn report_of(held: Set<MapId>) -> Seq<(MapId, State)> {
    Seq::new(MAP_COUNT as nat, |i: int| (id_at(i), state_in(held, id_at(i))))
}

/// The held instances that are left when the processes of `exited` are
/// found to have ended: their handles are dropped.
pub open spec fn reap(held: Set<MapId>, exited: Set<MapId>) -> Set<MapId> {
    held.difference(exited)
}

/// A liveness check of `id`. `exited` says whether the poll of its handle,
/// if it has one, reports that the process has ended.
pub open spec fn liveness_step(held: Set<MapId>, id: MapId, exited: bool) -> (Set<MapId>, State) {
    if held.contains(id) && !exited {
        (held, State::Running)
    } else {
        (held.remove(id), State::Stopped)
    }
}

/// A count of the running instances. `exited` are the instances whose
/// process is found to have ended.
pub open spec fn count_step(held: Set<MapId>, exited: Set<MapId>) -> (Set<MapId>, nat) {
    (reap(held, exited), reap(held, exited).len())
}

/// A status query. `exited` are the instances whose process is found to
/// have ended.
pub open spec fn status_step(held: Set<MapId>, exited: Set<MapId>) -> (Set<MapId>, Seq<(MapId, State)>) {
    (reap(held, exited), report_of(reap(held, exited)))
}

/// A start of `id` under the cap `cap`. `exited` are the instances whose
/// process is found to have ended, `spawned` is what the operating system
/// answers when it is asked for the process: done, or the text of why not.
///
/// The cap is checked first, against the instances that still run; then
/// whether `id` runs already; only then is a process asked for.
pub open spec fn start_step(
    held: Set<MapId>,
    cap: nat,
    id: MapId,
    exited: Set<MapId>,
    spawned: Result<(), String>,
) -> (Set<MapId>, Result<(), StartError>) {
    let live = reap(held, exited);
    if live.len() >= cap {
        (live, Err(StartError::CapacityExceeded))
    } else if live.contains(id) {
        (live, Err(StartError::AlreadyRunning))
    } else {
        match spawned {
            Ok(()) => (live.insert(id), Ok(())),
            Err(why) => (live, Err(StartError::SpawnFailed(why))),
        }
    }
}

/// A stop of `id`. `exited` says whether the poll of its handle, if it has
/// one, reports that the process has ended; `delivered` is what the
/// operating system answers when it is asked to deliver the termination
/// signal: done, or the text of why not.
///
/// A successful stop leaves the instance held: the process ends in its
/// own time, and a later poll finds that it has.
pub open spec fn stop_step(held: Set<MapId>, id: MapId, exited: bool, delivered: Result<(), String>) -> (
    Set<MapId>,
    Result<(), StopError>,
) {
    if !held.contains(id) || exited {
        (held.remove(id), Err(StopError::AlreadyStopped))
    } else {
        match delivered {
            Ok(()) => (held, Ok(())),
            Err(why) => (held, Err(StopError::SignalFailed(why))),
        }
    }
}

/// Some answer of the operating system explains this liveness check.
pub open spec fn liveness_explained(before: Set<MapId>, id: MapId, after: Set<MapId>, state: State) -> bool {
    exists|exited: bool| #[trigger] liveness_step(before, id, exited) == (after, state)
}

/// Some answers of the operating system explain this count.
pub open spec fn count_explained(before: Set<MapId>, after: Set<MapId>, count: nat) -> bool {
    exists|exited: Set<MapId>| #[trigger] count_step(before, exited) == (after, count)
}

/// Some answers of the operating system explain this status query.
pub open spec fn status_explained(before: Set<MapId>, after: Set<MapId>, report: Seq<(MapId, State)>) -> bool {
    exists|exited: Set<MapId>| #[trigger] status_step(before, exited) == (after, report)
}

/// Some answers of the operating system explain this start.
pub open spec fn start_explained(
    before: Set<MapId>,
    cap: nat,
    id: MapId,
    after: Set<MapId>,
    outcome: Result<(), StartError>,
) -> bool {
    exists|exited: Set<MapId>, spawned: Result<(), String>| #[trigger]
        start_step(before, cap, id, exited, spawned) == (after, outcome)
}

/// Some answers of the operating system explain this stop.
pub open spec fn stop_explained(before: Set<MapId>, id: MapId, after: Set<MapId>, outcome: Result<(), StopError>) -> bool {
    exists|exited: bool, delivered: Result<(), String>| #[trigger]
        stop_step(before, id, exited, delivered) == (after, outcome)
}

/// Right after a successful start, and before the new process has ended, a
/// status query and a liveness check report the instance as running.
pub proof fn law_started_instance_reports_running(
    held: Set<MapId>,
    cap: nat,
    id: MapId,
    exited: Set<MapId>,
    spawned: Result<(), String>,
    exited_later: Set<MapId>,
)
    requires
        start_step(held, cap, id, exited, spawned).1 is Ok,
        !exited_later.contains(id),
    ensures
        ({
            let started = start_step(held, cap, id, exited, spawned).0;
            &&& status_step(started, exited_later).1[id.position() as int] == (id, State::Running)
            &&& liveness_step(started, id, false).1 == State::Running
        }),
{
}

/// A second start of an instance that was just started, with no process
/// ending in between and with room under the cap, is refused because the
/// instance runs already, and changes nothing.
pub proof fn law_second_start_is_refused(
    held: Set<MapId>,
    cap: nat,
    id: MapId,
    exited: Set<MapId>,
    spawned: Result<(), String>,
    exited_later: Set<MapId>,
    spawned_later: Result<(), String>,
)
    requires
        start_step(held, cap, id, exited, spawned).1 is Ok,
        start_step(held, cap, id, exited, spawned).0.disjoint(exited_later),
        start_step(held, cap, id, exited, spawned).0.len() < cap,
    ensures
        ({
            let started = start_step(held, cap, id, exited, spawned).0;
            start_step(started, cap, id, exited_later, spawned_later) == (
                started,
                Err::<(), StartError>(StartError::AlreadyRunning),
            )
        }),
{
    let started = start_step(held, cap, id, exited, spawned).0;
    assert(reap(started, exited_later) =~= started);
}

/// A second start of an instance that was just started, with no process
/// ending in between, is refused for capacity where the first start has
/// used up the cap.
pub proof fn law_second_start_at_the_cap(
    held: Set<MapId>,
    cap: nat,
    id: MapId,
    exited: Set<MapId>,
    spawned: Result<(), String>,
    exited_later: Set<MapId>,
    spawned_later: Result<(), String>,
)
    requires
        start_step(held, cap, id, exited, spawned).1 is Ok,
        start_step(held, cap, id, exited, spawned).0.disjoint(exited_later),
        start_step(held, cap, id, exited, spawned).0.len() >= cap,
    ensures
        ({
            let started = start_step(held, cap, id, exited, spawned).0;
            start_step(started, cap, id, exited_later, spawned_later) == (
                started,
                Err::<(), StartError>(StartError::CapacityExceeded),
            )
        }),
{
    let started = start_step(held, cap, id, exited, spawned).0;
    assert(reap(started, exited_later) =~= started);
}

/// A stop of an instance that is not held is refused because the
/// instance is stopped already, whatever the operating system answers, and
/// changes nothing.
pub proof fn law_stop_without_handle_is_refused(held: Set<MapId>, id: MapId, exited: bool, delivered: Result<(), String>)
    requires
        !held.contains(id),
    ensures
        stop_step(held, id, exited, delivered) == (held, Err::<(), StopError>(StopError::AlreadyStopped)),
{
}

/// An instance comes to be held only by its own successful start: no other
/// command, and no start of another instance, adds it.
pub proof fn law_only_a_successful_start_adds(
    held: Set<MapId>,
    cap: nat,
    id: MapId,
    other: MapId,
    exited: Set<MapId>,
    one_exited: bool,
    spawned: Result<(), String>,
    delivered: Result<(), String>,
)
    requires
        !held.contains(id),
    ensures
        !liveness_step(held, other, one_exited).0.contains(id),
        !count_step(held, exited).0.contains(id),
        !status_step(held, exited).0.contains(id),
        !stop_step(held, other, one_exited, delivered).0.contains(id),
        start_step(held, cap, other, exited, spawned).0.contains(id) ==> other == id && start_step(
            held,
            cap,
            other,
            exited,
            spawned,
        ).1 is Ok,
{
}

/// No command leaves more instances held than the cap allows, if no more
/// were held before it; and no count of the running instances exceeds the
/// cap.
pub proof fn law_cap_is_kept(
    held: Set<MapId>,
    cap: nat,
    id: MapId,
    exited: Set<MapId>,
    one_exited: bool,
    spawned: Result<(), String>,
    delivered: Result<(), String>,
)
    requires
        held.len() <= cap,
    ensures
        liveness_step(held, id, one_exited).0.len() <= cap,
        count_step(held, exited).0.len() <= cap,
        count_step(held, exited).1 <= cap,
        status_step(held, exited).0.len() <= cap,
        start_step(held, cap, id, exited, spawned).0.len() <= cap,
        stop_step(held, id, one_exited, delivered).0.len() <= cap,
{
    lemma_id_sets_are_small(held);
    vstd::set_lib::lemma_len_difference(held, exited);
}

/// A start that finds as many running instances as the cap allows is
/// refused for capacity, also where the instance runs already, and starts
/// nothing.
pub proof fn law_start_at_the_cap_is_refused(
    held: Set<MapId>,
    cap: nat,
    id: MapId,
    exited: Set<MapId>,
    spawned: Result<(), String>,
)
    requires
        reap(held, exited).len() >= cap,
    ensures
        start_step(held, cap, id, exited, spawned) == (
            reap(held, exited),
            Err::<(), StartError>(StartError::CapacityExceeded),
        ),
{
}

/// After a successful stop the instance is still held. Once its process
/// has ended, the next liveness check and the next status query report it
/// as stopped and hold it no longer.
pub proof fn law_stopped_instance_is_reaped(
    held: Set<MapId>,
    id: MapId,
    delivered: Result<(), String>,
    exited_later: Set<MapId>,
)
    requires
        stop_step(held, id, false, delivered).1 is Ok,
        exited_later.contains(id),
    ensures
        ({
            let stopping = stop_step(held, id, false, delivered).0;
            &&& stopping == held
            &&& stopping.contains(id)
            &&& liveness_step(stopping, id, true) == (stopping.remove(id), State::Stopped)
            &&& status_step(stopping, exited_later).1[id.position() as int] == (id, State::Stopped)
            &&& !status_step(stopping, exited_later).0.contains(id)
        }),
{
}

/// A status query that follows another, with no start or stop and no
/// process ending in between, reports the same and changes nothing.
pub proof fn law_status_is_idempotent(held: Set<MapId>, exited: Set<MapId>, exited_later: Set<MapId>)
    requires
        status_step(held, exited).0.disjoint(exited_later),
    ensures
        status_step(status_step(held, exited).0, exited_later) == status_step(held, exited),
{
}

/// Reaping is idempotent: once a poll has found a process ended and its
/// handle is dropped, the instance is reported as stopped whatever a later
/// poll would say, and dropping the same handles again changes nothing.
pub proof fn law_reaping_is_idempotent(held: Set<MapId>, id: MapId, exited: Set<MapId>, later: bool)
    ensures
        ({
            let reaped = liveness_step(held, id, true).0;
            liveness_step(reaped, id, later) == (reaped, State::Stopped)
        }),
        reap(reap(held, exited), exited) == reap(held, exited),
{
}

/// A status report lists every instance once, at its position in the fixed
/// order, and tells as running exactly the held ones.
pub proof fn law_report_is_complete(held: Set<MapId>, id: MapId)
    ensures
        report_of(held).len() == MAP_COUNT,
        id.position() < MAP_COUNT,
        report_of(held)[id.position() as int] == (id, state_in(held, id)),
{
}

/// What a liveness check that some answer explains has done: an instance
/// is reported as running only if it was held, and then nothing changes; an
/// instance reported as stopped is held no longer, and nothing else changes.
pub proof fn law_liveness_explained_means(before: Set<MapId>, id: MapId, after: Set<MapId>, state: State)
    requires
        liveness_explained(before, id, after, state),
    ensures
        state == State::Running ==> before.contains(id) && after == before,
        state == State::Stopped ==> after == before.remove(id),
        state == state_in(after, id),
{
}

/// What a count that some answers explain has done: handles were dropped
/// and none added, and the count is the number of instances still held.
pub proof fn law_count_explained_means(before: Set<MapId>, after: Set<MapId>, count: nat)
    requires
        count_explained(before, after, count),
    ensures
        after.subset_of(before),
        count == after.len(),
{
}

/// What a status query that some answers explain has done: handles were
/// dropped and none added, and the report tells the state of every
/// instance by the handles still held.
pub proof fn law_status_explained_means(before: Set<MapId>, after: Set<MapId>, report: Seq<(MapId, State)>)
    requires
        status_explained(before, after, report),
    ensures
        after.subset_of(before),
        report == report_of(after),
{
}

/// What a start that some answers explain has done, outcome by outcome.
/// No handle but that of the started instance is ever added.
pub proof fn law_start_explained_means(
    before: Set<MapId>,
    cap: nat,
    id: MapId,
    after: Set<MapId>,
    outcome: Result<(), StartError>,
)
    requires
        start_explained(before, cap, id, after, outcome),
    ensures
        outcome is Ok ==> after.contains(id) && after.remove(id).subset_of(before) && after.len() <= cap,
        outcome == Err::<(), StartError>(StartError::CapacityExceeded) ==> after.subset_of(before)
            && after.len() >= cap,
        outcome == Err::<(), StartError>(StartError::AlreadyRunning) ==> after.subset_of(before)
            && after.contains(id) && after.len() < cap,
        (outcome matches Err(StartError::SpawnFailed(_))) ==> after.subset_of(before) && !after.contains(id)
            && after.len() < cap,
{
    let (exited, spawned) = choose|exited: Set<MapId>, spawned: Result<(), String>| #[trigger]
        start_step(before, cap, id, exited, spawned) == (after, outcome);
    lemma_id_sets_are_small(reap(before, exited));
}

/// What a stop that some answers explain has done, outcome by outcome.
pub proof fn law_stop_explained_means(before: Set<MapId>, id: MapId, after: Set<MapId>, outcome: Result<(), StopError>)
    requires
        stop_explained(before, id, after, outcome),
    ensures
        outcome is Ok ==> before.contains(id) && after == before,
        outcome == Err::<(), StopError>(StopError::AlreadyStopped) ==> after == before.remove(id),
        (outcome matches Err(StopError::SignalFailed(_))) ==> before.contains(id) && after == before,
        !before.contains(id) ==> outcome == Err::<(), StopError>(StopError::AlreadyStopped) && after == before,
{
}

} // verus!
