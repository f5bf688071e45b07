//! The process table: the handle of every instance that is believed to run.

use crate::map_id::{lemma_id_sets_are_small, MapId, MAP_COUNT};
use crate::model::{count_explained, count_step, liveness_explained, liveness_step, reap};
use crate::outcome::State;
use crate::process::{handle_keys, handle_poll, handles_insert, handles_remove, handles_with_capacity};
use dashmap::DashMap;
use subprocess::{ExitStatus, Popen};
use vstd::prelude::*;

verus! {

/// The handles of the running instances, each under the position of its
/// instance in the fixed order.
///
/// A handle that is dropped while its process runs waits for the process
/// to end. The table itself drops a handle only after a poll has found the
/// process ended; a handle that it hands out is the caller's to keep.
pub struct ProcessTable {
    handles: DashMap<usize, Popen>,
}

impl View for ProcessTable {
    type V = Set<MapId>;

    /// The instances that the table holds a handle for.
    closed spec fn view(&self) -> Set<MapId> {
        Set::new(|id: MapId| handle_keys(self.handles).contains(id.position() as usize))
    }
}

/// The instances of `held` that stand before position `end` of the fixed
/// order.
spec fn held_before(held: Set<MapId>, end: int) -> Set<MapId> {
    held.filter(|id: MapId| id.position() < end)
}

impl ProcessTable {
    /// Every key is the position of an instance: the table holds handles of
    /// known instances only.
    pub closed spec fn wf(&self) -> bool {
        forall|key: usize| handle_keys(self.handles).contains(key) ==> key < MAP_COUNT
    }

    /// A table that holds no handle.
    pub fn new() -> (table: ProcessTable)
        ensures
            table.wf(),
            table@ == Set::<MapId>::empty(),
    {
        let table = ProcessTable { handles: handles_with_capacity(MAP_COUNT) };
        table
    }

    /// Installs the handle of an instance. The handle that the instance had
    /// before, if any, is displaced and handed back.
    pub fn insert(&mut self, id: MapId, handle: Popen) -> (displaced: Option<Popen>)
        requires
            old(self).wf(),
        ensures
            final(self).wf(),
            final(self)@ == old(self)@.insert(id),
            displaced is Some <==> old(self)@.contains(id),
    {
        handles_insert(&mut self.handles, id.ordinal(), handle)
    }

    /// Takes the handle of an instance out of the table, without a signal to
    /// its process, and hands it back.
    pub fn remove(&mut self, id: MapId) -> (taken: Option<Popen>)
        requires
            old(self).wf(),
        ensures
            final(self).wf(),
            final(self)@ == old(self)@.remove(id),
            taken is Some <==> old(self)@.contains(id),
    {
        match handles_remove(&mut self.handles, id.ordinal()) {
            Some((_, handle)) => Some(handle),
            None => None,
        }
    }

    /// What becomes of a handle that was just polled: it is kept if the poll
    /// found the process running, and dropped if the poll brought an exit
    /// status.
    pub fn still_running(handle: Popen, status: Option<ExitStatus>) -> (running: Option<Popen>)
        ensures
            status is None ==> running == Some(handle),
            status is Some ==> running is None,
    {
        match status {
            None => Some(handle),
            Some(_) => None,
        }
    }

    /// Settles an instance whose handle was taken out of the table and
    /// polled: the handle goes back into the table and the instance runs
    /// if the poll found the process running; the handle is dropped and the
    /// instance is stopped if the poll brought an exit status.
    pub fn settle(&mut self, id: MapId, handle: Popen, status: Option<ExitStatus>) -> (state: State)
        requires
            old(self).wf(),
            !old(self)@.contains(id),
        ensures
            final(self).wf(),
            (final(self)@, state) == liveness_step(old(self)@.insert(id), id, status is Some),
    {
        match ProcessTable::still_running(handle, status) {
            Some(running) => {
                let displaced = self.insert(id, running);
                assert(displaced is None);
                State::Running
            },
            None => {
                assert(old(self)@.insert(id).remove(id) =~= old(self)@);
                State::Stopped
            },
        }
    }

    /// Polls the handle of an instance and takes it out of the table. The
    /// handle is handed back if the process still runs, and dropped if it
    /// has ended.
    pub fn take_running(&mut self, id: MapId) -> (running: Option<Popen>)
        requires
            old(self).wf(),
        ensures
            final(self).wf(),
            final(self)@ == old(self)@.remove(id),
            running is Some ==> old(self)@.contains(id),
    {
        match self.remove(id) {
            None => None,
            Some(mut handle) => {
                let status = handle_poll(&mut handle);
                ProcessTable::still_running(handle, status)
            },
        }
    }

    /// Whether an instance runs. An instance without a handle is stopped.
    /// The handle of one that has a handle is polled, and the answer
    /// settles it: a handle whose process has ended is dropped from the
    /// table.
    pub fn liveness(&mut self, id: MapId) -> (state: State)
        requires
            old(self).wf(),
        ensures
            final(self).wf(),
            liveness_explained(old(self)@, id, final(self)@, state),
            !old(self)@.contains(id) ==> state == State::Stopped && final(self)@ == old(self)@,
    {
        match self.remove(id) {
            None => {
                assert(self@ =~= old(self)@);
                assert(liveness_step(old(self)@, id, true) == (self@, State::Stopped));
                State::Stopped
            },
            Some(mut handle) => {
                let status = handle_poll(&mut handle);
                assert(self@.insert(id) =~= old(self)@);
                let state = self.settle(id, handle, status);
                assert(liveness_step(old(self)@, id, status is Some) == (self@, state));
                state
            },
        }
    }

    /// How many instances run. Every handle is polled, and those whose
    /// process has ended are dropped from the table.
    pub fn running_count(&mut self) -> (count: usize)
        requires
            old(self).wf(),
        ensures
            final(self).wf(),
            count_explained(old(self)@, final(self)@, count as nat),
            count <= MAP_COUNT,
    {
        let mut count: usize = 0;
        let mut i: usize = 0;
        proof {
            assert(held_before(self@, 0) =~= Set::<MapId>::empty());
        }
        while i < MAP_COUNT
            invariant
                self.wf(),
                i <= MAP_COUNT,
                self@.subset_of(old(self)@),
                count == held_before(self@, i as int).len(),
                count <= i,
            decreases MAP_COUNT - i,
        {
            let id = match MapId::from_ordinal(i) {
                Some(id) => id,
                None => vstd::pervasive::unreached(),
            };
            let ghost before = self@;
            let state = self.liveness(id);
            proof {
                lemma_id_sets_are_small(held_before(before, i as int));
                match state {
                    State::Running => {
                        assert(held_before(self@, i + 1) =~= held_before(before, i as int).insert(id));
                    },
                    State::Stopped => {
                        assert(held_before(self@, i + 1) =~= held_before(before, i as int));
                    },
                }
            }
            if state == State::Running {
                count += 1;
            }
            i += 1;
        }
        proof {
            assert(held_before(self@, MAP_COUNT as int) =~= self@);
            let exited = old(self)@.difference(self@);
            assert(count_step(old(self)@, exited) == (self@, count as nat));
        }
        count
    }
}

} // verus!
