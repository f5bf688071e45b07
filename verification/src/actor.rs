//! The supervisor: the one place where the commands are carried out, one at
//! a time.

use crate::map_id::{id_at, lemma_id_sets_are_small, MapId, MAP_COUNT};
use crate::model::{
    count_explained, count_step, reap, report_of, start_explained, start_step, state_in,
    status_explained, status_step, stop_explained, stop_step,
};
use crate::outcome::{StartError, State, StopError};
use crate::process::{handle_terminate, launch, signal_error_text, spawn_error_text};
use crate::registry::{registry_of, ConfigError, LaunchSpec, LaunchSpecView, Registry};
use crate::settings::Settings;
use crate::table::ProcessTable;
use subprocess::{Popen, PopenError};
use vstd::prelude::*;

verus! {

/// The supervisor of the fixed set of instances.
///
/// It owns the launch specification of every instance and the handle of
/// every instance that it has started and not yet found to have ended.
/// Commands take the supervisor by `&mut`, so no two of them overlap.
pub struct ProcessActor {
    registry: Registry,
    table: ProcessTable,
    cap: usize,
}

impl ProcessActor {
    /// The instances that the supervisor holds a handle for.
    pub closed spec fn held(&self) -> Set<MapId> {
        self.table@
    }

    /// How many instances may run at once.
    pub closed spec fn cap(&self) -> nat {
        self.cap as nat
    }

    /// The launch specification of every instance.
    pub closed spec fn specs(&self) -> Map<MapId, LaunchSpecView> {
        self.registry@
    }

    /// The registry and the table are in order, and no more instances are
    /// held than may run at once.
    pub closed spec fn wf(&self) -> bool {
        &&& self.registry.wf()
        &&& self.table.wf()
        &&& self.table@.len() <= self.cap
    }

    /// At every point between two commands the supervisor holds finitely
    /// many instances, and no more than may run at once.
    pub proof fn law_held_instances_fit_the_cap(&self)
        requires
            self.wf(),
        ensures
            self.held().finite(),
            self.held().len() <= self.cap(),
            self.held().len() <= MAP_COUNT,
    {
        lemma_id_sets_are_small(self.table@);
    }

    /// A supervisor for a configuration that has the arguments of every
    /// instance. It holds no handle yet.
    pub fn new(settings: &Settings) -> (actor: ProcessActor)
        requires
            settings.wf(),
            settings@.complete(),
        ensures
            actor.wf(),
            actor.held() == Set::<MapId>::empty(),
            actor.cap() == settings@.max_running,
            actor.specs() == registry_of(settings@),
    {
        ProcessActor {
            registry: Registry::from_complete(settings),
            table: ProcessTable::new(),
            cap: settings.max_running(),
        }
    }

    /// A supervisor for a configuration, or the first instance of the fixed
    /// order whose arguments the configuration lacks.
    pub fn try_new(settings: &Settings) -> (made: Result<ProcessActor, ConfigError>)
        requires
            settings.wf(),
        ensures
            made is Ok <==> settings@.complete(),
            made matches Ok(actor) ==> {
                &&& actor.wf()
                &&& actor.held() == Set::<MapId>::empty()
                &&& actor.cap() == settings@.max_running
                &&& actor.specs() == registry_of(settings@)
            },
            made matches Err(ConfigError::MissingMap(id)) ==> settings@.first_missing_is(id),
    {
        match settings.first_missing() {
            Some(id) => Err(ConfigError::MissingMap(id)),
            None => Ok(ProcessActor::new(settings)),
        }
    }

    /// How many instances run: never more than may run at once. Every
    /// handle is polled, and those whose process has ended are dropped.
    pub fn running_count(&mut self) -> (count: usize)
        requires
            old(self).wf(),
        ensures
            final(self).wf(),
            final(self).cap() == old(self).cap(),
            final(self).specs() == old(self).specs(),
            count_explained(old(self).held(), final(self).held(), count as nat),
            count <= final(self).cap(),
    {
        let count = self.table.running_count();
        proof {
            let exited = choose|exited: Set<MapId>| count_step(old(self).table@, exited) == (self.table@, count as nat);
            lemma_id_sets_are_small(old(self).table@);
            vstd::set_lib::lemma_len_difference(old(self).table@, exited);
        }
        count
    }

    /// The state of every instance, in the fixed order. Every handle is
    /// polled, and those whose process has ended are dropped.
    pub fn status(&mut self) -> (report: Vec<(MapId, State)>)
        requires
            old(self).wf(),
        ensures
            final(self).wf(),
            final(self).cap() == old(self).cap(),
            final(self).specs() == old(self).specs(),
            status_explained(old(self).held(), final(self).held(), report@),
    {
        let mut report: Vec<(MapId, State)> = Vec::new();
        let mut i: usize = 0;
        while i < MAP_COUNT
            invariant
                self.wf(),
                self.cap == old(self).cap,
                self.registry == old(self).registry,
                i <= MAP_COUNT,
                self.table@.subset_of(old(self).table@),
                report@.len() == i,
                forall|k: int| 0 <= k < i ==> report@[k] == (id_at(k), state_in(self.table@, id_at(k))),
            decreases MAP_COUNT - i,
        {
            let id = match MapId::from_ordinal(i) {
                Some(id) => id,
                None => vstd::pervasive::unreached(),
            };
            let ghost before = self.table@;
            let state = self.table.liveness(id);
            proof {
                lemma_id_sets_are_small(before);
            }
            report.push((id, state));
            i += 1;
        }
        proof {
            let exited = old(self).table@.difference(self.table@);
            assert(status_step(old(self).held(), exited) == (self.held(), report@));
        }
        report
    }

    /// The launch specification that a start of `id` hands to the
    /// operating system.
    pub fn launch_spec(&self, id: MapId) -> (spec: &LaunchSpec)
        requires
            self.wf(),
        ensures
            self.specs().contains_key(id),
            spec@ == self.specs()[id],
    {
        self.registry.spec_for(id)
    }

    /// Ends a start with what the operating system answered when it was
    /// asked for the process: a handle is installed for the instance, or
    /// the start has failed to spawn, with the operating system's account
    /// of why, and nothing is installed.
    pub fn finish_start(&mut self, id: MapId, started: Result<Popen, PopenError>) -> (outcome: Result<(), StartError>)
        requires
            old(self).wf(),
            !old(self).held().contains(id),
            old(self).held().len() < old(self).cap(),
        ensures
            final(self).wf(),
            final(self).cap() == old(self).cap(),
            final(self).specs() == old(self).specs(),
            started is Ok ==> outcome == Ok::<(), StartError>(()),
            started is Ok ==> final(self).held() == old(self).held().insert(id),
            started is Err ==> (outcome matches Err(StartError::SpawnFailed(_))),
            started is Err ==> final(self).held() == old(self).held(),
    {
        proof {
            lemma_id_sets_are_small(old(self).table@);
        }
        match started {
            Ok(handle) => {
                let displaced = self.table.insert(id, handle);
                assert(displaced is None);
                Ok(())
            },
            Err(error) => Err(StartError::SpawnFailed(spawn_error_text(&error))),
        }
    }

    /// Ends a stop with what the operating system answered when it was
    /// asked to deliver the termination signal. The handle goes back into
    /// the table either way: the stop has succeeded, or it has failed to
    /// signal, with the operating system's account of why.
    pub fn finish_stop(&mut self, id: MapId, handle: Popen, sent: Result<(), std::io::Error>) -> (outcome: Result<
        (),
        StopError,
    >)
        requires
            old(self).wf(),
            !old(self).held().contains(id),
            old(self).held().len() < old(self).cap(),
        ensures
            final(self).wf(),
            final(self).cap() == old(self).cap(),
            final(self).specs() == old(self).specs(),
            final(self).held() == old(self).held().insert(id),
            sent is Ok ==> outcome == Ok::<(), StopError>(()),
            sent is Err ==> (outcome matches Err(StopError::SignalFailed(_))),
    {
        proof {
            lemma_id_sets_are_small(old(self).table@);
        }
        let displaced = self.table.insert(id, handle);
        assert(displaced is None);
        match sent {
            Ok(()) => Ok(()),
            Err(error) => Err(StopError::SignalFailed(signal_error_text(&error))),
        }
    }

    /// Starts an instance, unless as many instances run as may run at once,
    /// or the instance runs already, or the operating system does not
    /// create the process.
    ///
    /// Every handle is polled first, so the cap is held against the
    /// instances that run now. The cap is inclusive: with a cap of two, a
    /// second instance is started and a third is refused. At the cap the
    /// refusal is for capacity also where the instance runs already.
    pub fn start(&mut self, id: MapId) -> (outcome: Result<(), StartError>)
        requires
            old(self).wf(),
        ensures
            final(self).wf(),
            final(self).cap() == old(self).cap(),
            final(self).specs() == old(self).specs(),
            start_explained(old(self).held(), old(self).cap(), id, final(self).held(), outcome),
            outcome is Ok ==> final(self).held().contains(id),
    {
        let running = self.running_count();
        let ghost counted = self.table@;
        let ghost exited = choose|exited: Set<MapId>| count_step(old(self).table@, exited) == (counted, running as nat);
        if running >= self.cap {
            assert(start_step(old(self).held(), old(self).cap(), id, exited, Ok(())) == (
                self.held(),
                Err::<(), StartError>(StartError::CapacityExceeded),
            ));
            return Err(StartError::CapacityExceeded);
        }
        match self.table.liveness(id) {
            State::Running => {
                assert(start_step(old(self).held(), old(self).cap(), id, exited, Ok(())) == (
                    self.held(),
                    Err::<(), StartError>(StartError::AlreadyRunning),
                ));
                Err(StartError::AlreadyRunning)
            },
            State::Stopped => {
                let ghost live = self.table@;
                proof {
                    lemma_id_sets_are_small(counted);
                    assert(reap(old(self).held(), exited.insert(id)) =~= live);
                }
                let started = launch(self.launch_spec(id));
                let outcome = self.finish_start(id, started);
                let ghost answer = outcome;
                proof {
                    match answer {
                        Err(StartError::SpawnFailed(why)) => {
                            assert(start_step(old(self).held(), old(self).cap(), id, exited.insert(id), Err(why)) == (
                                self.held(),
                                outcome,
                            ));
                        },
                        Ok(()) => {
                            assert(start_step(old(self).held(), old(self).cap(), id, exited.insert(id), Ok(())) == (
                                self.held(),
                                outcome,
                            ));
                        },
                        Err(_) => {},
                    }
                }
                outcome
            },
        }
    }

    /// Asks the process of an instance to end, unless the instance has no
    /// live process, or the signal cannot be delivered.
    ///
    /// The process is not waited for: the instance stays held, and counts
    /// as running, until a later poll finds that the process has ended.
    /// The request is never followed up by a forced kill: a process that
    /// ignores it keeps running until it is stopped by other means.
    pub fn stop(&mut self, id: MapId) -> (outcome: Result<(), StopError>)
        requires
            old(self).wf(),
        ensures
            final(self).wf(),
            final(self).cap() == old(self).cap(),
            final(self).specs() == old(self).specs(),
            stop_explained(old(self).held(), id, final(self).held(), outcome),
            !old(self).held().contains(id) ==> outcome == Err::<(), StopError>(StopError::AlreadyStopped),
    {
        proof {
            lemma_id_sets_are_small(old(self).table@);
        }
        match self.table.take_running(id) {
            None => {
                assert(stop_step(old(self).held(), id, true, Ok(())) == (
                    self.held(),
                    Err::<(), StopError>(StopError::AlreadyStopped),
                ));
                Err(StopError::AlreadyStopped)
            },
            Some(mut handle) => {
                let sent = handle_terminate(&mut handle);
                let outcome = self.finish_stop(id, handle, sent);
                let ghost answer = outcome;
                proof {
                    assert(self.table@ =~= old(self).table@);
                    match answer {
                        Err(StopError::SignalFailed(why)) => {
                            assert(stop_step(old(self).held(), id, false, Err(why)) == (self.held(), outcome));
                        },
                        Ok(()) => {
                            assert(stop_step(old(self).held(), id, false, Ok(())) == (self.held(), outcome));
                        },
                        Err(_) => {},
                    }
                }
                outcome
            },
        }
    }
}

} // verus!
