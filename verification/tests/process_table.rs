use ark_supervisor::{MapId, ProcessTable, State};
use subprocess::{Exec, ExitStatus, Popen};

fn sleeper() -> Popen {
    Exec::cmd("/bin/sleep").arg("20").popen().expect("sleep starts")
}

/// The handle of a process that has ended and was not polled since.
fn finished() -> Popen {
    let handle = Exec::cmd("/bin/sleep").arg("0").popen().expect("sleep starts");
    let pause = Exec::cmd("/bin/sleep").arg("0.5").join().expect("sleep runs");
    assert!(pause.success());
    assert!(handle.exit_status().is_none());
    handle
}

fn end(mut handle: Popen) {
    handle.terminate().expect("the signal is sent");
    handle.wait().expect("the process ends");
}

#[test]
fn a_new_table_holds_nothing() {
    let mut table = ProcessTable::new();
    assert_eq!(table.running_count(), 0);
    assert_eq!(table.liveness(MapId::Aberration), State::Stopped);
    assert_eq!(table.liveness(MapId::GenesisPart2), State::Stopped);
    assert!(table.remove(MapId::Ragnarok).is_none());
    assert!(table.take_running(MapId::Ragnarok).is_none());
}

#[test]
fn an_inserted_handle_makes_the_instance_run() {
    let mut table = ProcessTable::new();
    assert!(table.insert(MapId::Ragnarok, sleeper()).is_none());
    assert_eq!(table.liveness(MapId::Ragnarok), State::Running);
    assert_eq!(table.liveness(MapId::Extinction), State::Stopped);
    assert_eq!(table.running_count(), 1);
    end(table.remove(MapId::Ragnarok).expect("the handle is held"));
}

#[test]
fn a_removed_handle_leaves_the_instance_stopped() {
    let mut table = ProcessTable::new();
    assert!(table.insert(MapId::TheIsland, sleeper()).is_none());
    let handle = table.remove(MapId::TheIsland).expect("the handle is held");
    assert_eq!(table.liveness(MapId::TheIsland), State::Stopped);
    assert_eq!(table.running_count(), 0);
    assert!(table.remove(MapId::TheIsland).is_none());
    end(handle);
}

#[test]
fn a_second_insert_displaces_the_first_handle() {
    let mut table = ProcessTable::new();
    assert!(table.insert(MapId::Valguero, sleeper()).is_none());
    let first = table.insert(MapId::Valguero, sleeper()).expect("the first handle is displaced");
    assert_eq!(table.running_count(), 1);
    end(first);
    assert_eq!(table.liveness(MapId::Valguero), State::Running);
    end(table.remove(MapId::Valguero).expect("the second handle is held"));
}

#[test]
fn the_count_covers_every_held_instance() {
    let mut table = ProcessTable::new();
    assert!(table.insert(MapId::Aberration, sleeper()).is_none());
    assert!(table.insert(MapId::TheCenter, sleeper()).is_none());
    assert!(table.insert(MapId::GenesisPart2, sleeper()).is_none());
    assert_eq!(table.running_count(), 3);
    end(table.remove(MapId::TheCenter).expect("the handle is held"));
    assert_eq!(table.running_count(), 2);
    end(table.remove(MapId::Aberration).expect("the handle is held"));
    end(table.remove(MapId::GenesisPart2).expect("the handle is held"));
    assert_eq!(table.running_count(), 0);
}

#[test]
fn a_liveness_check_drops_the_handle_of_an_ended_process() {
    let mut table = ProcessTable::new();
    assert!(table.insert(MapId::Extinction, finished()).is_none());
    assert_eq!(table.liveness(MapId::Extinction), State::Stopped);
    assert!(table.remove(MapId::Extinction).is_none());
}

#[test]
fn the_count_drops_the_handles_of_ended_processes() {
    let mut table = ProcessTable::new();
    assert!(table.insert(MapId::Extinction, finished()).is_none());
    assert!(table.insert(MapId::CrystalIsles, sleeper()).is_none());
    assert_eq!(table.running_count(), 1);
    assert!(table.remove(MapId::Extinction).is_none());
    end(table.remove(MapId::CrystalIsles).expect("the handle is held"));
}

#[test]
fn take_running_hands_out_the_handle_of_a_running_process() {
    let mut table = ProcessTable::new();
    assert!(table.insert(MapId::ScorchedEarth, sleeper()).is_none());
    let handle = table.take_running(MapId::ScorchedEarth).expect("the process runs");
    assert_eq!(table.liveness(MapId::ScorchedEarth), State::Stopped);
    end(handle);
}

#[test]
fn take_running_drops_the_handle_of_an_ended_process() {
    let mut table = ProcessTable::new();
    assert!(table.insert(MapId::GenesisPart1, finished()).is_none());
    assert!(table.take_running(MapId::GenesisPart1).is_none());
    assert!(table.remove(MapId::GenesisPart1).is_none());
}

#[test]
fn still_running_keeps_the_handle_when_the_poll_brought_no_status() {
    let kept = ProcessTable::still_running(sleeper(), None).expect("the handle is kept");
    assert!(kept.exit_status().is_none());
    end(kept);
}

#[test]
fn still_running_drops_the_handle_when_the_poll_brought_a_status() {
    assert!(ProcessTable::still_running(finished(), Some(ExitStatus::Exited(0))).is_none());
    assert!(ProcessTable::still_running(finished(), Some(ExitStatus::Signaled(15))).is_none());
    assert!(ProcessTable::still_running(finished(), Some(ExitStatus::Undetermined)).is_none());
}

#[test]
fn settle_puts_the_handle_of_a_running_process_back() {
    let mut table = ProcessTable::new();
    assert_eq!(table.settle(MapId::TheCenter, sleeper(), None), State::Running);
    assert_eq!(table.running_count(), 1);
    assert_eq!(table.liveness(MapId::TheCenter), State::Running);
    end(table.remove(MapId::TheCenter).expect("the handle is held"));
}

#[test]
fn settle_drops_the_handle_of_an_ended_process() {
    let mut table = ProcessTable::new();
    assert_eq!(table.settle(MapId::TheCenter, finished(), Some(ExitStatus::Exited(0))), State::Stopped);
    assert!(table.remove(MapId::TheCenter).is_none());
    assert_eq!(table.running_count(), 0);
}
