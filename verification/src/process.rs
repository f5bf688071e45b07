//! The outside world: the concurrent map that holds the process handles, and
//! the calls that create, poll and signal a child process.
//!
//! Nothing in this file is proved. Each item states what the outside code
//! does, and the rest of the crate is verified against these statements.

use crate::registry::LaunchSpec;
use dashmap::DashMap;
use subprocess::{Exec, ExitStatus, Popen, PopenError};
use vstd::prelude::*;

verus! {

/// `dashmap::DashMap`, a hash map behind sharded locks.
#[verifier::external_type_specification]
#[verifier::external_body]
#[verifier::reject_recursive_types(K)]
#[verifier::reject_recursive_types(V)]
#[verifier::reject_recursive_types(S)]
pub struct ExDashMap<K, V, S>(DashMap<K, V, S>);

/// `subprocess::Popen`, the parent's handle on one child process.
#[verifier::external_type_specification]
#[verifier::external_body]
pub struct ExPopen(Popen);

/// `subprocess::ExitStatus`, how a child process ended.
#[verifier::external_type_specification]
#[verifier::external_body]
pub struct ExExitStatus(ExitStatus);

/// `subprocess::PopenError`, why a child process could not be created.
#[verifier::external_type_specification]
#[verifier::external_body]
pub struct ExPopenError(PopenError);

/// `std::io::Error`, why a signal could not be delivered.
#[verifier::external_type_specification]
#[verifier::external_body]
pub struct ExIoError(std::io::Error);

/// The keys under which a handle map holds an entry.
pub uninterp spec fn handle_keys(handles: DashMap<usize, Popen>) -> Set<usize>;

/// `DashMap::with_capacity`: a map without entries. The capacity is a hint
/// for the first allocation; it is kept small so that rounding it up to the
/// number of shards cannot overflow.
#[verifier::external_body]
pub(crate) fn handles_with_capacity(capacity: usize) -> (handles: DashMap<usize, Popen>)
    requires
        capacity <= 4096,
    ensures
        handle_keys(handles) == Set::<usize>::empty(),
{
    DashMap::with_capacity(capacity)
}

/// `DashMap::insert`: afterwards the key holds the new handle. The handle
/// that the key held before, if any, is handed back.
#[verifier::external_body]
pub(crate) fn handles_insert(handles: &mut DashMap<usize, Popen>, key: usize, handle: Popen) -> (previous: Option<Popen>)
    ensures
        handle_keys(*final(handles)) == handle_keys(*old(handles)).insert(key),
        previous is Some <==> handle_keys(*old(handles)).contains(key),
{
    handles.insert(key, handle)
}

/// `DashMap::remove`: afterwards the key holds nothing. The entry that it
/// held before, if any, is handed back, key and handle.
#[verifier::external_body]
pub(crate) fn handles_remove(handles: &mut DashMap<usize, Popen>, key: usize) -> (taken: Option<(usize, Popen)>)
    ensures
        handle_keys(*final(handles)) == handle_keys(*old(handles)).remove(key),
        taken is Some <==> handle_keys(*old(handles)).contains(key),
        taken matches Some(entry) ==> entry.0 == key,
{
    handles.remove(&key)
}

/// `Popen::poll`: asks the operating system, without blocking, whether the
/// child has exited. `None` while it runs, the exit status once it has
/// ended. What comes back is the operating system's answer: nothing is
/// claimed of it.
#[verifier::external_body]
pub(crate) fn handle_poll(handle: &mut Popen) -> (status: Option<ExitStatus>)
{
    handle.poll()
}

/// `Popen::terminate`: asks the child to end (SIGTERM on Unix) and does not
/// wait for it. Whether the signal could be sent is the operating system's
/// answer: nothing is claimed of it.
#[verifier::external_body]
pub(crate) fn handle_terminate(handle: &mut Popen) -> (sent: Result<(), std::io::Error>)
{
    handle.terminate()
}

/// `Exec::popen`, on a command built with `Exec::cmd`, `Exec::args` and
/// `Exec::cwd` from the three parts of the launch specification: asks the
/// operating system for a child process that runs the executable with the
/// arguments in the working directory, and does not wait for it. Whether
/// the process was created is the operating system's answer: nothing is
/// claimed of it.
#[verifier::external_body]
pub(crate) fn launch(spec: &LaunchSpec) -> (started: Result<Popen, PopenError>)
{
    Exec::cmd(&spec.executable).args(&spec.args).cwd(&spec.working_dir).popen()
}

/// `Display` of `subprocess::PopenError`, through `format!`: the text of the
/// error that kept a process from being created. The text is the operating
/// system's, or the outside crate's own for a misuse: nothing is claimed of
/// it.
#[verifier::external_body]
pub(crate) fn spawn_error_text(error: &PopenError) -> (text: String)
{
    format!("{}", error)
}

/// `Display` of `std::io::Error`, through `format!`: the text of the error
/// that kept a signal from being sent. The text is the operating system's:
/// nothing is claimed of it.
#[verifier::external_body]
pub(crate) fn signal_error_text(error: &std::io::Error) -> (text: String)
{
    format!("{}", error)
}

} // verus!
