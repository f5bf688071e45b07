//! Supervisor for a fixed set of game-world server processes.
//!
//! The supervisor keeps one process handle per running instance, answers
//! status queries by polling those handles, and starts or stops an instance
//! on request while holding the number of running instances under a cap.
//!
//! - [`map_id`]: the fixed set of instances and their order.
//! - [`settings`]: what the deployment configures.
//! - [`registry`]: the launch specification of every instance.
//! - [`outcome`]: states, refusals, and the kind of answer that each gets.
//! - [`model`]: the commands as steps on the set of held instances, and
//!   the laws that those steps obey.
//! - [`process`]: the handle map and the process calls, stated and not
//!   proved.
//! - [`table`]: the process table.
//! - [`actor`]: the supervisor and its commands.

pub mod actor;
pub mod map_id;
pub mod model;
pub mod outcome;
pub mod process;
pub mod registry;
pub mod settings;
pub mod table;

pub use actor::ProcessActor;
pub use map_id::{MapId, MAP_COUNT};
pub use outcome::{Reply, StartError, State, StopError};
pub use registry::{ConfigError, LaunchSpec, Registry};
pub use settings::{MapSettings, Settings, DEFAULT_MAX_RUNNING};
pub use table::ProcessTable;
