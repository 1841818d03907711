//! Lifecycle controller of a single workload: the default state graph, the
//! decision taken after each lifecycle hook, the driver that walks the graph,
//! and the status patch reported for each state.

pub mod driver;
pub mod patch;
pub mod phase;
pub mod state;

pub use driver::Driver;
pub use patch::{status_patch, StatusPatch};
pub use phase::Phase;
pub use state::{failure_report, step, Hook, PodState, Transition, BACKOFF_DELAY_SECS};
