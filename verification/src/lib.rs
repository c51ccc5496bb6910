//! Health probing of history archives: the per-target probe as a state
//! machine, the aggregation of probe outcomes into a report, and the capped
//! exponential backoff between checks.
//!
//! Nothing here performs I/O. A caller sends the requests that a probe asks
//! for and hands back what came of them.

pub mod backoff;
pub mod check;
pub mod duration;
pub mod probe;
pub mod report;
pub mod status;
pub mod text;

pub use backoff::{backoff_delay_secs, calculate_backoff};
pub use check::{collect_report, plan_check, CheckPlan, ClientSettings};
pub use probe::{HeadOutcome, Probe, ProbeOutcome, ProbeStage, ProbeStep};
pub use report::ArchiveHealthResult;
pub use status::HttpStatus;
