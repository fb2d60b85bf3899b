//! Ergonomic helpers: fluent value piping, a synchronous driver for
//! poll-based computations, and thin installers for the process-wide
//! error-report and tracing subscribers.

pub mod driving;
pub mod logging;
pub mod piping;
pub mod prelude;
pub mod reporting;

pub use driving::BlockOn;
pub use driving::Countdown;
pub use driving::PollStatus;
pub use logging::Error;
pub use logging::FmtLayer;
pub use logging::Level;
pub use logging::fmt_layer;
pub use logging::init_fmt_env;
pub use piping::Inspect;
pub use piping::Lay;
pub use piping::Pipe;
pub use reporting::R;
pub use reporting::U;
pub use reporting::init;
