//! The extension traits in one place, for a glob import.

pub use crate::driving::BlockOn;
pub use crate::piping::Inspect;
pub use crate::piping::Lay;
pub use crate::piping::Pipe;
