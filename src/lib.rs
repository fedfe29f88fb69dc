//! Resolution of the markdown-oxide language-server binary: platform naming,
//! release-asset matching, and the decision machine that drives probing,
//! downloading and cleanup through an outside host.

pub mod platform;
pub mod release;
pub mod error;
pub mod resolver;
pub mod command;
pub mod guarantees;
