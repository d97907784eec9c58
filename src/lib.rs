//! Command-line front end of the flockd device agent: turns the process's
//! argument list into a validated configuration, a display request, or a
//! classified error.

pub mod cli;
pub mod log_level;
pub mod text;
pub mod laws;
