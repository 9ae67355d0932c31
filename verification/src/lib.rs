//! Locates a command on the executable search path and, when it is missing,
//! works out the installation guidance to show in its place.

pub mod config;
pub mod guidance;
pub mod host;
pub mod invocation;
pub mod platform;
pub mod report;
pub mod resolver;
pub mod text;
