//! A verified model of a desktop application shell whose only job is to
//! close a transient splashscreen window on request from the front end.
//!
//! The host GUI framework owns the real windows and the event loop; this
//! library states and proves the shell's own policy: how the one registered
//! command treats a present, absent, or unclosable splashscreen, and when
//! startup may enter the event loop at all.

pub mod command;
pub mod model;
pub mod startup;
