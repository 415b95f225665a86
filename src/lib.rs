//! Launch applications and pin their windows to a chosen monitor.
//!
//! The library holds the decisions: which monitor rectangle a profile
//! targets, how the display layout is shifted to make a monitor primary and
//! put back afterwards, which window of a process is the real one, and the
//! steps that move a window onto its monitor and keep it there. The calls into
//! the operating system are made by the caller, which hands back what it saw.

pub mod geometry;
pub mod models;
pub mod monitor;
pub mod window;
pub mod placement;
pub mod text;
pub mod launch;
pub mod app;
pub mod icon;
