//! A small cross-platform layer over operating-system facilities: platform
//! detection, shell command planning, per-application directories and window
//! presentation properties.
//!
//! The layer decides; its caller performs. Starting a process, opening a
//! target with the system handler and driving a windowing toolkit happen
//! outside; what they answer comes back as plain values, and the functions
//! here say what follows from each answer.

pub mod text;
pub mod platform;
pub mod registry;
pub mod commands;
pub mod laws;
