//! The decisions behind a desktop window that hosts a Flutter engine.
//!
//! A window produces events, an engine consumes pointer events, metrics and
//! messages, and plugins consume text edits and key reports. This crate is the
//! logic between them: it takes an event, with the readings of the window that
//! the event calls for, and returns the actions to perform, in order. It talks
//! to no window and no engine itself.
//!
//! Coordinates and scale factors are carried as IEEE 754 bit patterns and whole
//! numbers; whoever performs an action does the floating-point arithmetic that
//! the action spells out.

pub mod engines;
pub mod input;
pub mod laws;
pub mod pointer;
pub mod runtime;
pub mod text;
pub mod window;
