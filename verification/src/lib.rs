//! Editor keyboard and command-loop logic, verified.
//!
//! The host editor's display engine, window geometry and keyboard dispatch
//! live outside this crate; what stands here is the logic layered on top of
//! them: recognising a Lucid-style event type list, turning the display
//! engine's answers into pixel positions, and the decisions that enter and
//! leave a recursive editing level.

pub mod command_loop;
pub mod event;
pub mod lisp;
pub mod posn;
