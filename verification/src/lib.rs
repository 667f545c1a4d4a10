//! A session manager for programs that run on a pseudo-terminal.
//!
//! The crate holds the rules of such a manager: the order in which a
//! pseudo-terminal is allocated (`pty`), what the worker process does before
//! it becomes the target program (`launcher`), how the two pumps of a bridge
//! react to what they read and receive (`bridge`), how the outcome of a wait
//! is read (`monitor`), and what the registry of sessions accepts
//! (`registry`, with `session` and `status`). What holds of every run of a
//! registry is proved in `history`.
//!
//! The crate performs no system call and reads no clock. Each component
//! answers an event with the next action, and the program around the crate
//! performs that action and reports what came of it.

pub mod error;
pub mod status;
pub mod pty;
pub mod launcher;
pub mod monitor;
pub mod session;
pub mod bridge;
pub mod registry;
pub mod history;
