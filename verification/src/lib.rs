//! The run / frame-publish / control core of a script-driven editor shell.
//!
//! A user script runs on a background thread inside an embedded interpreter and
//! renders frames. The pieces here coordinate that run with the UI thread:
//!
//! * [`frame`]: the pixel buffer a step renders and the slot that holds the
//!   newest one;
//! * [`queue`]: the first-in, first-out queue of instructions that other threads
//!   post for execution inside the interpreter;
//! * [`session`]: the protocol of one run, as a state machine that the session
//!   thread drives;
//! * [`control`]: starting and stopping a run from the UI;
//! * [`viewport`]: what the viewport panel shows on each repaint.
//!
//! Beside that core stand the plain data of the editor around it: the open
//! [`project`] with its tree of files, and the [`tabs`] of the dock areas.
//!
//! Everything is sequential code over plain values. Sharing between threads is
//! the caller's business: it wraps the slot and the queue in a lock of its own and
//! calls in with the lock held.

pub mod control;
pub mod frame;
pub mod project;
pub mod queue;
pub mod session;
pub mod tabs;
pub mod viewport;
