//! Supervision of one local child process that serves HTTP: port choice,
//! launch planning, readiness polling, log forwarding and teardown.
//!
//! The library decides and performs no I/O of its own. Whoever uses it
//! binds, spawns, probes, pauses and kills, and reports what came of each;
//! every decision in between is taken here, against contracts over
//! mathematical models of the state.
//!
//! - [`session`] runs a start from the first probe to the result.
//! - [`supervisor`] keeps the process handle and the snapshot, and stops.
//! - [`port`], [`launch`], [`readiness`], [`process`], [`registry`] and
//!   [`relay`] are the parts that a start is made of.
//! - [`announce`] reads where a child that picked its own port listens.
//! - [`scripts`] and [`files`] hold the command lines and names of the
//!   helper tasks around the service.
//! - [`probe`], [`error`] and [`text`] are shared by the rest.

pub mod announce;
pub mod error;
pub mod files;
pub mod launch;
pub mod port;
pub mod probe;
pub mod process;
pub mod readiness;
pub mod registry;
pub mod relay;
pub mod scripts;
pub mod session;
pub mod supervisor;
pub mod text;
