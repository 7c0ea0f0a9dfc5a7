//! The concurrent execution engine: the message bus and the roles wired
//! over it.

pub mod clock;
pub mod controller;
pub mod itc;
pub mod handler;
pub mod runner;
