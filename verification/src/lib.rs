//! Verified core of a test-report viewer: the bridge between an interactive
//! render loop and a background worker that fetches reports and test steps
//! from a storage service over HTTP.
//!
//! The library models the whole bridge as plain data: the request/response
//! protocol, the controller state that the render loop owns, the worker's
//! state machine, and a single-threaded session that composes them through
//! two FIFO queues. Transport and JSON decoding are performed by the caller,
//! which hands their outcomes to the verified logic as values.

pub mod cache;
pub mod cli;
pub mod controller;
pub mod data;
pub mod protocol;
pub mod session;
pub mod text;
pub mod worker;
