//! A client library for a job orchestrator's HTTP API: the decisions behind
//! listing, dispatching and stopping jobs, resolving a dispatch's allocation
//! and tailing its task logs. Requests themselves are sent by the caller,
//! which hands each reply back to the library and does what it decides.

pub mod error;
pub mod retry;
pub mod rest;
pub mod allocation;
pub mod helper;
pub mod stream;
pub mod tail;
pub mod job;
pub mod stop;
pub mod cli;
