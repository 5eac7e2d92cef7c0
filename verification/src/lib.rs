//! A minimal composable request-handling pipeline: a terminal handler wrapped
//! by zero or more middleware layers (request/response logging, per-call
//! timeout enforcement), executed under a cooperative, poll-driven model.
//!
//! Each layer's in-flight call is an explicit state-holding value with a
//! single `poll` operation that either reports "not yet done" or a final
//! result. Time enters as an explicit tick count supplied by the driver, and
//! log emissions leave as explicit records appended to a sink the driver
//! owns, so the whole composition mechanism is plain verified code.

pub mod handler;
pub mod hello_world;
pub mod logger;
pub mod message;
pub mod sink;
pub mod stack;
pub mod timeout;
