//! Skeletal-input side channel: a host process obtains hand-skeleton action
//! data from a dedicated child process, because the underlying XR runtime
//! allows only one instance per process.
//!
//! This crate holds the verified core of that subsystem: the message
//! protocol and its byte encoding, the host connector's request/reply state
//! machine, the child's readiness and serving state machine, and the
//! descriptors for the skeletal actions. The unverified shell around it
//! performs the actual process spawning, channel transport, and runtime
//! calls, and drives these state machines with the outcomes.

pub mod actions;
pub mod child;
pub mod codec;
pub mod connector;
pub mod messages;
pub mod protocol;
