//! Decisions of a chat relay: which chat messages are forwarded to an HTTP endpoint, what is
//! sent for each, and what a start-up needs before any connection is opened.
//!
//! The crate holds no I/O. A caller reads the environment, receives chat events and sends the
//! requests that the functions here describe.

pub mod event;
pub mod json;
pub mod record;
pub mod watch;
pub mod forward;
pub mod startup;
