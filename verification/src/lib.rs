//! Client-side core of an experiment-tracking service client.
//!
//! The crate models the pieces of the client whose behaviour is worth pinning
//! down precisely: building the exact HTTP requests of the tracking protocol,
//! classifying response bodies, the retry policy for transient failures, the
//! repository-cleanliness guard with its diff-capture protocol, and the
//! execution harness that drives a run to its terminal state.  Anything that
//! actually touches the network, the process table or signal handlers lives in
//! the surrounding (unverified) application layer, which hands plain values in
//! and out of this crate.

pub mod client;
pub mod errors;
pub mod experiment;
pub mod guard;
pub mod harness;
pub mod json;
pub mod logger;
pub mod request;
pub mod retry;
pub mod run;
pub mod text;
