//! An oracle data-distribution protocol between a broker, which caches and
//! republishes data per topic, and subscribers, which consume that data behind
//! their own trust policy.
//!
//! Every operation works on an explicit state value and is all-or-nothing: it
//! either takes effect completely or fails and leaves the state as it was.

pub mod access;
pub mod auth;
pub mod broker;
pub mod bytes;
pub mod cache;
pub mod envelope;
pub mod error;
pub mod exchange;
pub mod laws;
pub mod store;
pub mod subscriber;
