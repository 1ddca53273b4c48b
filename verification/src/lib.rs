//! A policy-enforcement engine that inspects every outgoing transaction of a
//! protected agent, scores it against configurable risk rules, and suspends
//! further activity through a circuit breaker once too many anomalies pile up.
//!
//! The crate is organised leaf-first: [`address`] holds the plain account
//! identifier, [`config`] the per-agent protection configuration, [`policy`]
//! the pure transaction classifier, [`shield`] the circuit-breaker state
//! machine and its administrative operations, [`store`] the keyed collection
//! of protection records, and [`laws`] the proofs of the properties that tie
//! the pieces together.

pub mod address;
pub mod config;
pub mod events;
pub mod laws;
pub mod policy;
pub mod shield;
pub mod store;
