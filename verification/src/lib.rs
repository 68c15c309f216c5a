//! Verified core of a small exchange backend: the order model, the rules that
//! map errors to replies, the order-execution protocol, and the decision logic of
//! the market price store, the market client and the audit pipeline.
//!
//! The services around it (HTTP, PostgreSQL, Redis) perform the effects that the
//! machines here ask for and feed back what happened.

pub mod outside;
pub mod text;
pub mod models;
pub mod errors;
pub mod events;
pub mod order;
pub mod order_laws;
pub mod market;
pub mod price;
pub mod audit;
pub mod forwarder;
pub mod audit_trail;
