//! A verified boundary layer around a byte-pair-encoding tokenizer engine.
//!
//! The library binds one constructed engine to a host object's identity
//! (insert-once, look-up per call, remove-once), marshals call inputs into
//! the engine, and turns every failure into a single host-visible exception
//! message, never raising a second one while one is pending. The engine
//! itself is an outside collaborator reached through a few trusted calls.

pub mod bridge;
pub mod engine;
pub mod errors;
pub mod registry;
