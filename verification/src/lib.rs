//! Runtime function-interception registry for per-entity behavior functions.
//!
//! Extensions register replacement implementations for particular entity
//! kinds, together with optional capture cells that receive the pristine
//! original function, and reset callbacks that fire on every entity
//! reset. The registry resolves each entity's first initialization to a
//! single implementation (the last matching registration wins), installs it
//! in the entity's own dispatch slot, and broadcasts resets in registration
//! order. Two independent entity families keep separate registries.

pub mod laws;
pub mod process;
pub mod registry;
