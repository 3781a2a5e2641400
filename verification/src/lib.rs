//! A background agent managed as an OS service, together with the lifecycle
//! manager that installs, starts, stops and queries it.
//!
//! The crate verifies the platform-independent core: the agent's accept-loop
//! state machine (counter service and graceful shutdown), the wire codec for
//! the 8-byte counter payload, the service lifecycle state machine over a
//! model of the OS service registry, and the mapping of OS service-manager
//! failures into the crate's closed error taxonomy. The platform layer
//! (pipe transport, OS service host) sits outside the library and drives
//! these state machines.

pub mod agent;
pub mod cli;
pub mod service;
