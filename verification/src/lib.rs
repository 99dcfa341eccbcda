//! Core of the taskman process manager: the domain model, the engine that
//! routes requests to a platform backend, the platform decision logic and the
//! rules by which the Python-facing layer reports results.

pub mod text;
pub mod domain;
pub mod engine;
pub mod windows;
pub mod linux;
pub mod process_order;
pub mod bridge;
pub mod laws;
