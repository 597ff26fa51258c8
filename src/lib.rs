//! A minimal single-host container runtime: the lifecycle engine, the
//! isolation and attachment protocols as ordered plans, and an in-memory
//! record store that the program around the library persists.
pub mod container;
pub mod env;
pub mod error;
pub mod setup;
pub mod signal;
pub mod spec;
pub mod state;
pub mod store;
