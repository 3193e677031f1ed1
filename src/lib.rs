//! Settlement engine for a flash-loan-funded round trip across two trading
//! venues: route selection, the profit guard, and the run's state machine.

pub mod accounting;
pub mod error;
pub mod pair;
pub mod route;
pub mod orchestrator;
