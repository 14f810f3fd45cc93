//! Interfaces: their state machine, their shared state and their logger.
pub mod fsm;
pub mod logger;
pub mod interface;
pub mod builder;
