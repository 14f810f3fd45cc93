//! Meta interfaces: the commands that a bench power channel, a relay, a
//! meter or a register map accepts, and the state they publish.
pub mod command;
pub mod blc;
pub mod relay;
pub mod meter;
pub mod registers;
