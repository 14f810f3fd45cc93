//! Verified core of the Panduza platform: the device structure tree, the
//! interface state machine, the bookkeeping of the platform information
//! device, the connection configuration and the small decisions that the
//! asynchronous runtime delegates to plain functions.

pub mod error;
pub mod text;
pub mod info;
pub mod interface;
pub mod logger;
pub mod registry;
pub mod json;
pub mod platform;
pub mod factory;
pub mod device;
pub mod reactor;
pub mod subscription;
pub mod meta;

pub use error::Error;
