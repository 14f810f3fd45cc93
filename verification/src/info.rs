//! Information published by the platform device: the structure of each
//! device and the status of each device.
pub mod structure;
pub mod devices;
