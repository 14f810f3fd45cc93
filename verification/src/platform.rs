//! Platform configuration: the connection information and the settings file.
pub mod connection_info;
pub mod config;
pub mod tasks;
pub mod boot;
