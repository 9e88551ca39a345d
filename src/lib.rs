pub mod access_point;
pub mod config;
pub mod network;
pub mod probe;
pub mod profile;
pub mod service;
