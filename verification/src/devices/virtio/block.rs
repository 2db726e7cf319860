pub mod backend;
pub mod config;
pub mod device;
pub mod request;
