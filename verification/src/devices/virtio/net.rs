pub mod backend;
pub mod config;
pub mod device;
pub mod gro;
pub mod header;
pub mod packet;
