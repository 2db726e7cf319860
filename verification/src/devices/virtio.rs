pub mod block;
pub mod config;
pub mod descriptor;
pub mod device;
pub mod features;
pub mod mmio;
pub mod net;
pub mod queue;
pub mod transport;
