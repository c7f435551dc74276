//! Records about the host: system counters, accelerator devices, battery
//! and network.

pub mod cpu;
pub mod gpu;
pub mod network;
pub mod power;
