//! Verified core of the SimAdmin backend: configuration state, system
//! information parsing and network address handling.

pub mod text;
pub mod config;
pub mod sysinfo;
pub mod cpu;
pub mod net;
pub mod disk;
pub mod ifaces;
