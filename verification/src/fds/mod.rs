//! Famicom Disk System support.
pub mod ips;
pub mod laws;
