//! Discovery, registry and link-layer isolation logic for IPv4 LAN devices.
//!
//! The crate builds and parses the raw Ethernet frames (ARP, ICMP echo,
//! TCP SYN) used to probe a subnet, keeps a registry of observed devices
//! with liveness and selection state, and computes the forged ARP replies
//! that isolate a flagged device and the corrective replies that restore
//! its true address mapping.

pub mod bytes;
pub mod codec;
pub mod models;
pub mod registry;
pub mod scanner;
pub mod spoof;
