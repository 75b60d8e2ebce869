//! Networking structures of the kernel.

pub mod udp_port_table;
