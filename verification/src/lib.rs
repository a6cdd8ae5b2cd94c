//! Which TCP and UDP ports of a host are bound in listening state, and which
//! are free, read from a snapshot of the host's socket-state tool.
//!
//! The library does not run the tool. Its caller does, and hands over what
//! came of the run as a `Capture`; every query is a function of that
//! capture alone.

pub mod decode;
pub mod grammar;
pub mod laws;
pub mod lemmas;
pub mod listing;
pub mod query;
pub mod range;
pub mod scan;
pub mod tcp;
pub mod udp;

pub use query::{free_ports, ports_in_text, used_ports, Capture, Mode, QueryError};
pub use range::{PortRange, Protocol};
pub use tcp::{
    privileged_tcp_free, privileged_tcp_used, unprivileged_tcp_free, unprivileged_tcp_used,
};
pub use udp::{
    privileged_udp_free, privileged_udp_used, unprivileged_udp_free, unprivileged_udp_used,
};
