//! A link-layer relay between two network interfaces that forwards only
//! SSDP discovery traffic (UDP port 1900) and drops everything else.
//!
//! The library holds the decisions of the relay: how a captured frame is
//! classified, what a forwarding loop does on each event, how a transmit
//! outcome is reported, and how shutdown is coordinated. Capturing and
//! transmitting frames is left to the embedding program.

pub mod wire;
pub mod classify;
pub mod link;
pub mod forward;
pub mod shutdown;
