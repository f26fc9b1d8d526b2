//! Relays multicast DNS traffic between network interfaces that share no
//! broadcast domain: the subnet test, the interface registry with its relay
//! decision, and the all-or-nothing acquisition of the sockets at startup.

pub mod address;
pub mod registry;
pub mod startup;
