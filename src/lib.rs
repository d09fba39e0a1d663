//! Scheduling core of a network node built around a W5500 TCP/IP offload chip.
//!
//! The node serves a DHCP client and a TCP echo service over one shared chip.
//! This library holds the decisions of that node: which activity an interrupt
//! or a timer tick starts, the spawn-once guard of each activity, the lease
//! renewal deadline, the echo payload, and the chip bring-up decisions. The
//! surrounding firmware performs the register accesses and hands the results in.
use vstd::prelude::*;

pub mod bringup;
pub mod clock;
pub mod echo;
pub mod scheduler;
pub mod socket;
pub mod spawn;
