//! Verified core of VoidGuard, a local Windows security and
//! system-monitoring tool.
use vstd::prelude::*;

pub mod clock;
pub mod dns;
pub mod events;
pub mod files;
pub mod firewall;
pub mod ids;
pub mod laws;
pub mod models;
pub mod network;
pub mod ports;
pub mod retention;
pub mod risk;
pub mod scan;
pub mod score;
pub mod services;
pub mod split;
pub mod startup;
pub mod system;
pub mod text;

verus! {

} // verus!
