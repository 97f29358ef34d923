//! Verified core of a command-line companion for Crazyflie drones: the
//! daemon/client protocol, request handling, value formatting and parsing,
//! session socket naming, bootloader packets and the TOC cache layout.
use vstd::prelude::*;

pub mod text;
pub mod value;
pub mod protocol;
pub mod handler;
pub mod cli;
pub mod output;
pub mod session;
pub mod bootloader;
pub mod toc_cache;

verus! {

} // verus!
