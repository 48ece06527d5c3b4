//! Verified core of the supervictor IoT stack: the device's HTTP and DNS
//! codecs and portal responses, the endpoint's request handling, and the
//! CLI's configuration and pipeline decisions.
use vstd::prelude::*;

pub mod text;
pub mod pattern;
pub mod device;
pub mod cli;
pub mod endpoint;

verus! {

} // verus!
