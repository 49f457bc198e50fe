//! Verified core of an embedded HTTP server that a host application can
//! start, stop, and query: the lifecycle state machine, the routing rules,
//! the status/URL reporting, and the network-address fallback.
#![allow(unused_imports)]
use vstd::prelude::*;

pub mod errors;
pub mod info;
pub mod manager;
pub mod net;
pub mod router;
pub mod text;
pub mod urls;
