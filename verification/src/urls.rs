//! Verified construction of the URLs that status and start reports carry.
use vstd::prelude::*;
use vstd::string::*;

use crate::text::{decimal_string, spec_decimal};

verus! {

/// The URL reported for reaching the server from this machine.
pub open spec fn spec_local_url(port: nat) -> Seq<char> {
    "http://localhost:"@ + spec_decimal(port)
}

/// The URL reported for reaching the server from the LAN, given the
/// machine's resolved address.
pub open spec fn spec_network_url(ip: Seq<char>, port: nat) -> Seq<char> {
    "http://"@ + ip + ":"@ + spec_decimal(port)
}

/// Build `http://localhost:<port>`.
pub fn local_url(port: u16) -> (s: String)
    ensures
        s@ == spec_local_url(port as nat),
{
    let mut s = String::from_str("http://localhost:");
    let digits = decimal_string(port);
    s.append(digits.as_str());
    s
}

/// Build `http://<ip>:<port>`.
pub fn network_url(ip: &str, port: u16) -> (s: String)
    ensures
        s@ == spec_network_url(ip@, port as nat),
{
    let mut s = String::from_str("http://");
    s.append(ip);
    s.append(":");
    let digits = decimal_string(port);
    s.append(digits.as_str());
    s
}

} // verus!
