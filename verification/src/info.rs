//! The status report handed back to the host: running flag, port, and the
//! two URLs under which the server can be reached.
use vstd::prelude::*;

use crate::urls::{local_url, network_url, spec_local_url, spec_network_url};

verus! {

/// The port that status queries report, independent of what a start
/// request asked for.
pub const STATUS_PORT: u16 = 8080;

/// What the host sees of the server: recomputed on each query, never
/// stored.
pub struct ServerInfo {
    pub running: bool,
    pub port: u16,
    pub local_url: String,
    pub network_url: String,
}

/// A `ServerInfo` whose URLs are correctly formed for `port` and the
/// resolved address `ip`.
pub open spec fn spec_info_for(info: ServerInfo, running: bool, port: u16, ip: Seq<char>) -> bool {
    &&& info.running == running
    &&& info.port == port
    &&& info.local_url@ == spec_local_url(port as nat)
    &&& info.network_url@ == spec_network_url(ip, port as nat)
}

/// A `ServerInfo` that is well-formed for `running` and `port` under some
/// non-empty resolved address: what a caller learns when the address
/// itself was resolved afresh inside the operation.
pub open spec fn spec_info_for_some_ip(info: ServerInfo, running: bool, port: u16) -> bool {
    exists|ip: Seq<char>| ip.len() > 0 && spec_info_for(info, running, port, ip)
}

/// Exhibit a witness address for `spec_info_for_some_ip`.
pub proof fn lemma_info_for_some_ip(info: ServerInfo, running: bool, port: u16, ip: Seq<char>)
    requires
        ip.len() > 0,
        spec_info_for(info, running, port, ip),
    ensures
        spec_info_for_some_ip(info, running, port),
{
}

/// Assemble the report for a given running flag, port, and resolved
/// address.
pub fn make_server_info(running: bool, port: u16, ip: &str) -> (info: ServerInfo)
    ensures
        spec_info_for(info, running, port, ip@),
{
    ServerInfo { running, port, local_url: local_url(port), network_url: network_url(ip, port) }
}

} // verus!
