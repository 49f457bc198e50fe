//! Network info provider: best-effort resolution of the machine's
//! LAN-reachable address, falling back to loopback on any failure.
use vstd::prelude::*;
use vstd::string::*;

verus! {

/// Relies on local_ip_address::local_ip: resolves this machine's local
/// network address. The result depends on the machine's interfaces, so
/// nothing is pinned beyond the rendered address being non-empty text
/// (`IpAddr`'s display form is dotted-decimal or RFC 5952 notation).
#[verifier::external_body]
fn resolve_local_ip() -> (r: Option<String>)
    ensures
        r is Some ==> r->0@.len() > 0,
{
    match local_ip_address::local_ip() {
        Ok(ip) => Some(ip.to_string()),
        Err(_) => None,
    }
}

/// The loopback address used whenever resolution fails.
pub open spec fn spec_fallback_ip() -> Seq<char> {
    "127.0.0.1"@
}

/// Keep a resolved address, or fall back to loopback when resolution
/// failed; never errors.
pub fn ip_or_fallback(r: Option<String>) -> (s: String)
    ensures
        r matches Some(ip) ==> s@ == ip@,
        r is None ==> s@ == spec_fallback_ip(),
{
    match r {
        Some(ip) => ip,
        None => {
            proof {
                reveal_strlit("127.0.0.1");
            }
            String::from_str("127.0.0.1")
        },
    }
}

/// Resolve the machine's LAN address for status reporting; on any
/// resolution failure this reports loopback instead of erroring.
pub fn get_local_ip() -> (s: String)
    ensures
        s@.len() > 0,
{
    let r = resolve_local_ip();
    proof {
        reveal_strlit("127.0.0.1");
    }
    ip_or_fallback(r)
}

} // verus!
