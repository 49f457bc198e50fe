//! The routing rules of the HTTP surface: which handler a request reaches,
//! where the root redirects to, what the control endpoint replies and
//! forwards, and the single-page-app fallback decision.
use vstd::prelude::*;
use vstd::string::*;

use crate::text::str_eq;

verus! {

/// Where a request goes.
#[derive(Debug, Clone, Copy, PartialEq, Eq, Structural)]
pub enum Route {
    /// `GET /`: permanent redirect to the device page.
    RootRedirect,
    /// `POST /api/v1/set_device`: the control endpoint.
    SetDevice,
    /// Anything else: static files with single-page-app fallback.
    Fallback,
}

/// The routing table as a function of method and path.
pub open spec fn spec_route(method: Seq<char>, path: Seq<char>) -> Route {
    if method == "GET"@ && path == "/"@ {
        Route::RootRedirect
    } else if method == "POST"@ && path == "/api/v1/set_device"@ {
        Route::SetDevice
    } else {
        Route::Fallback
    }
}

/// Decide which handler a request reaches.
pub fn route_request(method: &str, path: &str) -> (r: Route)
    ensures
        r == spec_route(method@, path@),
{
    if str_eq(method, "GET") && str_eq(path, "/") {
        Route::RootRedirect
    } else if str_eq(method, "POST") && str_eq(path, "/api/v1/set_device") {
        Route::SetDevice
    } else {
        Route::Fallback
    }
}

/// Where the root redirect points: a client-side route inside the bundled
/// single-page app.
pub open spec fn spec_redirect_target() -> Seq<char> {
    "/setDevice"@
}

/// The target of the permanent redirect served for `GET /`.
pub fn redirect_target() -> (s: String)
    ensures
        s@ == spec_redirect_target(),
        s@.len() > 0,
{
    proof {
        reveal_strlit("/setDevice");
    }
    String::from_str("/setDevice")
}

/// What the fallback route serves for a request path.
#[derive(Debug, Clone, Copy, PartialEq, Eq, Structural)]
pub enum FallbackChoice {
    /// The path names an existing file under the content root: serve it.
    File,
    /// The path names nothing on disk: serve the index document instead of
    /// a not-found response, so client-side routing can handle it.
    IndexDocument,
}

/// The single-page-app fallback rule: a missing file is answered with the
/// index document, never with a not-found response.
pub fn fallback_choice(path_is_file: bool) -> (c: FallbackChoice)
    ensures
        c == (if path_is_file {
            FallbackChoice::File
        } else {
            FallbackChoice::IndexDocument
        }),
{
    if path_is_file {
        FallbackChoice::File
    } else {
        FallbackChoice::IndexDocument
    }
}

/// The event channel on which every device value reaches the host's
/// notifier, from the control endpoint and from direct host calls alike.
pub open spec fn spec_event_channel() -> Seq<char> {
    "watch_message"@
}

/// One event for the host's notifier. The numeric payload travels as the
/// IEEE 754 bit pattern of the 32-bit value taken from the wire.
pub struct Notification {
    pub channel: String,
    pub value_bits: u32,
}

/// Build the one event that a device value produces, on whichever path it
/// arrives.
pub fn notification_for(value_bits: u32) -> (n: Notification)
    ensures
        n.channel@ == spec_event_channel(),
        n.value_bits == value_bits,
{
    proof {
        reveal_strlit("watch_message");
    }
    Notification { channel: String::from_str("watch_message"), value_bits }
}

/// The body of the control endpoint's reply.
pub struct ApiResponse {
    pub success: bool,
    pub message: String,
}

/// The success text the control endpoint replies with.
pub open spec fn spec_set_device_message() -> Seq<char> {
    "设备设置成功"@
}

/// The control endpoint: a device value is forwarded to the notifier as
/// exactly one event, and the reply always reports success with a
/// non-empty message. No validation is applied to the value.
pub fn handle_set_device(value_bits: u32) -> (r: (Notification, ApiResponse))
    ensures
        r.0.channel@ == spec_event_channel(),
        r.0.value_bits == value_bits,
        r.1.success == true,
        r.1.message@ == spec_set_device_message(),
        r.1.message@.len() > 0,
{
    let n = notification_for(value_bits);
    proof {
        reveal_strlit("设备设置成功");
    }
    let resp = ApiResponse { success: true, message: String::from_str("设备设置成功") };
    (n, resp)
}

} // verus!
