//! Scenarios for the HTTP surface: routing, the root redirect, the
//! single-page-app fallback, and the control endpoint.
use h5_server::router::{
    fallback_choice, handle_set_device, notification_for, redirect_target, route_request,
    FallbackChoice, Route,
};

#[test]
fn root_get_redirects_to_set_device() {
    assert_eq!(route_request("GET", "/"), Route::RootRedirect);
    assert_eq!(redirect_target(), "/setDevice");
}

#[test]
fn control_endpoint_route() {
    assert_eq!(route_request("POST", "/api/v1/set_device"), Route::SetDevice);
    // The same path under the wrong method is not the control endpoint.
    assert_eq!(route_request("GET", "/api/v1/set_device"), Route::Fallback);
    assert_eq!(route_request("POST", "/"), Route::Fallback);
}

#[test]
fn unknown_paths_fall_back() {
    assert_eq!(route_request("GET", "/nonexistent-path"), Route::Fallback);
    assert_eq!(route_request("GET", "/setDevice"), Route::Fallback);
}

#[test]
fn fallback_serves_index_for_missing_files() {
    assert_eq!(fallback_choice(false), FallbackChoice::IndexDocument);
    assert_eq!(fallback_choice(true), FallbackChoice::File);
}

#[test]
fn set_device_replies_success_and_notifies_once() {
    let bits = (42.5f32).to_bits();
    let (n, resp) = handle_set_device(bits);
    assert_eq!(n.channel, "watch_message");
    assert_eq!(f32::from_bits(n.value_bits), 42.5f32);
    assert!(resp.success);
    assert!(!resp.message.is_empty());
    assert_eq!(resp.message, "设备设置成功");
}

#[test]
fn both_notification_paths_share_one_shape() {
    let bits = (3.25f32).to_bits();
    let from_endpoint = handle_set_device(bits).0;
    let direct = notification_for(bits);
    assert_eq!(from_endpoint.channel, direct.channel);
    assert_eq!(from_endpoint.value_bits, direct.value_bits);
}
