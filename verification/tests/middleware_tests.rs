use ravage::middleware::{CheckLogin, LoginGate, RefreshMiddleware, public_path, location_of};

#[test]
fn public_paths_pass_the_login_check() {
    let mw = CheckLogin.new_transform(());
    assert_eq!(mw.call("/static/app.css", true), LoginGate::Forward);
    assert_eq!(mw.call("/auth/login", true), LoginGate::Forward);
    assert_eq!(mw.call("/tests/x", true), LoginGate::Forward);
    assert_eq!(mw.call("/login", true), LoginGate::Forward);
    assert_eq!(mw.call("/loginpage", true), LoginGate::Forward);
}

#[test]
fn other_paths_with_a_session_are_redirected() {
    let mw = CheckLogin.new_transform(5u8);
    assert_eq!(mw.call("/", true), LoginGate::RedirectToLogin);
    assert_eq!(mw.call("/api/collections", true), LoginGate::RedirectToLogin);
    assert_eq!(mw.call("/static", true), LoginGate::RedirectToLogin);
    assert_eq!(*mw.service(), 5u8);
}

#[test]
fn other_paths_without_a_session_pass() {
    let mw = CheckLogin.new_transform(());
    assert_eq!(mw.call("/", false), LoginGate::Forward);
    assert_eq!(mw.call("/collections/3", false), LoginGate::Forward);
}

#[test]
fn public_path_checks_prefixes() {
    assert!(public_path("/static/"));
    assert!(!public_path("/stat"));
    assert!(!public_path("static/x"));
    assert!(!public_path(""));
}

#[test]
fn refresh_and_location_are_read_from_the_query() {
    let mw = RefreshMiddleware.new_transform(());
    let h = mw.call("refresh=true&location=/collections/2");
    assert!(h.hx_refresh);
    assert_eq!(h.hx_location, Some("/collections/2".to_string()));
}

#[test]
fn refresh_is_any_occurrence_of_the_text() {
    let mw = RefreshMiddleware.new_transform(());
    assert!(mw.call("norefresh=true").hx_refresh);
    assert!(!mw.call("refresh=false").hx_refresh);
    assert!(!mw.call("").hx_refresh);
}

#[test]
fn first_location_parameter_wins() {
    assert_eq!(location_of("a=1&location=x=y&location=z"), Some("x=y".to_string()));
    assert_eq!(location_of("location="), Some("".to_string()));
    assert_eq!(location_of("locationx=1"), None);
    assert_eq!(location_of("location"), None);
    assert_eq!(location_of(""), None);
}

#[test]
fn invalid_header_values_are_dropped() {
    let mw = RefreshMiddleware.new_transform(());
    assert_eq!(mw.call("location=a\nb").hx_location, None);
    assert_eq!(mw.call("location=a\u{7f}").hx_location, None);
    assert_eq!(mw.call("location=a\tb").hx_location, Some("a\tb".to_string()));
    assert_eq!(mw.call("location=caf\u{e9}").hx_location, Some("caf\u{e9}".to_string()));
}

#[test]
fn a_leading_location_is_read_back() {
    let mw = RefreshMiddleware.new_transform(());
    assert_eq!(mw.call("location=/requests/4").hx_location, Some("/requests/4".to_string()));
    assert_eq!(mw.call("location=/requests/4&refresh=true").hx_location, Some("/requests/4".to_string()));
    assert_eq!(mw.call("location=&x=1").hx_location, Some("".to_string()));
}
