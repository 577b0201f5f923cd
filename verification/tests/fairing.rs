use rocket_cors::handlers::{error_route_status, fairing_error_uri};

const CORS_ROOT: &str = "/my_cors";

/// The path segment that the error route mounted at `CORS_ROOT` receives.
fn routed_segment(path: &str) -> Option<&str> {
    path.strip_prefix(CORS_ROOT).and_then(|rest| rest.strip_prefix('/'))
}

#[test]
#[allow(non_snake_case)]
fn FairingErrorRoute_returns_passed_in_status() {
    let path = format!("{}/403", CORS_ROOT);
    assert_eq!(403, error_route_status(routed_segment(&path)));
}

#[test]
#[allow(non_snake_case)]
fn FairingErrorRoute_returns_500_for_unknown_status() {
    let path = format!("{}/999", CORS_ROOT);
    assert_eq!(500, error_route_status(routed_segment(&path)));
}

#[test]
fn error_route_answers_the_status_it_was_given() {
    for status in [400u16, 403, 500] {
        let uri = fairing_error_uri(CORS_ROOT, status);
        assert_eq!(status, error_route_status(routed_segment(&uri)));
    }
}

#[test]
fn error_route_reads_decimal_segments_as_u16_does() {
    assert_eq!(403, error_route_status(Some("+403")));
    assert_eq!(404, error_route_status(Some("0404")));
    assert_eq!(418, error_route_status(Some("418")));
}

#[test]
fn error_route_answers_500_for_unreadable_segments() {
    assert_eq!(500, error_route_status(Some("abc")));
    assert_eq!(500, error_route_status(Some("")));
    assert_eq!(500, error_route_status(Some("+")));
    assert_eq!(500, error_route_status(Some("-403")));
    assert_eq!(500, error_route_status(Some(" 403")));
    assert_eq!(500, error_route_status(Some("70000")));
}

#[test]
fn error_route_answers_500_for_codes_rocket_does_not_know() {
    assert_eq!(500, error_route_status(Some("299")));
    assert_eq!(500, error_route_status(Some("0")));
    assert_eq!(500, error_route_status(None));
    assert_eq!(511, error_route_status(Some("511")));
}
