//! Settings, origin matching, validation of requests and CORS responses.

use std::io::Cursor;

use rocket::http::Status;
use rocket_cors::headers::{AccessControlRequestHeaders, AccessControlRequestMethod, HeaderFieldName, Origin};
use rocket_cors::origins::parse_allowed_origins;
use rocket_cors::response::Response;
use rocket_cors::validation::{
    validate, validate_allowed_headers, validate_allowed_method, validate_and_build,
    validate_origin, CorsRequest, ValidationResult,
};
use rocket_cors::{
    AllOrSome, AllowedHeaders, AllowedOrigins, CorsOptions, Error, HttpMethod, Method,
};

fn to_parsed_origin(origin: &str) -> Result<Origin, Error> {
    Origin::from_str(origin)
}

fn make_cors_options() -> CorsOptions {
    let allowed_origins = AllowedOrigins::some_exact(&["https://www.acme.com"]);

    CorsOptions {
        allowed_origins,
        allowed_methods: vec![Method(HttpMethod::Get)],
        allowed_headers: AllowedHeaders::some(&["Authorization", "Accept"]),
        allow_credentials: true,
        expose_headers: ["Content-Type", "X-Custom"]
            .iter()
            .map(|s| (*s).to_string())
            .collect(),
        ..Default::default()
    }
}

fn make_invalid_options() -> CorsOptions {
    let mut cors = make_cors_options();
    cors.allow_credentials = true;
    cors.allowed_origins = AllOrSome::All;
    cors.send_wildcard = true;
    cors
}

/// A request with the given method and CORS headers.
fn request(
    method: HttpMethod,
    origin: Option<&str>,
    request_method: Option<&str>,
    request_headers: Option<&str>,
) -> CorsRequest {
    CorsRequest {
        method,
        origin: origin.map(|s| s.to_string()),
        request_method: request_method.map(|s| s.to_string()),
        request_headers: request_headers.map(|s| s.to_string()),
    }
}

/// Writes a CORS response over a rocket response, as `Response::response` does.
fn merged(cors: &Response, base: rocket::Response<'static>) -> rocket::Response<'static> {
    let mut response = rocket::Response::build_from(base).finalize();
    cors.merge(&mut response);
    response
}

// CORS options test

#[test]
fn cors_is_validated() {
    assert!(make_cors_options().validate().is_ok())
}

#[test]
#[should_panic(expected = "CredentialsWithWildcardOrigin")]
fn cors_validates_illegal_allow_credentials() {
    let cors = make_invalid_options();

    cors.validate().unwrap();
}

#[test]
fn cors_options_from_builder_pattern() {
    let allowed_origins = AllowedOrigins::some_exact(&["https://www.acme.com"]);
    let cors_options_from_builder = CorsOptions::default()
        .allowed_origins(allowed_origins)
        .allowed_methods(vec![Method(HttpMethod::Get)])
        .allowed_headers(AllowedHeaders::some(&["Authorization", "Accept"]))
        .allow_credentials(true)
        .expose_headers(
            ["Content-Type", "X-Custom"]
                .iter()
                .map(|s| (*s).to_string())
                .collect(),
        );
    assert_eq!(cors_options_from_builder, make_cors_options());
}

#[test]
fn allowed_some_origins_allows_different_lifetimes() {
    let static_exact = ["http://www.example.com"];

    let random_allocation = vec![1, 2, 3];
    let port = random_allocation.len() as u16;

    let random_regex = vec![format!("https://(.+):{}", port)];
    let regex: Vec<&str> = random_regex.iter().map(|s| s.as_str()).collect();

    // Should compile
    let _ = AllowedOrigins::some(&static_exact, &regex);
}

// `ParsedAllowedOrigins::parse` tests
#[test]
fn allowed_origins_are_parsed_correctly() {
    let allowed_origins = parse_allowed_origins(&AllowedOrigins::some(
        &["https://www.acme.com"],
        &["^https://www.example-[A-z0-9]+.com$"],
    ))
    .unwrap();
    assert!(allowed_origins.is_some());

    let expected_exact: Vec<String> = [url::Url::parse("https://www.acme.com")
        .expect("not to fail")
        .origin()
        .ascii_serialization()]
    .to_vec();
    let expected_regex = ["^https://www.example-[A-z0-9]+.com$"];

    let actual = allowed_origins.unwrap();
    assert_eq!(&expected_exact, actual.exact());
    assert_eq!(expected_regex, actual.regex().expect("to be some").patterns());
}

#[test]
fn allowed_origins_errors_on_opaque_exact() {
    let error = parse_allowed_origins(&AllowedOrigins::some(
        &[
            "chrome-extension://something",
            "moz-extension://something",
            "https://valid.com",
        ],
        &[],
    ))
    .unwrap_err();

    match error {
        Error::OpaqueAllowedOrigin(mut origins) => {
            origins.sort();
            assert_eq!(
                origins,
                ["chrome-extension://something", "moz-extension://something"]
            );
        }
        others => {
            panic!("Unexpected error: {:#?}", others);
        }
    };
}

// The following tests check validation

#[test]
fn validate_origin_allows_all_origins() {
    let url = "https://www.example.com";
    let origin = to_parsed_origin(url).unwrap();
    let allowed_origins = AllOrSome::All;

    validate_origin(&origin, &allowed_origins).unwrap();
}

#[test]
fn validate_origin_allows_origin() {
    let url = "https://www.example.com";
    let origin = to_parsed_origin(url).unwrap();
    let allowed_origins =
        parse_allowed_origins(&AllowedOrigins::some_exact(&["https://www.example.com"])).unwrap();

    validate_origin(&origin, &allowed_origins).unwrap();
}

#[test]
fn validate_origin_handles_punycode_properly() {
    // Test a variety of scenarios where the Origin and settings are in punycode, or not
    let cases = vec![
        ("https://аpple.com", "https://аpple.com"),
        ("https://аpple.com", "https://xn--pple-43d.com"),
        ("https://xn--pple-43d.com", "https://аpple.com"),
        ("https://xn--pple-43d.com", "https://xn--pple-43d.com"),
    ];

    for (url, allowed_origin) in cases {
        let origin = to_parsed_origin(url).unwrap();
        let allowed_origins =
            parse_allowed_origins(&AllowedOrigins::some_exact(&[allowed_origin])).unwrap();

        validate_origin(&origin, &allowed_origins).unwrap();
    }
}

#[test]
fn validate_origin_validates_regex() {
    let allowed_origins = parse_allowed_origins(&AllowedOrigins::some_regex(&[
        "^https://www.example-[A-z0-9]+.com$",
        "^https://(.+).acme.com$",
    ]))
    .unwrap();

    let url = "https://www.example-something.com";
    let origin = to_parsed_origin(url).unwrap();
    validate_origin(&origin, &allowed_origins).unwrap();

    let url = "https://subdomain.acme.com";
    let origin = to_parsed_origin(url).unwrap();
    validate_origin(&origin, &allowed_origins).unwrap();
}

#[test]
fn validate_origin_validates_opaque_origins() {
    let url = "moz-extension://8c7c4444-e29f-…cb8-1ade813dbd12/js/content.js:505";
    let origin = to_parsed_origin(url).unwrap();
    let allowed_origins =
        parse_allowed_origins(&AllowedOrigins::some_regex(&["moz-extension://.*"])).unwrap();

    validate_origin(&origin, &allowed_origins).unwrap();
}

#[test]
fn validate_origin_validates_mixed_settings() {
    let allowed_origins = parse_allowed_origins(&AllowedOrigins::some(
        &["https://www.acme.com"],
        &["^https://www.example-[A-z0-9]+.com$"],
    ))
    .unwrap();

    let url = "https://www.example-something123.com";
    let origin = to_parsed_origin(url).unwrap();
    validate_origin(&origin, &allowed_origins).unwrap();

    let url = "https://www.acme.com";
    let origin = to_parsed_origin(url).unwrap();
    validate_origin(&origin, &allowed_origins).unwrap();
}

#[test]
#[should_panic(expected = "OriginNotAllowed")]
fn validate_origin_rejects_invalid_origin() {
    let url = "https://www.acme.com";
    let origin = to_parsed_origin(url).unwrap();
    let allowed_origins =
        parse_allowed_origins(&AllowedOrigins::some_exact(&["https://www.example.com"])).unwrap();

    validate_origin(&origin, &allowed_origins).unwrap();
}

#[test]
fn response_sets_allow_origin_without_vary_correctly() {
    let response = Response::new();
    let response = response.origin("https://www.example.com", false);

    // Build response and check built response header
    let expected_header = vec!["https://www.example.com"];
    let response = merged(&response, rocket::Response::new());
    let actual_header: Vec<_> = response
        .headers()
        .get("Access-Control-Allow-Origin")
        .collect();
    assert_eq!(expected_header, actual_header);

    assert!(response.headers().get("Vary").next().is_none());
}

#[test]
fn response_sets_allow_origin_with_vary_correctly() {
    let response = Response::new();
    let response = response.origin("https://www.example.com", true);

    // Build response and check built response header
    let expected_header = vec!["https://www.example.com"];
    let response = merged(&response, rocket::Response::new());
    let actual_header: Vec<_> = response
        .headers()
        .get("Access-Control-Allow-Origin")
        .collect();
    assert_eq!(expected_header, actual_header);
}

#[test]
fn response_sets_any_origin_correctly() {
    let response = Response::new();
    let response = response.any();

    // Build response and check built response header
    let expected_header = vec!["*"];
    let response = merged(&response, rocket::Response::new());
    let actual_header: Vec<_> = response
        .headers()
        .get("Access-Control-Allow-Origin")
        .collect();
    assert_eq!(expected_header, actual_header);
}

#[test]
fn response_sets_exposed_headers_correctly() {
    let headers = vec!["Bar", "Baz", "Foo"];
    let response = Response::new();
    let response = response.origin("https://www.example.com", false);
    let response = response.exposed_headers(&headers);

    // Build response and check built response header
    let response = merged(&response, rocket::Response::new());
    let actual_header: Vec<_> = response
        .headers()
        .get("Access-Control-Expose-Headers")
        .collect();

    assert_eq!(1, actual_header.len());
    let mut actual_headers: Vec<String> = actual_header[0]
        .split(',')
        .map(|header| header.trim().to_string())
        .collect();
    actual_headers.sort();
    assert_eq!(headers, actual_headers);
}

#[test]
fn response_sets_max_age_correctly() {
    let response = Response::new();
    let response = response.origin("https://www.example.com", false);

    let response = response.max_age(Some(42));

    // Build response and check built response header
    let expected_header = vec!["42"];
    let response = merged(&response, rocket::Response::new());
    let actual_header: Vec<_> = response.headers().get("Access-Control-Max-Age").collect();
    assert_eq!(expected_header, actual_header);
}

#[test]
fn response_does_not_set_max_age_when_none() {
    let response = Response::new();
    let response = response.origin("https://www.example.com", false);

    let response = response.max_age(None);

    // Build response and check built response header
    let response = merged(&response, rocket::Response::new());
    assert!(response
        .headers()
        .get("Access-Control-Max-Age")
        .next()
        .is_none())
}

#[test]
fn allowed_methods_validated_correctly() {
    let allowed_methods = vec![
        Method(HttpMethod::Get),
        Method(HttpMethod::Head),
        Method(HttpMethod::Post),
    ];

    let method = "GET";

    validate_allowed_method(
        &AccessControlRequestMethod::from_str(method).expect("not to fail"),
        &allowed_methods,
    )
    .unwrap();
}

#[test]
#[should_panic(expected = "MethodNotAllowed")]
fn allowed_methods_errors_on_disallowed_method() {
    let allowed_methods = vec![
        Method(HttpMethod::Get),
        Method(HttpMethod::Head),
        Method(HttpMethod::Post),
    ];

    let method = "DELETE";

    validate_allowed_method(
        &AccessControlRequestMethod::from_str(method).expect("not to fail"),
        &allowed_methods,
    )
    .unwrap()
}

#[test]
fn all_allowed_headers_are_validated_correctly() {
    let allowed_headers = AllOrSome::All;
    let requested_headers = ["Bar", "Foo"];

    validate_allowed_headers(
        &AccessControlRequestHeaders::from_str(&requested_headers.join(",")).unwrap(),
        &allowed_headers,
    )
    .unwrap();
}

/// `Response::allowed_headers` should check that headers are allowed, and only
/// echoes back the list that is actually requested for and not the whole list
#[test]
fn allowed_headers_are_validated_correctly() {
    let allowed_headers = ["Bar", "Baz", "Foo"];
    let requested_headers = ["Bar", "Foo"];

    validate_allowed_headers(
        &AccessControlRequestHeaders::from_str(&requested_headers.join(",")).unwrap(),
        &AllOrSome::Only(
            allowed_headers
                .iter()
                .map(|s| HeaderFieldName::new(s))
                .collect(),
        ),
    )
    .unwrap();
}

#[test]
#[should_panic(expected = "HeadersNotAllowed")]
fn allowed_headers_errors_on_non_subset() {
    let allowed_headers = ["Bar", "Baz", "Foo"];
    let requested_headers = ["Bar", "Foo", "Unknown"];

    validate_allowed_headers(
        &AccessControlRequestHeaders::from_str(&requested_headers.join(",")).unwrap(),
        &AllOrSome::Only(
            allowed_headers
                .iter()
                .map(|s| HeaderFieldName::new(s))
                .collect(),
        ),
    )
    .unwrap();
}

#[test]
fn response_does_not_build_if_origin_is_not_set() {
    let response = Response::new();
    let response = merged(&response, rocket::Response::new());

    assert_eq!(response.headers().iter().count(), 0);
}

#[test]
fn response_build_removes_existing_cors_headers_and_keeps_others() {
    let body = "Brewing the best coffee!";
    let original = rocket::Response::build()
        .status(Status::ImATeapot)
        .raw_header("X-Teapot-Make", "Rocket")
        .raw_header("Access-Control-Max-Age", "42")
        .sized_body(body.len(), Cursor::new(body))
        .finalize();

    let response = Response::new();
    let response = response.origin("https://www.example.com", false);
    let response = merged(&response, original);
    // Check CORS header
    let expected_header = vec!["https://www.example.com"];
    let actual_header: Vec<_> = response
        .headers()
        .get("Access-Control-Allow-Origin")
        .collect();
    assert_eq!(expected_header, actual_header);

    // Check other header
    let expected_header = vec!["Rocket"];
    let actual_header: Vec<_> = response.headers().get("X-Teapot-Make").collect();
    assert_eq!(expected_header, actual_header);

    // Check that `Access-Control-Max-Age` is removed
    assert!(response
        .headers()
        .get("Access-Control-Max-Age")
        .next()
        .is_none());
}

#[test]
fn preflight_validated_correctly() {
    let cors = make_cors_options().to_cors().expect("To not fail");

    let request = request(
        HttpMethod::Options,
        Some("https://www.acme.com"),
        Some("GET"),
        Some("Authorization"),
    );

    let result = validate(&cors, &request).expect("to not fail");
    let expected_result = ValidationResult::Preflight {
        origin: "https://www.acme.com".to_string(),
        // Checks that only a subset of allowed headers are returned
        // -- i.e. whatever is requested for
        headers: Some(AccessControlRequestHeaders::from_str("Authorization").unwrap()),
    };

    assert_eq!(expected_result, result);
}

#[test]
fn preflight_validation_allows_all_origin() {
    let mut options = make_cors_options();
    options.allowed_origins = AllOrSome::All;
    let cors = options.to_cors().expect("To not fail");

    let request = request(
        HttpMethod::Options,
        Some("https://www.example.com"),
        Some("GET"),
        Some("Authorization"),
    );

    let result = validate(&cors, &request).expect("to not fail");
    let expected_result = ValidationResult::Preflight {
        origin: "https://www.example.com".to_string(),
        headers: Some(AccessControlRequestHeaders::from_str("Authorization").unwrap()),
    };

    assert_eq!(expected_result, result);
}

#[test]
#[should_panic(expected = "OriginNotAllowed")]
fn preflight_validation_errors_on_invalid_origin() {
    let cors = make_cors_options().to_cors().expect("To not fail");

    let request = request(
        HttpMethod::Options,
        Some("https://www.example.com"),
        Some("GET"),
        Some("Authorization"),
    );

    let _ = validate(&cors, &request).unwrap();
}

#[test]
#[should_panic(expected = "MissingRequestMethod")]
fn preflight_validation_errors_on_missing_request_method() {
    let cors = make_cors_options().to_cors().expect("To not fail");

    let request = request(
        HttpMethod::Options,
        Some("https://www.acme.com"),
        None,
        Some("Authorization"),
    );

    let _ = validate(&cors, &request).unwrap();
}

#[test]
#[should_panic(expected = "MethodNotAllowed")]
fn preflight_validation_errors_on_disallowed_method() {
    let cors = make_cors_options().to_cors().expect("To not fail");

    let request = request(
        HttpMethod::Options,
        Some("https://www.acme.com"),
        Some("POST"),
        Some("Authorization"),
    );

    let _ = validate(&cors, &request).unwrap();
}

#[test]
#[should_panic(expected = "HeadersNotAllowed")]
fn preflight_validation_errors_on_disallowed_headers() {
    let cors = make_cors_options().to_cors().expect("To not fail");

    let request = request(
        HttpMethod::Options,
        Some("https://www.acme.com"),
        Some("GET"),
        Some("Authorization, X-NOT-ALLOWED"),
    );

    let _ = validate(&cors, &request).unwrap();
}

#[test]
fn actual_request_validated_correctly() {
    let cors = make_cors_options().to_cors().expect("To not fail");

    let request = request(HttpMethod::Get, Some("https://www.acme.com"), None, None);

    let result = validate(&cors, &request).expect("to not fail");
    let expected_result = ValidationResult::Request {
        origin: "https://www.acme.com".to_string(),
    };

    assert_eq!(expected_result, result);
}

#[test]
fn actual_request_validation_allows_all_origin() {
    let mut options = make_cors_options();
    options.allowed_origins = AllOrSome::All;
    let cors = options.to_cors().expect("To not fail");

    let request = request(HttpMethod::Get, Some("https://www.example.com"), None, None);

    let result = validate(&cors, &request).expect("to not fail");
    let expected_result = ValidationResult::Request {
        origin: "https://www.example.com".to_string(),
    };

    assert_eq!(expected_result, result);
}

#[test]
#[should_panic(expected = "OriginNotAllowed")]
fn actual_request_validation_errors_on_incorrect_origin() {
    let cors = make_cors_options().to_cors().expect("To not fail");

    let request = request(HttpMethod::Get, Some("https://www.example.com"), None, None);

    let _ = validate(&cors, &request).unwrap();
}

#[test]
fn non_cors_request_return_empty_response() {
    let cors = make_cors_options().to_cors().expect("To not fail");

    let request = request(HttpMethod::Options, None, None, None);
    let response = validate_and_build(&cors, &request).expect("to not fail");
    let expected_response = Response::new();
    assert_eq!(expected_response, response);
}

#[test]
fn preflight_validated_and_built_correctly() {
    let options = make_cors_options();
    let cors = options.to_cors().expect("To not fail");

    let request = request(
        HttpMethod::Options,
        Some("https://www.acme.com"),
        Some("GET"),
        Some("Authorization"),
    );

    let response = validate_and_build(&cors, &request).expect("to not fail");

    let expected_response = Response::new()
        .origin("https://www.acme.com", false)
        .headers(&["Authorization"])
        .methods(&options.allowed_methods)
        .credentials(options.allow_credentials)
        .max_age(options.max_age);

    assert_eq!(expected_response, response);
}

/// Tests that when All origins are allowed and send_wildcard disabled, the vary header is set
/// in the response and the requested origin is echoed
#[test]
fn preflight_all_origins_with_vary() {
    let mut options = make_cors_options();
    options.allowed_origins = AllOrSome::All;
    options.send_wildcard = false;
    let cors = options.to_cors().expect("To not fail");

    let request = request(
        HttpMethod::Options,
        Some("https://www.acme.com"),
        Some("GET"),
        Some("Authorization"),
    );

    let response = validate_and_build(&cors, &request).expect("to not fail");

    let expected_response = Response::new()
        .origin("https://www.acme.com", true)
        .headers(&["Authorization"])
        .methods(&options.allowed_methods)
        .credentials(options.allow_credentials)
        .max_age(options.max_age);

    assert_eq!(expected_response, response);
}

/// Tests that when All origins are allowed and send_wildcard enabled, the origin is set to "*"
#[test]
fn preflight_all_origins_with_wildcard() {
    let mut options = make_cors_options();
    options.allowed_origins = AllOrSome::All;
    options.send_wildcard = true;
    options.allow_credentials = false;
    let cors = options.to_cors().expect("To not fail");

    let request = request(
        HttpMethod::Options,
        Some("https://www.acme.com"),
        Some("GET"),
        Some("Authorization"),
    );

    let response = validate_and_build(&cors, &request).expect("to not fail");

    let expected_response = Response::new()
        .any()
        .headers(&["Authorization"])
        .methods(&options.allowed_methods)
        .credentials(options.allow_credentials)
        .max_age(options.max_age);

    assert_eq!(expected_response, response);
}

#[test]
fn actual_request_validated_and_built_correctly() {
    let options = make_cors_options();
    let cors = options.to_cors().expect("To not fail");

    let request = request(HttpMethod::Get, Some("https://www.acme.com"), None, None);

    let response = validate_and_build(&cors, &request).expect("to not fail");
    let expected_response = Response::new()
        .origin("https://www.acme.com", false)
        .credentials(options.allow_credentials)
        .exposed_headers(&["Content-Type", "X-Custom"]);

    assert_eq!(expected_response, response);
}

#[test]
fn actual_request_all_origins_with_vary() {
    let mut options = make_cors_options();
    options.allowed_origins = AllOrSome::All;
    options.send_wildcard = false;
    options.allow_credentials = false;
    let cors = options.to_cors().expect("To not fail");

    let request = request(HttpMethod::Get, Some("https://www.acme.com"), None, None);

    let response = validate_and_build(&cors, &request).expect("to not fail");
    let expected_response = Response::new()
        .origin("https://www.acme.com", true)
        .credentials(options.allow_credentials)
        .exposed_headers(&["Content-Type", "X-Custom"]);

    assert_eq!(expected_response, response);
}

#[test]
fn actual_request_all_origins_with_wildcard() {
    let mut options = make_cors_options();
    options.allowed_origins = AllOrSome::All;
    options.send_wildcard = true;
    options.allow_credentials = false;
    let cors = options.to_cors().expect("To not fail");

    let request = request(HttpMethod::Get, Some("https://www.acme.com"), None, None);

    let response = validate_and_build(&cors, &request).expect("to not fail");
    let expected_response = Response::new()
        .any()
        .credentials(options.allow_credentials)
        .exposed_headers(&["Content-Type", "X-Custom"]);

    assert_eq!(expected_response, response);
}

/// The headers of a rocket response, as name and value pairs in order.
fn header_pairs(response: &rocket::Response<'_>) -> Vec<(String, String)> {
    let mut pairs: Vec<(String, String)> = response
        .headers()
        .iter()
        .map(|h| (h.name().to_string(), h.value().to_string()))
        .collect();
    pairs.sort();
    pairs
}

#[test]
fn merging_twice_is_merging_once() {
    let original = rocket::Response::build()
        .raw_header("X-Teapot-Make", "Rocket")
        .raw_header("access-control-max-age", "42")
        .finalize();
    let cors = Response::new()
        .origin("https://www.example.com", false)
        .credentials(true)
        .max_age(Some(7));
    let once = merged(&cors, original);
    let once_pairs = header_pairs(&once);
    let twice = merged(&cors, once);
    assert_eq!(once_pairs, header_pairs(&twice));
    assert_eq!(vec!["7"], twice.headers().get("Access-Control-Max-Age").collect::<Vec<_>>());
    assert_eq!(vec!["Rocket"], twice.headers().get("X-Teapot-Make").collect::<Vec<_>>());
}

#[test]
fn merging_twice_adds_one_more_vary_origin() {
    let original = rocket::Response::build().finalize();
    let cors = Response::new().origin("https://www.example.com", true);
    let once = merged(&cors, original);
    assert_eq!(vec!["Origin"], once.headers().get("Vary").collect::<Vec<_>>());
    let twice = merged(&cors, once);
    assert_eq!(vec!["Origin", "Origin"], twice.headers().get("Vary").collect::<Vec<_>>());
    assert_eq!(
        vec!["https://www.example.com"],
        twice.headers().get("Access-Control-Allow-Origin").collect::<Vec<_>>()
    );
}
