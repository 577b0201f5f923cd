//! The fairing, guard and error decisions, and the laws on concrete values.

use rocket_cors::handlers::{
    fairing_error_uri, fairing_on_request, fairing_on_response, guard_outcome,
    FairingRequestDecision, FairingResponseAction,
};
use rocket_cors::headers::RequestOutcome;
use rocket_cors::response::{HeaderOp, Response};
use rocket_cors::validation::{validate_and_build, CorsRequest};
use rocket_cors::{
    AllOrSome, AllowedHeaders, AllowedOrigins, Cors, CorsOptions, Error, HttpMethod, Method,
};

fn cors() -> Cors {
    CorsOptions {
        allowed_origins: AllowedOrigins::some_exact(&["https://www.acme.com"]),
        allowed_methods: vec![Method(HttpMethod::Get)],
        allowed_headers: AllowedHeaders::some(&["Authorization", "Accept"]),
        allow_credentials: true,
        ..Default::default()
    }
    .fairing_route_base("/my_cors")
    .to_cors()
    .expect("Not to fail")
}

fn request(
    method: HttpMethod,
    origin: Option<&str>,
    request_method: Option<&str>,
    request_headers: Option<&str>,
) -> CorsRequest {
    CorsRequest {
        method,
        origin: origin.map(|s| s.to_string()),
        request_method: request_method.map(|s| s.to_string()),
        request_headers: request_headers.map(|s| s.to_string()),
    }
}

fn replace(name: &str, value: &str) -> HeaderOp {
    HeaderOp::Replace(name.to_string(), value.to_string())
}

fn remove(name: &str) -> HeaderOp {
    HeaderOp::Remove(name.to_string())
}

#[test]
fn fairing_lets_valid_requests_through() {
    let cors = cors();
    let req = request(HttpMethod::Get, Some("https://www.acme.com"), None, None);
    assert_eq!(fairing_on_request(&cors, &req), FairingRequestDecision::Proceed);
}

#[test]
fn fairing_reroutes_bad_origin_to_forbidden_route() {
    let cors = cors();
    let req = request(HttpMethod::Get, Some("https://www.bad-origin.com"), None, None);
    assert_eq!(
        fairing_on_request(&cors, &req),
        FairingRequestDecision::Reroute {
            status: 403,
            uri: "/my_cors/403".to_string()
        }
    );
    // a rerouted request keeps its response as the error route made it
    assert!(matches!(
        fairing_on_response(&cors, &req, false, true),
        Ok(FairingResponseAction::Leave)
    ));
}

#[test]
fn fairing_reroutes_bad_request_method_to_bad_request_route() {
    let cors = cors();
    let req = request(
        HttpMethod::Options,
        Some("https://www.acme.com"),
        Some("FOOBAR"),
        None,
    );
    assert_eq!(
        fairing_on_request(&cors, &req),
        FairingRequestDecision::Reroute {
            status: 400,
            uri: "/my_cors/400".to_string()
        }
    );
}

#[test]
fn fairing_response_matches_guard_response() {
    let cors = cors();
    let req = request(
        HttpMethod::Options,
        Some("https://www.acme.com"),
        Some("GET"),
        Some("Authorization"),
    );
    let expected = validate_and_build(&cors, &req).unwrap();
    match fairing_on_response(&cors, &req, true, false).unwrap() {
        FairingResponseAction::Merge {
            response,
            no_content,
        } => {
            assert_eq!(response, expected);
            assert!(no_content);
        }
        FairingResponseAction::Leave => panic!("expected a merge"),
    }
}

#[test]
fn fairing_leaves_non_cors_responses() {
    let cors = cors();
    let req = request(HttpMethod::Get, None, None, None);
    assert_eq!(fairing_on_request(&cors, &req), FairingRequestDecision::Proceed);
    assert!(matches!(
        fairing_on_response(&cors, &req, true, true),
        Ok(FairingResponseAction::Leave)
    ));
}

#[test]
fn fairing_keeps_the_status_of_an_unparsable_origin() {
    let cors = cors();
    let req = request(HttpMethod::Get, Some("not a url"), None, None);
    assert_eq!(
        fairing_on_request(&cors, &req),
        FairingRequestDecision::Reroute { status: 400, uri: "/my_cors/400".to_string() }
    );
    assert!(matches!(
        fairing_on_response(&cors, &req, false, true),
        Ok(FairingResponseAction::Leave)
    ));
    assert!(matches!(
        fairing_on_response(&cors, &req, false, false),
        Ok(FairingResponseAction::Leave)
    ));
}

#[test]
fn fairing_response_errors_on_unparsable_origin_that_passed() {
    let cors = cors();
    let req = request(HttpMethod::Get, Some("not a url"), None, None);
    assert!(matches!(
        fairing_on_response(&cors, &req, true, true),
        Err(Error::BadOrigin(_))
    ));
}

#[test]
fn error_uri_is_base_slash_status() {
    assert_eq!(fairing_error_uri("/cors", 500), "/cors/500");
    assert_eq!(fairing_error_uri("", 7), "/7");
}

#[test]
fn guard_without_managed_cors_fails_with_500() {
    let req = request(HttpMethod::Get, Some("https://www.acme.com"), None, None);
    match guard_outcome(None, &req) {
        RequestOutcome::Failure(code, Error::MissingCorsInRocketState) => assert_eq!(code, 500),
        other => panic!("unexpected {:?}", other),
    }
}

#[test]
fn guard_fails_with_the_error_status() {
    let cors = cors();
    let req = request(
        HttpMethod::Options,
        Some("https://www.acme.com"),
        Some("GET"),
        Some("Foobar"),
    );
    match guard_outcome(Some(&cors), &req) {
        RequestOutcome::Failure(code, Error::HeadersNotAllowed) => assert_eq!(code, 403),
        other => panic!("unexpected {:?}", other),
    }
}

#[test]
fn merge_ops_write_every_cors_header() {
    let response = Response::new()
        .origin("https://www.acme.com", true)
        .credentials(true)
        .methods(&vec![Method(HttpMethod::Get), Method(HttpMethod::Post)])
        .headers(&["Authorization", "authorization", "Accept"])
        .max_age(Some(3600));
    assert_eq!(
        response.merge_ops(),
        vec![
            replace("Access-Control-Allow-Origin", "https://www.acme.com"),
            replace("Access-Control-Allow-Credentials", "true"),
            remove("Access-Control-Expose-Headers"),
            replace("Access-Control-Allow-Headers", "Authorization, Accept"),
            replace("Access-Control-Allow-Methods", "GET, POST"),
            replace("Access-Control-Max-Age", "3600"),
            HeaderOp::Adjoin("Vary".to_string(), "Origin".to_string()),
        ]
    );
    assert!(Response::new().merge_ops().is_empty());
}

#[test]
fn wildcard_and_credentials_never_meet() {
    let options = CorsOptions::default()
        .send_wildcard(true)
        .allow_credentials(true);
    assert!(matches!(
        options.to_cors(),
        Err(Error::CredentialsWithWildcardOrigin)
    ));
    let options = CorsOptions::default().send_wildcard(true);
    let cors = options.to_cors().unwrap();
    let req = request(HttpMethod::Get, Some("https://a.b"), None, None);
    let ops = validate_and_build(&cors, &req).unwrap().merge_ops();
    assert_eq!(ops[0], replace("Access-Control-Allow-Origin", "*"));
    assert_eq!(ops[1], remove("Access-Control-Allow-Credentials"));
}

#[test]
fn errors_have_statuses_and_messages() {
    assert_eq!(Error::MissingOrigin.status(), 403);
    assert_eq!(Error::HeadersNotAllowed.status(), 403);
    assert_eq!(Error::MissingInjectedHeader.status(), 500);
    assert_eq!(Error::BadRequestMethod.status(), 400);
    assert_eq!(
        Error::OriginNotAllowed("https://x.y".to_string()).message(),
        "Origin 'https://x.y' is not allowed to request"
    );
    assert_eq!(
        Error::MethodNotAllowed("PUT".to_string()).message(),
        "Method 'PUT' is not allowed"
    );
    assert_eq!(
        Error::OpaqueAllowedOrigin(vec!["a://b".to_string(), "c://d".to_string()]).message(),
        "The configured Origins 'a://b; c://d' are Opaque Origins. Use regex instead."
    );
    assert_eq!(
        Error::MissingOrigin.message(),
        "The request header `Origin` is required but is missing"
    );
}

#[test]
fn regex_errors_are_reported() {
    let options = CorsOptions::default().allowed_origins(AllowedOrigins::some_regex(&["(unclosed"]));
    assert!(matches!(options.to_cors(), Err(Error::RegexError(_))));
}

#[test]
fn all_or_some_accessors() {
    let all: AllOrSome<u8> = AllOrSome::default();
    assert!(all.is_all());
    assert!(!all.is_some());
    let only = AllOrSome::Only(5u8);
    assert!(only.is_some());
    assert_eq!(only.unwrap(), 5);
    assert!(AllowedOrigins::all().is_all());
    assert!(AllowedHeaders::all().is_all());
    let null = AllowedOrigins::some_null().unwrap();
    assert!(null.allow_null);
    assert_eq!(null.exact, None);
}

#[test]
fn default_options() {
    let d = CorsOptions::default();
    assert_eq!(d.fairing_route_base, "/cors");
    assert_eq!(d.fairing_route_rank, 0);
    assert_eq!(d.allowed_methods.len(), 7);
    assert!(d.validate().is_ok());
}

#[test]
fn exact_origins_are_a_set() {
    let origins = AllowedOrigins::some_exact(&["https://a.b", "https://a.b", "https://c.d"]).unwrap();
    assert_eq!(
        origins.exact,
        Some(vec!["https://a.b".to_string(), "https://c.d".to_string()])
    );
}

#[test]
fn allowed_methods_are_a_set() {
    let cors = CorsOptions::default()
        .allowed_methods(vec![
            Method(HttpMethod::Get),
            Method(HttpMethod::Post),
            Method(HttpMethod::Get),
        ])
        .to_cors()
        .unwrap();
    assert_eq!(
        cors.allowed_methods(),
        &vec![Method(HttpMethod::Get), Method(HttpMethod::Post)]
    );
}

#[test]
fn outside_errors_convert_into_the_matching_variants() {
    let parse_error = url::Url::parse("invalid_url").unwrap_err();
    let error = Error::from(parse_error);
    assert!(matches!(error, Error::BadOrigin(e) if e == parse_error));
    assert_eq!(400, Error::from(parse_error).status());

    let regex_error = regex::RegexSet::new(["(unclosed"]).unwrap_err();
    let error = Error::from(regex_error.clone());
    assert!(matches!(error, Error::RegexError(ref e) if *e == regex_error));
    assert_eq!(400, error.status());
}

#[test]
fn parsed_origins_keep_their_answers_when_cloned() {
    let parsed = rocket_cors::origins::parse_allowed_origins(&AllowedOrigins::some(
        &["https://www.acme.com"],
        &["^https://(.+).example.com$"],
    ))
    .expect("to parse")
    .unwrap();
    let copy = parsed.clone();
    assert!(!copy.allow_null());
    assert_eq!(parsed.exact(), copy.exact());
    let sub = rocket_cors::headers::Origin::from_str("https://sub.example.com").unwrap();
    let other = rocket_cors::headers::Origin::from_str("https://other.org").unwrap();
    let exact = rocket_cors::headers::Origin::from_str("https://www.acme.com").unwrap();
    assert!(parsed.verify(&sub) && copy.verify(&sub));
    assert!(!parsed.verify(&other) && !copy.verify(&other));
    assert!(copy.verify(&exact));
    assert_eq!(
        copy.regex().expect("a regex set").patterns(),
        ["^https://(.+).example.com$"]
    );
}
