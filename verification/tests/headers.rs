//! Parsing of the CORS request headers.

use rocket_cors::headers::{
    AccessControlRequestHeaders, AccessControlRequestMethod, HeaderFieldName, HeaderFieldNamesSet,
    Origin, RequestOutcome,
};
use rocket_cors::{HttpMethod, Method};

#[test]
fn origin_is_parsed_properly() {
    let url = "https://foo.bar.xyz";
    let parsed = Origin::from_str(url).unwrap();
    assert_eq!(parsed.ascii_serialization(), url);
}

#[test]
fn origin_parsing_strips_paths() {
    // this should never really be sent by a compliant user agent
    let url = "https://foo.bar.xyz/path/somewhere";
    let parsed = Origin::from_str(url).unwrap();
    let expected = "https://foo.bar.xyz";
    assert_eq!(parsed.ascii_serialization(), expected);
}

#[test]
#[should_panic(expected = "BadOrigin")]
fn origin_parsing_disallows_invalid_origins() {
    let url = "invalid_url";
    let _ = Origin::from_str(url).unwrap();
}

#[test]
fn origin_parses_opaque_origins() {
    let url = "blob://foobar";
    let parsed = Origin::from_str(url).unwrap();

    assert!(!parsed.is_tuple());
}

#[test]
fn origin_header_conversion() {
    let url = "https://foo.bar.xyz";
    let parsed = Origin::from_str(url).unwrap();
    assert_eq!(parsed.ascii_serialization(), url);

    let url = "https://foo.bar.xyz:1234";
    let parsed = Origin::from_str(url).unwrap();
    assert_eq!(parsed.ascii_serialization(), url);

    // this should never really be sent by a compliant user agent
    let url = "https://foo.bar.xyz/path/somewhere";
    let parsed = Origin::from_str(url).unwrap();
    let expected = "https://foo.bar.xyz";
    assert_eq!(parsed.ascii_serialization(), expected);

    let url = "invalid_url";
    assert!(Origin::from_str(url).is_err());
}

#[test]
fn origin_header_parsing() {
    let outcome = Origin::from_request_sync(Some("https://www.example.com"));
    let parsed_header = match outcome {
        RequestOutcome::Success(s) => s,
        other => panic!("Expected a success, got {:?}", other),
    };
    assert_eq!(
        "https://www.example.com",
        parsed_header.ascii_serialization()
    );
}

#[test]
fn request_method_conversion() {
    let method = "POST";
    let parsed_method = AccessControlRequestMethod::from_str(method).unwrap();
    assert!(matches!(
        parsed_method,
        AccessControlRequestMethod(Method(HttpMethod::Post))
    ));

    let method = "options";
    let parsed_method = AccessControlRequestMethod::from_str(method).unwrap();
    assert!(matches!(
        parsed_method,
        AccessControlRequestMethod(Method(HttpMethod::Options))
    ));

    let method = "INVALID";
    assert!(AccessControlRequestMethod::from_str(method).is_err());
}

#[test]
fn request_method_parsing() {
    let outcome = AccessControlRequestMethod::from_request_sync(Some("GET"));
    let parsed_header = match outcome {
        RequestOutcome::Success(s) => s,
        other => panic!("Expected a success, got {:?}", other),
    };
    let AccessControlRequestMethod(parsed_method) = parsed_header;
    assert_eq!("GET", parsed_method.as_str());
}

#[test]
fn request_headers_conversion() {
    let headers = ["foo", "bar", "baz"];
    let parsed_headers = AccessControlRequestHeaders::from_str(&headers.join(", ")).unwrap();
    let expected_headers: HeaderFieldNamesSet = headers
        .iter()
        .map(|s| HeaderFieldName::from_string((*s).to_string()))
        .collect();
    let AccessControlRequestHeaders(actual_headers) = parsed_headers;
    assert_eq!(actual_headers, expected_headers);
}

#[test]
fn request_headers_parsing() {
    let outcome = AccessControlRequestHeaders::from_request_sync(Some("accept-language, date"));
    let parsed_header = match outcome {
        RequestOutcome::Success(s) => s,
        other => panic!("Expected a success, got {:?}", other),
    };
    let AccessControlRequestHeaders(parsed_headers) = parsed_header;
    let mut parsed_headers: Vec<String> = parsed_headers
        .iter()
        .map(|h| h.as_str().to_string())
        .collect();
    parsed_headers.sort();
    assert_eq!(
        vec!["accept-language".to_string(), "date".to_string()],
        parsed_headers
    );
}

// Further cases of the header parsing.

#[test]
fn null_origin_in_any_case() {
    assert_eq!(Origin::from_str("null").unwrap(), Origin::Null);
    assert_eq!(Origin::from_str("NuLL").unwrap(), Origin::Null);
    assert_eq!(Origin::Null.ascii_serialization(), "null");
}

#[test]
fn opaque_origin_keeps_its_text() {
    let parsed = Origin::from_str("moz-extension://abc/def").unwrap();
    assert_eq!(parsed, Origin::Opaque("moz-extension://abc/def".to_string()));
    assert_eq!(parsed.ascii_serialization(), "moz-extension://abc/def");
}

#[test]
fn origin_default_port_is_dropped() {
    let parsed = Origin::from_str("https://foo.bar.xyz:443").unwrap();
    assert_eq!(parsed.ascii_serialization(), "https://foo.bar.xyz");
    assert!(parsed.is_tuple());
}

#[test]
fn origin_request_outcomes() {
    assert!(matches!(Origin::from_request_sync(None), RequestOutcome::Forward));
    match Origin::from_request_sync(Some("invalid_url")) {
        RequestOutcome::Failure(code, e) => {
            assert_eq!(code, 400);
            assert!(matches!(e, rocket_cors::Error::BadOrigin(_)));
        }
        other => panic!("Expected a failure, got {:?}", other),
    }
}

#[test]
fn request_method_outcomes() {
    assert!(matches!(
        AccessControlRequestMethod::from_request_sync(None),
        RequestOutcome::Forward
    ));
    match AccessControlRequestMethod::from_request_sync(Some("FETCH")) {
        RequestOutcome::Failure(code, e) => {
            assert_eq!(code, 400);
            assert!(matches!(e, rocket_cors::Error::BadRequestMethod));
        }
        other => panic!("Expected a failure, got {:?}", other),
    }
}

#[test]
fn request_headers_are_a_caseless_set() {
    let parsed = AccessControlRequestHeaders::from_str(" X-Ping ,accept, x-ping,,Accept ").unwrap();
    let names: Vec<String> = parsed.0.iter().map(|h| h.as_str().to_string()).collect();
    assert_eq!(names, vec!["X-Ping".to_string(), "accept".to_string(), "".to_string()]);
}

#[test]
fn blank_request_headers_are_empty() {
    let parsed = AccessControlRequestHeaders::from_str("  \t ").unwrap();
    assert!(parsed.0.is_empty());
    assert!(matches!(
        AccessControlRequestHeaders::from_request_sync(None),
        RequestOutcome::Forward
    ));
}

#[test]
fn header_names_compare_without_case() {
    assert_eq!(HeaderFieldName::new("Accept"), HeaderFieldName::new("aCCEPT"));
    assert_ne!(HeaderFieldName::new("Accept"), HeaderFieldName::new("Accepts"));
    assert_eq!(HeaderFieldName::new("Maße"), HeaderFieldName::new("MASSE"));
}

#[test]
fn method_names_roundtrip() {
    for m in [
        HttpMethod::Get,
        HttpMethod::Put,
        HttpMethod::Post,
        HttpMethod::Delete,
        HttpMethod::Options,
        HttpMethod::Head,
        HttpMethod::Trace,
        HttpMethod::Connect,
        HttpMethod::Patch,
    ] {
        let name = Method(m).as_str();
        assert_eq!(Method::from_str(name), Ok(Method(m)));
        assert_eq!(Method::from_str(&name.to_lowercase()), Ok(Method(m)));
    }
}
