//! Validation of CORS requests, following the resource processing model of
//! the W3C CORS recommendation and the Fetch specification, and the responses
//! built for valid requests.

use vstd::prelude::*;

use crate::error::{Error, ErrorView};
use crate::headers::{
    origin_text, parse_origin, parse_request_headers, AccessControlRequestHeaders,
    AccessControlRequestMethod, Origin, OriginView, RequestOutcome,
};
use crate::method::{method_name, HttpMethod, Method};
use crate::options::{AllowedHeaders, AllowedMethods, Cors, CorsView, allowed_headers_view};
use crate::origins::{origin_allowed, AllOrSome, ParsedAllowedOrigins, ParsedOriginsView};
use crate::response::{empty_response, Response, ResponseView};
use crate::text::{caseless_dedup, caseless_in, method_from_name, strings_view, strs_view};

verus! {

/// What the validation reads of a request: its method and the values of its
/// `Origin`, `Access-Control-Request-Method` and `Access-Control-Request-Headers`
/// headers, when present.
#[derive(Debug, Clone)]
pub struct CorsRequest {
    /// The method of the request
    pub method: HttpMethod,
    /// The `Origin` header
    pub origin: Option<String>,
    /// The `Access-Control-Request-Method` header
    pub request_method: Option<String>,
    /// The `Access-Control-Request-Headers` header
    pub request_headers: Option<String>,
}

/// The view of an optional string.
pub open spec fn opt_view(s: Option<String>) -> Option<Seq<char>> {
    match s {
        Some(s) => Some(s@),
        None => None,
    }
}

/// What the validation reads of a request.
pub struct RequestView {
    pub method: HttpMethod,
    pub origin: Option<Seq<char>>,
    pub request_method: Option<Seq<char>>,
    pub request_headers: Option<Seq<char>>,
}

impl View for CorsRequest {
    type V = RequestView;

    open spec fn view(&self) -> RequestView {
        RequestView {
            method: self.method,
            origin: opt_view(self.origin),
            request_method: opt_view(self.request_method),
            request_headers: opt_view(self.request_headers),
        }
    }
}

/// Result of CORS validation; the variants hold enough information to build a
/// response.
#[derive(Debug, PartialEq)]
pub enum ValidationResult {
    /// Not a CORS request
    NotCors,
    /// Successful preflight request
    Preflight { origin: String, headers: Option<AccessControlRequestHeaders> },
    /// Successful actual request
    Request { origin: String },
}

/// The result of CORS validation, with texts as characters.
pub enum ValidationView {
    NotCors,
    Preflight { origin: Seq<char>, headers: Option<Seq<Seq<char>>> },
    Request { origin: Seq<char> },
}

impl View for ValidationResult {
    type V = ValidationView;

    open spec fn view(&self) -> ValidationView {
        match self {
            ValidationResult::NotCors => ValidationView::NotCors,
            ValidationResult::Preflight { origin, headers } => ValidationView::Preflight {
                origin: origin@,
                headers: match headers {
                    Some(h) => Some(h@),
                    None => None,
                },
            },
            ValidationResult::Request { origin } => ValidationView::Request { origin: origin@ },
        }
    }
}

/// The check of an origin against the allowed origins.
pub open spec fn check_origin(allowed: AllOrSome<ParsedOriginsView>, o: OriginView) -> Result<
    (),
    ErrorView,
> {
    match allowed {
        AllOrSome::All => Ok(()),
        AllOrSome::Only(p) => if origin_allowed(p, o) {
            Ok(())
        } else {
            Err(ErrorView::OriginNotAllowed(origin_text(o)))
        },
    }
}

/// The check of a requested method against the allowed methods.
pub open spec fn check_method(m: Method, allowed: Seq<Method>) -> Result<(), ErrorView> {
    if allowed.contains(m) {
        Ok(())
    } else {
        Err(ErrorView::MethodNotAllowed(method_name(m.0)))
    }
}

/// Whether requested header names are allowed: all are when all are allowed or
/// none are requested; otherwise each must equal an allowed name after case folding.
pub open spec fn headers_allowed(requested: Seq<Seq<char>>, allowed: AllOrSome<Seq<Seq<char>>>) -> bool {
    match allowed {
        AllOrSome::All => true,
        AllOrSome::Only(a) => requested.len() == 0 || forall|i: int|
            0 <= i < requested.len() ==> caseless_in(#[trigger] requested[i], a),
    }
}

/// The checks of a preflight request, in order: the origin, the presence of a
/// requested method, the method, and the requested headers.
pub open spec fn check_preflight(
    c: CorsView,
    o: OriginView,
    method: Option<Method>,
    headers: Option<Seq<Seq<char>>>,
) -> Result<(), ErrorView> {
    match check_origin(c.allowed_origins, o) {
        Err(e) => Err(e),
        Ok(_) => match method {
            None => Err(ErrorView::MissingRequestMethod),
            Some(m) => match check_method(m, c.allowed_methods) {
                Err(e) => Err(e),
                Ok(_) => match headers {
                    Some(h) => if headers_allowed(h, c.allowed_headers) {
                        Ok(())
                    } else {
                        Err(ErrorView::HeadersNotAllowed)
                    },
                    None => Ok(()),
                },
            },
        },
    }
}

/// The requested method of a preflight request: none when the header is absent,
/// an error when it names no method.
pub open spec fn requested_method(h: Option<Seq<char>>) -> Result<Option<Method>, ErrorView> {
    match h {
        None => Ok(None),
        Some(s) => match method_from_name(s) {
            None => Err(ErrorView::BadRequestMethod),
            Some(m) => Ok(Some(Method(m))),
        },
    }
}

/// The requested headers of a preflight request, when the header is present.
pub open spec fn requested_headers(h: Option<Seq<char>>) -> Option<Seq<Seq<char>>> {
    match h {
        None => None,
        Some(s) => Some(parse_request_headers(s)),
    }
}

/// The validation of a request.
///
/// A request without `Origin` is not a CORS request. Otherwise the origin must
/// parse; an `OPTIONS` request is a preflight request, whose requested method
/// must parse and which must pass the preflight checks; any other request is an
/// actual request, whose origin must be allowed.
pub open spec fn validate_request(c: CorsView, r: RequestView) -> Result<ValidationView, ErrorView> {
    match r.origin {
        None => Ok(ValidationView::NotCors),
        Some(oh) => match parse_origin(oh) {
            None => Err(ErrorView::BadOrigin),
            Some(o) => if r.method == HttpMethod::Options {
                match requested_method(r.request_method) {
                    Err(e) => Err(e),
                    Ok(m) => {
                        let h = requested_headers(r.request_headers);
                        match check_preflight(c, o, m, h) {
                            Err(e) => Err(e),
                            Ok(_) => Ok(ValidationView::Preflight { origin: origin_text(o), headers: h }),
                        }
                    },
                }
            } else {
                match check_origin(c.allowed_origins, o) {
                    Err(e) => Err(e),
                    Ok(_) => Ok(ValidationView::Request { origin: origin_text(o) }),
                }
            },
        },
    }
}

/// The `Access-Control-Allow-Origin` value of a response to an allowed
/// request: "*" when all origins are allowed and a wildcard is sent; otherwise
/// the request's origin, with `Vary: Origin` when all origins are allowed.
pub open spec fn with_origin(c: CorsView, origin: Seq<char>) -> ResponseView {
    let r = empty_response();
    match c.allowed_origins {
        AllOrSome::All => if c.send_wildcard {
            ResponseView { allow_origin: Some(AllOrSome::All), ..r }
        } else {
            ResponseView { allow_origin: Some(AllOrSome::Only(origin)), vary_origin: true, ..r }
        },
        AllOrSome::Only(_) => ResponseView {
            allow_origin: Some(AllOrSome::Only(origin)),
            vary_origin: false,
            ..r
        },
    }
}

/// The response to a valid preflight request: the origin, credentials, max
/// age, all the allowed methods, and exactly the requested headers.
pub open spec fn preflight_response_view(
    c: CorsView,
    origin: Seq<char>,
    headers: Option<Seq<Seq<char>>>,
) -> ResponseView {
    let r = with_origin(c, origin);
    ResponseView {
        allow_credentials: c.allow_credentials,
        max_age: c.max_age,
        allow_methods: c.allowed_methods,
        allow_headers: match headers {
            Some(h) => h,
            None => r.allow_headers,
        },
        ..r
    }
}

/// The response to a valid actual request: the origin, credentials and the
/// exposed headers.
pub open spec fn actual_response_view(c: CorsView, origin: Seq<char>) -> ResponseView {
    let r = with_origin(c, origin);
    ResponseView {
        allow_credentials: c.allow_credentials,
        expose_headers: caseless_dedup(c.expose_headers),
        ..r
    }
}

/// The response built for a validated request.
pub open spec fn response_for(c: CorsView, v: ValidationView) -> ResponseView {
    match v {
        ValidationView::NotCors => empty_response(),
        ValidationView::Preflight { origin, headers } => preflight_response_view(c, origin, headers),
        ValidationView::Request { origin } => actual_response_view(c, origin),
    }
}

/// The response to a request, or the error that refuses it.
pub open spec fn build_response(c: CorsView, r: RequestView) -> Result<ResponseView, ErrorView> {
    match validate_request(c, r) {
        Err(e) => Err(e),
        Ok(v) => Ok(response_for(c, v)),
    }
}

/// Checks an origin against the allowed origins.
pub fn validate_origin(origin: &Origin, allowed_origins: &AllOrSome<ParsedAllowedOrigins>) -> (res:
    Result<(), Error>)
    ensures
        match check_origin(allowed_origins@, origin@) {
            Ok(_) => res is Ok,
            Err(e) => res matches Err(err) && err@ == e,
        },
{
    match allowed_origins {
        AllOrSome::All => Ok(()),
        AllOrSome::Only(allowed) => {
            if allowed.verify(origin) {
                Ok(())
            } else {
                Err(Error::OriginNotAllowed(origin.ascii_serialization()))
            }
        },
    }
}

/// Checks a requested method against the allowed methods.
pub fn validate_allowed_method(
    method: &AccessControlRequestMethod,
    allowed_methods: &AllowedMethods,
) -> (res: Result<(), Error>)
    ensures
        match check_method(method.0, allowed_methods@) {
            Ok(_) => res is Ok,
            Err(e) => res matches Err(err) && err@ == e,
        },
{
    let AccessControlRequestMethod(requested) = method;
    let mut i: usize = 0;
    while i < allowed_methods.len()
        invariant
            i <= allowed_methods.len(),
            method.0 == *requested,
            forall|k: int| 0 <= k < i ==> allowed_methods@[k] != *requested,
        decreases allowed_methods.len() - i,
    {
        if allowed_methods[i].0 == requested.0 {
            assert(allowed_methods@[i as int] == *requested);
            assert(allowed_methods@.contains(*requested));
            return Ok(());
        }
        i = i + 1;
    }
    Err(Error::MethodNotAllowed(String::from_str(requested.as_str())))
}

/// Checks requested headers against the allowed headers.
pub fn validate_allowed_headers(
    headers: &AccessControlRequestHeaders,
    allowed_headers: &AllowedHeaders,
) -> (res: Result<(), Error>)
    ensures
        headers_allowed(headers@, allowed_headers_view(*allowed_headers)) ==> res is Ok,
        !headers_allowed(headers@, allowed_headers_view(*allowed_headers)) ==> (res matches Err(e)
            && e@ == ErrorView::HeadersNotAllowed),
{
    let AccessControlRequestHeaders(requested) = headers;
    match allowed_headers {
        AllOrSome::All => Ok(()),
        AllOrSome::Only(allowed) => {
            if requested.len() == 0 {
                return Ok(());
            }
            let ghost a = allowed_headers_view(*allowed_headers)->Only_0;
            let mut i: usize = 0;
            while i < requested.len()
                invariant
                    i <= requested.len(),
                    a == crate::headers::names_view(allowed@),
                    allowed_headers_view(*allowed_headers) == AllOrSome::<Seq<Seq<char>>>::Only(a),
                    requested@.len() > 0,
                    headers@ == crate::headers::names_view(requested@),
                    forall|k: int| 0 <= k < i ==> caseless_in(#[trigger] headers@[k], a),
                decreases requested.len() - i,
            {
                let name = requested[i].as_str();
                assert(name@ == headers@[i as int]);
                if !crate::headers::contains_name(allowed, name) {
                    assert(!caseless_in(headers@[i as int], a));
                    assert(headers@.len() > 0);
                    return Err(Error::HeadersNotAllowed);
                }
                i = i + 1;
            }
            Ok(())
        },
    }
}

/// The origin of a request: none when the `Origin` header is absent, an error
/// when it does not parse.
pub fn origin(request: &CorsRequest) -> (res: Result<Option<Origin>, Error>)
    ensures
        match request@.origin {
            None => res matches Ok(o) && o is None,
            Some(h) => match parse_origin(h) {
                Some(o) => res matches Ok(Some(r)) && r@ == o,
                None => res matches Err(e) && e@ == ErrorView::BadOrigin,
            },
        },
{
    let header = match &request.origin {
        Some(h) => Some(h.as_str()),
        None => None,
    };
    match Origin::from_request_sync(header) {
        RequestOutcome::Forward => Ok(None),
        RequestOutcome::Success(origin) => Ok(Some(origin)),
        RequestOutcome::Failure(_, err) => Err(err),
    }
}

/// The requested method of a request: none when the
/// `Access-Control-Request-Method` header is absent, an error when it names no
/// method.
pub fn request_method(request: &CorsRequest) -> (res: Result<
    Option<AccessControlRequestMethod>,
    Error,
>)
    ensures
        match requested_method(request@.request_method) {
            Ok(m) => res matches Ok(r) && m == match r {
                Some(r) => Some(r.0),
                None => None::<Method>,
            },
            Err(e) => res matches Err(err) && err@ == e,
        },
{
    let header = match &request.request_method {
        Some(h) => Some(h.as_str()),
        None => None,
    };
    match AccessControlRequestMethod::from_request_sync(header) {
        RequestOutcome::Forward => Ok(None),
        RequestOutcome::Success(method) => Ok(Some(method)),
        RequestOutcome::Failure(_, err) => Err(err),
    }
}

/// The requested headers of a request: none when the
/// `Access-Control-Request-Headers` header is absent.
pub fn request_headers(request: &CorsRequest) -> (res: Result<
    Option<AccessControlRequestHeaders>,
    Error,
>)
    ensures
        res matches Ok(r) && requested_headers(request@.request_headers) == match r {
            Some(h) => Some(h@),
            None => None::<Seq<Seq<char>>>,
        },
{
    let header = match &request.request_headers {
        Some(h) => Some(h.as_str()),
        None => None,
    };
    match AccessControlRequestHeaders::from_request_sync(header) {
        RequestOutcome::Forward => Ok(None),
        RequestOutcome::Success(headers) => Ok(Some(headers)),
        RequestOutcome::Failure(_, err) => Err(err),
    }
}

/// The checks of a preflight request.
pub fn preflight_validate(
    options: &Cors,
    origin: &Origin,
    method: &Option<AccessControlRequestMethod>,
    headers: &Option<AccessControlRequestHeaders>,
) -> (res: Result<(), Error>)
    ensures
        match check_preflight(
            options@,
            origin@,
            match method {
                Some(m) => Some(m.0),
                None => None::<Method>,
            },
            match headers {
                Some(h) => Some(h@),
                None => None::<Seq<Seq<char>>>,
            },
        ) {
            Ok(_) => res is Ok,
            Err(e) => res matches Err(err) && err@ == e,
        },
{
    validate_origin(origin, options.allowed_origins())?;
    let method = match method {
        Some(m) => m,
        None => {
            return Err(Error::MissingRequestMethod);
        },
    };
    validate_allowed_method(method, options.allowed_methods())?;
    if let Some(headers) = headers {
        validate_allowed_headers(headers, options.allowed_headers())?;
    }
    Ok(())
}

/// The response with the origin that answers an allowed request.
fn response_with_origin(options: &Cors, origin: &str) -> (res: Response)
    ensures
        res@ == with_origin(options@, origin@),
{
    let response = Response::new();
    match options.allowed_origins() {
        AllOrSome::All => {
            if options.send_wildcard() {
                response.any()
            } else {
                response.origin(origin, true)
            }
        },
        AllOrSome::Only(_) => response.origin(origin, false),
    }
}

/// Builds the response to a valid preflight request.
pub fn preflight_response(
    options: &Cors,
    origin: &str,
    headers: Option<&AccessControlRequestHeaders>,
) -> (res: Response)
    ensures
        res@ == preflight_response_view(
            options@,
            origin@,
            match headers {
                Some(h) => Some(h@),
                None => None::<Seq<Seq<char>>>,
            },
        ),
{
    let response = response_with_origin(options, origin);
    let response = response.credentials(options.allow_credentials());
    let response = response.max_age(options.max_age());
    let response = response.methods(options.allowed_methods());
    match headers {
        Some(headers) => {
            let AccessControlRequestHeaders(names) = headers;
            response.header_names(names)
        },
        None => response,
    }
}

/// The checks of an actual request: its origin must be allowed.
pub fn actual_request_validate(options: &Cors, origin: &Origin) -> (res: Result<(), Error>)
    ensures
        match check_origin(options@.allowed_origins, origin@) {
            Ok(_) => res is Ok,
            Err(e) => res matches Err(err) && err@ == e,
        },
{
    validate_origin(origin, options.allowed_origins())?;
    Ok(())
}

/// Builds the response to a valid actual request.
pub fn actual_request_response(options: &Cors, origin: &str) -> (res: Response)
    ensures
        res@ == actual_response_view(options@, origin@),
{
    let response = response_with_origin(options, origin);
    let response = response.credentials(options.allow_credentials());
    let exposed = options.expose_headers();
    let mut names: Vec<&str> = Vec::new();
    let mut i: usize = 0;
    while i < exposed.len()
        invariant
            i <= exposed.len(),
            strs_view(names@) == strings_view(exposed@).take(i as int),
        decreases exposed.len() - i,
    {
        let ghost before = names@;
        names.push(exposed[i].as_str());
        assert(strs_view(names@) =~= strings_view(exposed@).take(i + 1)) by {
            assert(strs_view(names@) =~= strs_view(before).push(exposed@[i as int]@));
        }
        i = i + 1;
    }
    assert(strings_view(exposed@).take(exposed.len() as int) =~= strings_view(exposed@));
    response.exposed_headers(names.as_slice())
}

/// Validates a CORS request.
pub fn validate(options: &Cors, request: &CorsRequest) -> (res: Result<ValidationResult, Error>)
    ensures
        match validate_request(options@, request@) {
            Ok(v) => res matches Ok(r) && r@ == v,
            Err(e) => res matches Err(err) && err@ == e,
        },
{
    let origin = match origin(request)? {
        None => {
            return Ok(ValidationResult::NotCors);
        },
        Some(origin) => origin,
    };
    match request.method {
        HttpMethod::Options => {
            let method = request_method(request)?;
            let headers = request_headers(request)?;
            preflight_validate(options, &origin, &method, &headers)?;
            Ok(ValidationResult::Preflight { origin: origin.ascii_serialization(), headers })
        },
        _ => {
            actual_request_validate(options, &origin)?;
            Ok(ValidationResult::Request { origin: origin.ascii_serialization() })
        },
    }
}

/// Validates a request for CORS and builds the CORS response for it.
pub fn validate_and_build(options: &Cors, request: &CorsRequest) -> (res: Result<Response, Error>)
    ensures
        match build_response(options@, request@) {
            Ok(r) => res matches Ok(resp) && resp@ == r,
            Err(e) => res matches Err(err) && err@ == e,
        },
{
    let result = validate(options, request)?;
    let response = match result {
        ValidationResult::NotCors => Response::new(),
        ValidationResult::Preflight { origin, headers } => {
            let h = match &headers {
                Some(h) => Some(h),
                None => None,
            };
            preflight_response(options, origin.as_str(), h)
        },
        ValidationResult::Request { origin } => actual_request_response(options, origin.as_str()),
    };
    Ok(response)
}

impl Response {
    /// Validates a request for CORS and builds the CORS response for it.
    pub fn validate_and_build(options: &Cors, request: &CorsRequest) -> (res: Result<Response, Error>)
        ensures
            match build_response(options@, request@) {
                Ok(r) => res matches Ok(resp) && resp@ == r,
                Err(e) => res matches Err(err) && err@ == e,
            },
    {
        validate_and_build(options, request)
    }
}

} // verus!
