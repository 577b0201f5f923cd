//! The decisions of the three ways of using CORS with Rocket: the fairing
//! (validate every request, reroute failed ones to an error route, and add the
//! CORS headers to every response), the request guard, and the manual
//! responder. Rocket itself runs them and carries out what they decide.

use vstd::prelude::*;

use crate::error::{error_status, Error, ErrorView};
use crate::external::status_code_known;
use crate::headers::{origin_text, parse_origin, RequestOutcome};
use crate::method::HttpMethod;
use crate::options::{Cors, CorsView};
use crate::response::{Response, ResponseView};
use crate::text::{decimal_chars, decimal_string, parse_u16, u16_from_decimal};
use crate::validation::{
    actual_request_response, actual_response_view, build_response, origin, preflight_response,
    preflight_response_view, request_headers, requested_headers, validate, validate_and_build,
    validate_request, CorsRequest, RequestView,
};

verus! {

/// What the fairing does with an incoming request.
#[derive(Debug, PartialEq, Eq)]
pub enum FairingRequestDecision {
    /// The request passed the CORS checks and goes to its route.
    Proceed,
    /// The request failed the CORS checks: it is turned into a `GET` of the
    /// fairing's error route `uri`, which answers with `status`.
    Reroute { status: u16, uri: String },
}

/// The path of the fairing's error route for a status: the route base, a
/// slash and the status code.
pub open spec fn error_route_path(base: Seq<char>, status: u16) -> Seq<char> {
    base + seq!['/'] + decimal_chars(status as nat)
}

/// The path of the fairing's error route for a status.
pub fn fairing_error_uri(base: &str, status: u16) -> (res: String)
    ensures
        res@ == error_route_path(base@, status),
{
    proof {
        reveal_strlit("/");
        assert("/"@ =~= seq!['/']);
    }
    let s = String::from_str(base);
    let s = s.concat("/");
    let code = decimal_string(status as usize);
    s.concat(code.as_str())
}

/// Whether rocket's `Status::from_code` knows a status code: the standard codes
/// it names.
pub open spec fn known_status_code(code: u16) -> bool {
    match code {
        100 | 101 | 102 => true,
        200 | 201 | 202 | 203 | 204 | 205 | 206 | 207 | 208 | 226 => true,
        300 | 301 | 302 | 303 | 304 | 305 | 307 | 308 => true,
        400 | 401 | 402 | 403 | 404 | 405 | 406 | 407 | 408 | 409 | 410 | 411 | 412 | 413 | 414
        | 415 | 416 | 417 | 418 | 421 | 422 | 423 | 424 | 426 | 428 | 429 | 431 | 451 => true,
        500 | 501 | 502 | 503 | 504 | 505 | 506 | 507 | 508 | 510 | 511 => true,
        _ => false,
    }
}

/// The status the fairing's error route answers with, given the path segment
/// after the route base: the code the segment names when rocket knows it, and
/// 500 otherwise (a segment that is no 16-bit decimal number counts as 500, a
/// missing one as 0).
pub open spec fn error_route_status_of(segment: Option<Seq<char>>) -> u16 {
    let code: u16 = match segment {
        None => 0,
        Some(s) => match u16_from_decimal(s) {
            Some(n) => n,
            None => 500,
        },
    };
    if known_status_code(code) {
        code
    } else {
        500
    }
}

/// The status the fairing's error route answers with, given the path segment
/// after the route base.
pub fn error_route_status(segment: Option<&str>) -> (res: u16)
    ensures
        res == error_route_status_of(
            match segment {
                Some(s) => Some(s@),
                None => None,
            },
        ),
{
    let code: u16 = match segment {
        None => 0,
        Some(s) => match parse_u16(s) {
            Some(n) => n,
            None => 500,
        },
    };
    if status_code_known(code) {
        code
    } else {
        500
    }
}

/// What the fairing decides for an incoming request: it proceeds when the
/// request passes validation, and is rerouted to the error route of the
/// error's status otherwise.
pub open spec fn on_request_decision(c: CorsView, r: RequestView) -> Option<(u16, Seq<char>)> {
    match validate_request(c, r) {
        Ok(_) => None,
        Err(e) => Some((error_status(e), error_route_path(c.fairing_route_base, error_status(e)))),
    }
}

/// Decides what the fairing does with an incoming request.
pub fn fairing_on_request(options: &Cors, request: &CorsRequest) -> (res: FairingRequestDecision)
    ensures
        match on_request_decision(options@, request@) {
            None => res is Proceed,
            Some((status, uri)) => res matches FairingRequestDecision::Reroute {
                status: s,
                uri: u,
            } && s == status && u@ == uri,
        },
{
    match validate(options, request) {
        Ok(_) => FairingRequestDecision::Proceed,
        Err(err) => {
            let status = err.status();
            let uri = fairing_error_uri(options.fairing_route_base().as_str(), status);
            FairingRequestDecision::Reroute { status, uri }
        },
    }
}

/// What the fairing does with a response.
#[derive(Debug)]
pub enum FairingResponseAction {
    /// The response is left as it is.
    Leave,
    /// The CORS response is merged into the response; when `no_content` is
    /// set, the response also becomes a `204 No Content` without a body.
    Merge { response: Response, no_content: bool },
}

/// What the fairing does with a response, with the CORS response as its view.
pub enum FairingResponseView {
    Leave,
    Merge { response: ResponseView, no_content: bool },
}

impl View for FairingResponseAction {
    type V = FairingResponseView;

    open spec fn view(&self) -> FairingResponseView {
        match self {
            FairingResponseAction::Leave => FairingResponseView::Leave,
            FairingResponseAction::Merge { response, no_content } => FairingResponseView::Merge {
                response: response@,
                no_content: *no_content,
            },
        }
    }
}

/// What the fairing does with the response to a request, given whether the
/// request passed validation and whether a route handled it.
///
/// A request that failed validation is left alone: it was rerouted to the
/// error route, whose status stands. Otherwise a request without `Origin` is
/// left alone, and an unparsable `Origin` is an error. Otherwise the preflight
/// or actual response is merged in, and an `OPTIONS` request that no route
/// handled becomes a `204 No Content`.
pub open spec fn on_response_decision(
    c: CorsView,
    r: RequestView,
    validated: bool,
    route_found: bool,
) -> Result<FairingResponseView, ErrorView> {
    if !validated {
        Ok(FairingResponseView::Leave)
    } else {
        match r.origin {
            None => Ok(FairingResponseView::Leave),
            Some(oh) => match parse_origin(oh) {
                None => Err(ErrorView::BadOrigin),
                Some(o) => {
                    let origin = origin_text(o);
                    if r.method == HttpMethod::Options {
                        Ok(
                            FairingResponseView::Merge {
                                response: preflight_response_view(
                                    c,
                                    origin,
                                    requested_headers(r.request_headers),
                                ),
                                no_content: !route_found,
                            },
                        )
                    } else {
                        Ok(
                            FairingResponseView::Merge {
                                response: actual_response_view(c, origin),
                                no_content: false,
                            },
                        )
                    }
                },
            },
        }
    }
}

/// Decides what the fairing does with the response to a request.
pub fn fairing_on_response(
    options: &Cors,
    request: &CorsRequest,
    validated: bool,
    route_found: bool,
) -> (res: Result<FairingResponseAction, Error>)
    ensures
        match on_response_decision(options@, request@, validated, route_found) {
            Ok(a) => res matches Ok(r) && r@ == a,
            Err(e) => res matches Err(err) && err@ == e,
        },
{
    if !validated {
        return Ok(FairingResponseAction::Leave);
    }
    let origin = match origin(request)? {
        None => {
            return Ok(FairingResponseAction::Leave);
        },
        Some(origin) => origin,
    };
    let origin = origin.ascii_serialization();
    match request.method {
        HttpMethod::Options => {
            let headers = request_headers(request)?;
            let h = match &headers {
                Some(h) => Some(h),
                None => None,
            };
            let response = preflight_response(options, origin.as_str(), h);
            Ok(FairingResponseAction::Merge { response, no_content: !route_found })
        },
        _ => {
            let response = actual_request_response(options, origin.as_str());
            Ok(FairingResponseAction::Merge { response, no_content: false })
        },
    }
}

/// What the request guard derives from a request: a failure with status 500
/// when no `Cors` is managed by Rocket, the CORS response when the request is
/// valid, and a failure with the error's status otherwise.
pub fn guard_outcome(options: Option<&Cors>, request: &CorsRequest) -> (res: RequestOutcome<
    Response,
>)
    ensures
        match options {
            None => res matches RequestOutcome::Failure(code, e) && code == 500 && e@
                == ErrorView::MissingCorsInRocketState,
            Some(c) => match build_response(c@, request@) {
                Ok(r) => res matches RequestOutcome::Success(resp) && resp@ == r,
                Err(e) => res matches RequestOutcome::Failure(code, err) && code == error_status(
                    e,
                ) && err@ == e,
            },
        },
{
    let options = match options {
        Some(c) => c,
        None => {
            return RequestOutcome::Failure(500, Error::MissingCorsInRocketState);
        },
    };
    match validate_and_build(options, request) {
        Ok(response) => RequestOutcome::Success(response),
        Err(error) => {
            let status = error.status();
            RequestOutcome::Failure(status, error)
        },
    }
}

} // verus!
