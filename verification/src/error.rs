//! Errors during CORS configuration and request validation.

use vstd::prelude::*;
use regex::Error as RegexCompileError;

use crate::external::regex_error_text;
use crate::text::{join, join_strings, strings_view};

verus! {

/// Errors during operations.
///
/// Because these errors are usually the result of an error while trying to
/// respond to a CORS request, CORS headers cannot be added to the response and
/// the applications requesting CORS will not be able to see the status code.
#[derive(Debug)]
pub enum Error {
    /// The HTTP request header `Origin` is required but was not provided
    MissingOrigin,
    /// The HTTP request header `Origin` could not be parsed correctly.
    BadOrigin(url::ParseError),
    /// The configured Allowed Origins are Opaque origins. Use a Regex instead.
    OpaqueAllowedOrigin(Vec<String>),
    /// The request header `Access-Control-Request-Method` is required but is missing
    MissingRequestMethod,
    /// The request header `Access-Control-Request-Method` has an invalid value
    BadRequestMethod,
    /// The request header `Access-Control-Request-Headers`  is required but is missing.
    MissingRequestHeaders,
    /// Origin is not allowed to make this request
    OriginNotAllowed(String),
    /// Requested method is not allowed
    MethodNotAllowed(String),
    /// A regular expression compilation error
    RegexError(RegexCompileError),
    /// One or more headers requested are not allowed
    HeadersNotAllowed,
    /// Credentials are allowed, but the Origin is set to "*". This is not allowed by W3C
    CredentialsWithWildcardOrigin,
    /// A CORS Request Guard was used, but no CORS Options was available in Rocket's state
    MissingCorsInRocketState,
    /// The `on_response` handler of Fairing could not find the injected header from the Request.
    MissingInjectedHeader,
}

/// An `Error` with its text payloads taken as character sequences; the payloads
/// of the `url` and `regex` errors are left out.
pub enum ErrorView {
    MissingOrigin,
    BadOrigin,
    OpaqueAllowedOrigin(Seq<Seq<char>>),
    MissingRequestMethod,
    BadRequestMethod,
    MissingRequestHeaders,
    OriginNotAllowed(Seq<char>),
    MethodNotAllowed(Seq<char>),
    RegexError,
    HeadersNotAllowed,
    CredentialsWithWildcardOrigin,
    MissingCorsInRocketState,
    MissingInjectedHeader,
}

impl View for Error {
    type V = ErrorView;

    open spec fn view(&self) -> ErrorView {
        match self {
            Error::MissingOrigin => ErrorView::MissingOrigin,
            Error::BadOrigin(_) => ErrorView::BadOrigin,
            Error::OpaqueAllowedOrigin(v) => ErrorView::OpaqueAllowedOrigin(strings_view(v@)),
            Error::MissingRequestMethod => ErrorView::MissingRequestMethod,
            Error::BadRequestMethod => ErrorView::BadRequestMethod,
            Error::MissingRequestHeaders => ErrorView::MissingRequestHeaders,
            Error::OriginNotAllowed(o) => ErrorView::OriginNotAllowed(o@),
            Error::MethodNotAllowed(m) => ErrorView::MethodNotAllowed(m@),
            Error::RegexError(_) => ErrorView::RegexError,
            Error::HeadersNotAllowed => ErrorView::HeadersNotAllowed,
            Error::CredentialsWithWildcardOrigin => ErrorView::CredentialsWithWildcardOrigin,
            Error::MissingCorsInRocketState => ErrorView::MissingCorsInRocketState,
            Error::MissingInjectedHeader => ErrorView::MissingInjectedHeader,
        }
    }
}

/// The HTTP status code answered for an error: 403 when the request is not
/// allowed, 500 for a misconfiguration, 400 otherwise.
pub open spec fn error_status(e: ErrorView) -> u16 {
    match e {
        ErrorView::MissingOrigin
        | ErrorView::OriginNotAllowed(_)
        | ErrorView::MethodNotAllowed(_)
        | ErrorView::HeadersNotAllowed => 403,
        ErrorView::CredentialsWithWildcardOrigin
        | ErrorView::MissingCorsInRocketState
        | ErrorView::MissingInjectedHeader => 500,
        _ => 400,
    }
}

/// The message of an error; that of `RegexError` is the regex error's own text
/// and is not given here.
pub open spec fn error_message(e: ErrorView) -> Seq<char> {
    match e {
        ErrorView::MissingOrigin => "The request header `Origin` is required but is missing"@,
        ErrorView::BadOrigin => "The request header `Origin` contains an invalid URL"@,
        ErrorView::MissingRequestMethod =>
            "The request header `Access-Control-Request-Method` is required but is missing"@,
        ErrorView::BadRequestMethod =>
            "The request header `Access-Control-Request-Method` has an invalid value"@,
        ErrorView::MissingRequestHeaders =>
            "The request header `Access-Control-Request-Headers` is required but is missing"@,
        ErrorView::OriginNotAllowed(o) => "Origin '"@ + o + "' is not allowed to request"@,
        ErrorView::MethodNotAllowed(m) => "Method '"@ + m + "' is not allowed"@,
        ErrorView::HeadersNotAllowed => "Headers are not allowed"@,
        ErrorView::CredentialsWithWildcardOrigin =>
            "Credentials are allowed, but the Origin is set to \"*\". This is not allowed by W3C"@,
        ErrorView::MissingCorsInRocketState =>
            "A CORS Request Guard was used, but no CORS Options was available in Rocket's state"@,
        ErrorView::MissingInjectedHeader =>
            "The `on_response` handler of Fairing could not find the injected header from the Request. Either some other fairing has removed it, or this is a bug."@,
        ErrorView::OpaqueAllowedOrigin(origins) => "The configured Origins '"@ + join(
            origins,
            "; "@,
        ) + "' are Opaque Origins. Use regex instead."@,
        ErrorView::RegexError => Seq::<char>::empty(),
    }
}

impl Error {
    /// The HTTP status code to answer with for this error.
    pub fn status(&self) -> (code: u16)
        ensures
            code == error_status(self@),
    {
        match self {
            Error::MissingOrigin
            | Error::OriginNotAllowed(_)
            | Error::MethodNotAllowed(_)
            | Error::HeadersNotAllowed => 403,
            Error::CredentialsWithWildcardOrigin
            | Error::MissingCorsInRocketState
            | Error::MissingInjectedHeader => 500,
            _ => 400,
        }
    }

    /// The human readable description of the error.
    pub fn message(&self) -> (res: String)
        ensures
            !(self@ is RegexError) ==> res@ == error_message(self@),
    {
        match self {
            Error::MissingOrigin => String::from_str(
                "The request header `Origin` is required but is missing",
            ),
            Error::BadOrigin(_) => String::from_str(
                "The request header `Origin` contains an invalid URL",
            ),
            Error::MissingRequestMethod => String::from_str(
                "The request header `Access-Control-Request-Method` is required but is missing",
            ),
            Error::BadRequestMethod => String::from_str(
                "The request header `Access-Control-Request-Method` has an invalid value",
            ),
            Error::MissingRequestHeaders => String::from_str(
                "The request header `Access-Control-Request-Headers` is required but is missing",
            ),
            Error::OriginNotAllowed(origin) => {
                let s = String::from_str("Origin '");
                let s = s.concat(origin.as_str());
                s.concat("' is not allowed to request")
            },
            Error::MethodNotAllowed(method) => {
                let s = String::from_str("Method '");
                let s = s.concat(method.as_str());
                s.concat("' is not allowed")
            },
            Error::HeadersNotAllowed => String::from_str("Headers are not allowed"),
            Error::CredentialsWithWildcardOrigin => String::from_str(
                "Credentials are allowed, but the Origin is set to \"*\". This is not allowed by W3C",
            ),
            Error::MissingCorsInRocketState => String::from_str(
                "A CORS Request Guard was used, but no CORS Options was available in Rocket's state",
            ),
            Error::MissingInjectedHeader => String::from_str(
                "The `on_response` handler of Fairing could not find the injected header from the Request. Either some other fairing has removed it, or this is a bug.",
            ),
            Error::OpaqueAllowedOrigin(origins) => {
                let s = String::from_str("The configured Origins '");
                let joined = join_strings(origins, "; ");
                let s = s.concat(joined.as_str());
                s.concat("' are Opaque Origins. Use regex instead.")
            },
            Error::RegexError(e) => regex_error_text(e),
        }
    }
}

impl From<url::ParseError> for Error {
    /// A URL that does not parse is a bad origin.
    fn from(error: url::ParseError) -> (res: Self) {
        Error::BadOrigin(error)
    }
}

impl vstd::std_specs::convert::FromSpecImpl<url::ParseError> for Error {
    open spec fn obeys_from_spec() -> bool {
        true
    }

    open spec fn from_spec(v: url::ParseError) -> Self {
        Error::BadOrigin(v)
    }
}

impl From<RegexCompileError> for Error {
    /// A pattern that does not compile is a regex error.
    fn from(error: RegexCompileError) -> (res: Self) {
        Error::RegexError(error)
    }
}

impl vstd::std_specs::convert::FromSpecImpl<RegexCompileError> for Error {
    open spec fn obeys_from_spec() -> bool {
        true
    }

    open spec fn from_spec(v: RegexCompileError) -> Self {
        Error::RegexError(v)
    }
}

} // verus!
