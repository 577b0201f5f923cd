//! The calls this crate makes into `url`, `regex`, `unicase`, `rocket` and std,
//! each with the contract it is trusted to meet.

use vstd::prelude::*;
use regex::Error as RegexCompileError;

use rocket::http::Method as RocketMethod;
use rocket::Response as RocketResponse;

use crate::method::HttpMethod;
use crate::response::{apply_op, HeaderOpView};
use crate::handlers::known_status_code;
use crate::text::{ascii_caseless_eq, ascii_lowercase, method_from_name};

verus! {

/// `url::ParseError`, carried through unchanged inside `Error::BadOrigin`.
#[verifier::external_type_specification]
#[verifier::external_body]
pub struct ExUrlParseError(url::ParseError);

/// `regex::Error`, carried through unchanged inside `Error::RegexError`.
#[verifier::external_type_specification]
#[verifier::external_body]
pub struct ExRegexError(RegexCompileError);

/// `regex::RegexSet`, the compiled form of the configured origin patterns.
#[verifier::external_type_specification]
#[verifier::external_body]
pub struct ExRegexSet(regex::RegexSet);

/// `rocket::Response`, whose headers the CORS response is written over.
#[verifier::external_type_specification]
#[verifier::external_body]
pub struct ExRocketResponse<'r>(RocketResponse<'r>);

/// The headers of a rocket response: for each header name, with names compared
/// ignoring ASCII case (the key is the name in ASCII lowercase), its values in
/// order.
pub uninterp spec fn response_headers(response: RocketResponse<'_>) -> Map<Seq<char>, Seq<Seq<char>>>;

/// The status code of a rocket response, as `Response::status` gives it.
pub uninterp spec fn response_status(response: RocketResponse<'_>) -> u16;

/// Whether `url::Url::parse` accepts `input` as an absolute URL.
pub uninterp spec fn url_parses(input: Seq<char>) -> bool;

/// Whether `url::Url::origin` of the URL parsed from `input` is a
/// (scheme, host, port) tuple rather than an opaque origin.
pub uninterp spec fn url_origin_is_tuple(input: Seq<char>) -> bool;

/// What `url::Origin::ascii_serialization` gives for the origin of the URL
/// parsed from `input`.
pub uninterp spec fn url_origin_ascii(input: Seq<char>) -> Seq<char>;

/// Whether `regex::RegexSet::new` accepts every pattern of the list.
pub uninterp spec fn regex_patterns_compile(patterns: Seq<Seq<char>>) -> bool;

/// The patterns a `regex::RegexSet` was built from, in order.
pub uninterp spec fn regex_set_patterns(set: regex::RegexSet) -> Seq<Seq<char>>;

/// Whether a `regex::RegexSet` was built by `RegexSet::new`, that is with the
/// default options of `RegexSetBuilder`, or is a clone of such a set (a clone
/// shares the compiled program of the set it was cloned from).
pub uninterp spec fn regex_set_built_by_new(set: regex::RegexSet) -> bool;

/// What `regex::RegexSet::is_match` answers for a set built by `RegexSet::new`
/// from `patterns`.
pub uninterp spec fn regex_set_is_match(patterns: Seq<Seq<char>>, text: Seq<char>) -> bool;

/// What `unicase::eq` answers: equality after Unicode case folding.
pub uninterp spec fn unicase_eq(a: Seq<char>, b: Seq<char>) -> bool;

/// What `str::to_lowercase` gives.
pub uninterp spec fn str_lowercase(s: Seq<char>) -> Seq<char>;

/// Parses `input` with `url::Url::parse`, takes its `url::Url::origin` and, for a
/// tuple origin, its `url::Origin::ascii_serialization`.
///
/// Claimed: the call fails exactly when the URL does not parse; it gives `None`
/// for an opaque origin and the serialization of a tuple origin otherwise. The
/// three results are named, since the URL standard's parsing is not restated here.
#[verifier::external_body]
pub(crate) fn parse_url_origin(input: &str) -> (res: Result<Option<String>, url::ParseError>)
    ensures
        res is Ok <==> url_parses(input@),
        res matches Ok(o) ==> (o is Some <==> url_origin_is_tuple(input@)),
        res matches Ok(Some(s)) ==> s@ == url_origin_ascii(input@),
{
    match url::Url::parse(input) {
        Ok(url) => match url.origin() {
            url::Origin::Opaque(_) => Ok(None),
            tuple => Ok(Some(tuple.ascii_serialization())),
        },
        Err(e) => Err(e),
    }
}

/// `regex::RegexSet::new` over the given patterns.
///
/// Claimed: it succeeds exactly when the patterns compile (named), the set
/// remembers its patterns in the order given, as `RegexSet::patterns` shows,
/// and it is built with the default options.
#[verifier::external_body]
pub(crate) fn regex_set_new(patterns: &Vec<String>) -> (res: Result<regex::RegexSet, RegexCompileError>)
    ensures
        res is Ok <==> regex_patterns_compile(patterns@.map_values(|p: String| p@)),
        res matches Ok(set) ==> regex_set_patterns(set) == patterns@.map_values(|p: String| p@),
        res matches Ok(set) ==> regex_set_built_by_new(set),
{
    regex::RegexSet::new(patterns)
}

/// `regex::RegexSet::is_match`.
///
/// Claimed, for a set built by `RegexSet::new`: the answer is the named
/// matching relation applied to the set's patterns and the text; which texts
/// match is not restated here. A set built with other options (say, case
/// insensitive) may answer otherwise, so such sets are not accepted.
#[verifier::external_body]
pub(crate) fn regex_set_matches(set: &regex::RegexSet, text: &str) -> (res: bool)
    requires
        regex_set_built_by_new(*set),
    ensures
        res == regex_set_is_match(regex_set_patterns(*set), text@),
{
    set.is_match(text)
}

/// `regex::RegexSet::clone`.
///
/// Claimed: the clone has the same patterns and, as it shares the compiled
/// program, answers as the original does.
#[verifier::external_body]
pub(crate) fn regex_set_clone(set: &regex::RegexSet) -> (res: regex::RegexSet)
    ensures
        regex_set_patterns(res) == regex_set_patterns(*set),
        regex_set_built_by_new(res) == regex_set_built_by_new(*set),
{
    set.clone()
}

/// `rocket::Response::set_raw_header`.
///
/// Claimed: every value of the header, whatever the case of its name, is
/// replaced by the one value given, as `HeaderMap::replace` does; no other
/// header and not the status change.
#[verifier::external_body]
pub(crate) fn response_set_header(response: &mut RocketResponse<'_>, name: String, value: String)
    ensures
        response_headers(*final(response)) == apply_op(
            response_headers(*old(response)),
            HeaderOpView::Replace(name@, value@),
        ),
        response_status(*final(response)) == response_status(*old(response)),
{
    let _ = response.set_raw_header(name, value);
}

/// `rocket::Response::remove_header`.
///
/// Claimed: every value of the header, whatever the case of its name, is
/// removed, as `HeaderMap::remove` does; no other header and not the status
/// change.
#[verifier::external_body]
pub(crate) fn response_remove_header(response: &mut RocketResponse<'_>, name: &str)
    ensures
        response_headers(*final(response)) == apply_op(
            response_headers(*old(response)),
            HeaderOpView::Remove(name@),
        ),
        response_status(*final(response)) == response_status(*old(response)),
{
    response.remove_header(name)
}

/// `rocket::Response::adjoin_raw_header`.
///
/// Claimed: the value is added after the values the header has, whatever the
/// case of its name, as `HeaderMap::add` does; no other header and not the
/// status change.
#[verifier::external_body]
pub(crate) fn response_adjoin_header(response: &mut RocketResponse<'_>, name: String, value: String)
    ensures
        response_headers(*final(response)) == apply_op(
            response_headers(*old(response)),
            HeaderOpView::Adjoin(name@, value@),
        ),
        response_status(*final(response)) == response_status(*old(response)),
{
    response.adjoin_raw_header(name, value)
}

/// The `Display` text of a `regex::Error`; nothing is claimed of it.
#[verifier::external_body]
pub(crate) fn regex_error_text(e: &RegexCompileError) -> String {
    e.to_string()
}

/// `unicase::eq`: comparison after Unicode case folding.
///
/// Claimed: the answer is the named relation, which is symmetric; it holds of
/// equal strings; and
/// when both strings are ASCII it is ASCII case-insensitive equality, which is
/// what `unicase` uses for two ASCII strings.
#[verifier::external_body]
pub(crate) fn caseless_eq(a: &str, b: &str) -> (res: bool)
    ensures
        res == unicase_eq(a@, b@),
        res == unicase_eq(b@, a@),
        a@ == b@ ==> res,
        vstd::utf8::is_ascii_chars(a@) && vstd::utf8::is_ascii_chars(b@) ==> (res
            <==> ascii_caseless_eq(a@, b@)),
{
    unicase::eq(a, b)
}

/// `str::to_lowercase`.
///
/// Claimed: the result is the named Unicode lowercase mapping, and for an ASCII
/// string it is the ASCII lowercase of each character.
#[verifier::external_body]
pub(crate) fn lowercase(s: &str) -> (res: String)
    ensures
        res@ == str_lowercase(s@),
        vstd::utf8::is_ascii_chars(s@) ==> res@ == s@.map_values(|c: char| ascii_lowercase(c)),
{
    s.to_lowercase()
}

/// `rocket::http::Status::from_code`, asked whether it knows a code.
///
/// Claimed: it knows exactly the codes of its table of standard statuses.
#[verifier::external_body]
pub(crate) fn status_code_known(code: u16) -> (res: bool)
    ensures
        res == known_status_code(code),
{
    rocket::http::Status::from_code(code).is_some()
}

/// `rocket::http::Method::from_str`, mapped onto this crate's `HttpMethod`.
///
/// Claimed: the name is matched, ignoring ASCII case, against the nine method
/// names, as rocket's source does with `uncased::eq`.
#[verifier::external_body]
pub(crate) fn parse_method_name(s: &str) -> (res: Option<HttpMethod>)
    ensures
        res == method_from_name(s@),
{
    match <RocketMethod as std::str::FromStr>::from_str(s) {
        Ok(RocketMethod::Get) => Some(HttpMethod::Get),
        Ok(RocketMethod::Put) => Some(HttpMethod::Put),
        Ok(RocketMethod::Post) => Some(HttpMethod::Post),
        Ok(RocketMethod::Delete) => Some(HttpMethod::Delete),
        Ok(RocketMethod::Options) => Some(HttpMethod::Options),
        Ok(RocketMethod::Head) => Some(HttpMethod::Head),
        Ok(RocketMethod::Trace) => Some(HttpMethod::Trace),
        Ok(RocketMethod::Connect) => Some(HttpMethod::Connect),
        Ok(RocketMethod::Patch) => Some(HttpMethod::Patch),
        Err(()) => None,
    }
}

} // verus!
