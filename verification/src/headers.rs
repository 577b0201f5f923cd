//! CORS specific request headers: `Origin`, `Access-Control-Request-Method`
//! and `Access-Control-Request-Headers`, with the case-insensitive header names
//! they are made of.

use vstd::prelude::*;

use crate::error::{Error, ErrorView};
use crate::external::{
    caseless_eq, lowercase, parse_url_origin, str_lowercase, unicase_eq, url_origin_ascii,
    url_origin_is_tuple, url_parses,
};
use crate::method::Method;
use crate::text::{
    caseless_contains, caseless_dedup, caseless_in, split_commas, split_on, str_eq, strs_view, trim, trim_str,
};

verus! {

/// A case insensitive header name: two names are equal when they are equal
/// after Unicode case folding.
#[derive(Clone, Debug)]
pub struct HeaderFieldName(String);

impl View for HeaderFieldName {
    type V = Seq<char>;

    closed spec fn view(&self) -> Seq<char> {
        self.0@
    }
}

/// The views of a list of header names.
pub open spec fn names_view(v: Seq<HeaderFieldName>) -> Seq<Seq<char>> {
    v.map_values(|h: HeaderFieldName| h@)
}

impl HeaderFieldName {
    /// A header name with the given text.
    pub fn new(s: &str) -> (res: HeaderFieldName)
        ensures
            res@ == s@,
    {
        HeaderFieldName(String::from_str(s))
    }

    /// A header name holding the given string.
    pub fn from_string(s: String) -> (res: HeaderFieldName)
        ensures
            res@ == s@,
    {
        HeaderFieldName(s)
    }

    /// The name as it was given, with its case.
    pub fn as_str(&self) -> (res: &str)
        ensures
            res@ == self@,
    {
        self.0.as_str()
    }
}

impl PartialEq for HeaderFieldName {
    fn eq(&self, other: &HeaderFieldName) -> (res: bool) {
        caseless_eq(self.0.as_str(), other.0.as_str())
    }
}

/// Names are equal when they are equal after case folding.
impl Eq for HeaderFieldName {}

impl vstd::std_specs::cmp::PartialEqSpecImpl for HeaderFieldName {
    open spec fn obeys_eq_spec() -> bool {
        true
    }

    open spec fn eq_spec(&self, other: &HeaderFieldName) -> bool {
        unicase_eq(self@, other@)
    }
}

/// A set of case insensitive header names, kept as a list without two names
/// that are equal after case folding.
pub type HeaderFieldNamesSet = Vec<HeaderFieldName>;

/// Whether some name of `names` equals `x` after case folding.
pub fn contains_name(names: &Vec<HeaderFieldName>, x: &str) -> (res: bool)
    ensures
        res == caseless_contains(names_view(names@), x@),
        res == caseless_in(x@, names_view(names@)),
{
    let mut i: usize = 0;
    while i < names.len()
        invariant
            i <= names.len(),
            forall|k: int| 0 <= k < i ==> !unicase_eq(#[trigger] names_view(names@)[k], x@),
            forall|k: int| 0 <= k < i ==> !unicase_eq(x@, #[trigger] names_view(names@)[k]),
        decreases names.len() - i,
    {
        if caseless_eq(names[i].as_str(), x) {
            assert(unicase_eq(names_view(names@)[i as int], x@));
            assert(unicase_eq(x@, names_view(names@)[i as int]));
            return true;
        }
        i = i + 1;
    }
    false
}

/// Adds a name to a set of names unless an equal name is already there.
pub fn insert_name(names: &mut Vec<HeaderFieldName>, x: &str)
    ensures
        names_view(final(names)@) == (if caseless_contains(names_view(old(names)@), x@) {
            names_view(old(names)@)
        } else {
            names_view(old(names)@).push(x@)
        }),
{
    if !contains_name(names, x) {
        let ghost before = names@;
        names.push(HeaderFieldName::new(x));
        assert(names_view(names@) =~= names_view(before).push(x@));
    }
}

/// The set of names collected from a list of texts.
pub fn names_from_strs(list: &[&str]) -> (res: Vec<HeaderFieldName>)
    ensures
        names_view(res@) == caseless_dedup(strs_view(list@)),
{
    let mut names: Vec<HeaderFieldName> = Vec::new();
    let mut i: usize = 0;
    assert(strs_view(list@).take(0) =~= Seq::<Seq<char>>::empty());
    while i < list.len()
        invariant
            i <= list.len(),
            names_view(names@) == caseless_dedup(strs_view(list@).take(i as int)),
        decreases list.len() - i,
    {
        assert(strs_view(list@).take(i + 1).drop_last() =~= strs_view(list@).take(i as int));
        insert_name(&mut names, list[i]);
        i = i + 1;
    }
    assert(strs_view(list@).take(list.len() as int) =~= strs_view(list@));
    names
}

/// An origin as the `Origin` header gives it.
pub enum OriginView {
    Null,
    Parsed(Seq<char>),
    Opaque(Seq<char>),
}

/// The `Origin` request header used in CORS.
#[derive(Clone, Debug, PartialEq, Eq)]
pub enum Origin {
    /// A `null` Origin
    Null,
    /// A well-formed (scheme, host, port) origin, held as its ASCII
    /// serialization: two such origins are equal exactly when their
    /// serializations are.
    Parsed(String),
    /// An unknown "opaque" origin that could not be parsed as a tuple, as given
    Opaque(String),
}

impl View for Origin {
    type V = OriginView;

    open spec fn view(&self) -> OriginView {
        match self {
            Origin::Null => OriginView::Null,
            Origin::Parsed(s) => OriginView::Parsed(s@),
            Origin::Opaque(s) => OriginView::Opaque(s@),
        }
    }
}

/// The text `null`.
pub open spec fn null_chars() -> Seq<char> {
    seq!['n', 'u', 'l', 'l']
}

/// The origin a header value stands for, or `None` when it is not a URL.
///
/// Any casing of `null` is the null origin; otherwise the value is parsed as a
/// URL, whose origin is either a tuple, kept as its ASCII serialization, or
/// opaque, kept as the value itself.
pub open spec fn parse_origin(s: Seq<char>) -> Option<OriginView> {
    if str_lowercase(s) == null_chars() {
        Some(OriginView::Null)
    } else if !url_parses(s) {
        None
    } else if url_origin_is_tuple(s) {
        Some(OriginView::Parsed(url_origin_ascii(s)))
    } else {
        Some(OriginView::Opaque(s))
    }
}

/// The text of an origin: `null`, the ASCII serialization of a tuple origin,
/// or the opaque origin as it was given.
pub open spec fn origin_text(o: OriginView) -> Seq<char> {
    match o {
        OriginView::Null => null_chars(),
        OriginView::Parsed(s) => s,
        OriginView::Opaque(s) => s,
    }
}

/// What a request guard derives from a request: the value, a failure with an
/// HTTP status code and an error, or a forward to other routes.
#[derive(Debug)]
pub enum RequestOutcome<S> {
    /// The header was present and valid.
    Success(S),
    /// The header was present and invalid.
    Failure(u16, Error),
    /// The header was absent.
    Forward,
}

impl Origin {
    /// Parses the value of an `Origin` header.
    pub fn from_str(input: &str) -> (res: Result<Origin, Error>)
        ensures
            match parse_origin(input@) {
                Some(o) => res matches Ok(r) && r@ == o,
                None => res matches Err(e) && e@ == ErrorView::BadOrigin,
            },
    {
        let lower = lowercase(input);
        proof {
            reveal_strlit("null");
            assert("null"@ =~= null_chars());
        }
        if str_eq(lower.as_str(), "null") {
            return Ok(Origin::Null);
        }
        match parse_url_origin(input) {
            Ok(Some(serialized)) => Ok(Origin::Parsed(serialized)),
            Ok(None) => Ok(Origin::Opaque(String::from_str(input))),
            Err(e) => Err(Error::BadOrigin(e)),
        }
    }

    /// The ASCII serialization of this origin.
    pub fn ascii_serialization(&self) -> (res: String)
        ensures
            res@ == origin_text(self@),
    {
        match self {
            Origin::Null => {
                proof {
                    reveal_strlit("null");
                    assert("null"@ =~= null_chars());
                }
                String::from_str("null")
            },
            Origin::Parsed(s) => s.clone(),
            Origin::Opaque(s) => s.clone(),
        }
    }

    /// Returns whether the origin was parsed as non-opaque.
    pub fn is_tuple(&self) -> (res: bool)
        ensures
            res == (self@ is Parsed),
    {
        match self {
            Origin::Parsed(_) => true,
            _ => false,
        }
    }

    /// Derives the origin from the value of the `Origin` header, if present.
    pub fn from_request_sync(header: Option<&str>) -> (res: RequestOutcome<Origin>)
        ensures
            match header {
                None => res is Forward,
                Some(h) => match parse_origin(h@) {
                    Some(o) => res matches RequestOutcome::Success(r) && r@ == o,
                    None => res matches RequestOutcome::Failure(code, e) && code == 400 && e@
                        == ErrorView::BadOrigin,
                },
            },
    {
        match header {
            Some(h) => match Origin::from_str(h) {
                Ok(origin) => RequestOutcome::Success(origin),
                Err(e) => RequestOutcome::Failure(400, e),
            },
            None => RequestOutcome::Forward,
        }
    }
}

/// The `Access-Control-Request-Method` request header.
#[derive(Debug, Clone, Copy, PartialEq, Eq)]
pub struct AccessControlRequestMethod(pub Method);

impl AccessControlRequestMethod {
    /// Parses the value of the header as a method name, ignoring ASCII case.
    pub fn from_str(method: &str) -> (res: Result<AccessControlRequestMethod, ()>)
        ensures
            match crate::text::method_from_name(method@) {
                Some(m) => res == Ok::<AccessControlRequestMethod, ()>(
                    AccessControlRequestMethod(Method(m)),
                ),
                None => res is Err,
            },
    {
        match Method::from_str(method) {
            Ok(m) => Ok(AccessControlRequestMethod(m)),
            Err(()) => Err(()),
        }
    }

    /// Derives the requested method from the value of the header, if present.
    pub fn from_request_sync(header: Option<&str>) -> (res: RequestOutcome<
        AccessControlRequestMethod,
    >)
        ensures
            match header {
                None => res is Forward,
                Some(h) => match crate::text::method_from_name(h@) {
                    Some(m) => res matches RequestOutcome::Success(r) && r == AccessControlRequestMethod(Method(m)),
                    None => res matches RequestOutcome::Failure(code, e) && code == 400 && e@
                        == ErrorView::BadRequestMethod,
                },
            },
    {
        match header {
            Some(h) => match AccessControlRequestMethod::from_str(h) {
                Ok(m) => RequestOutcome::Success(m),
                Err(()) => RequestOutcome::Failure(400, Error::BadRequestMethod),
            },
            None => RequestOutcome::Forward,
        }
    }
}

/// The set of names that an `Access-Control-Request-Headers` value lists: the
/// comma separated names, trimmed, with names equal after case folding
/// collected once; nothing for a value that is blank.
pub open spec fn parse_request_headers(s: Seq<char>) -> Seq<Seq<char>> {
    if trim(s).len() == 0 {
        Seq::<Seq<char>>::empty()
    } else {
        caseless_dedup(split_on(s, ',').map_values(|p: Seq<char>| trim(p)))
    }
}

/// The `Access-Control-Request-Headers` request header.
#[derive(Debug, PartialEq)]
pub struct AccessControlRequestHeaders(pub HeaderFieldNamesSet);

impl View for AccessControlRequestHeaders {
    type V = Seq<Seq<char>>;

    open spec fn view(&self) -> Seq<Seq<char>> {
        names_view(self.0@)
    }
}

impl AccessControlRequestHeaders {
    /// Parses the value of the header; this never fails.
    pub fn from_str(headers: &str) -> (res: Result<AccessControlRequestHeaders, ()>)
        ensures
            res matches Ok(r) && r@ == parse_request_headers(headers@),
    {
        let mut names: Vec<HeaderFieldName> = Vec::new();
        let t = trim_str(headers);
        if t.unicode_len() == 0 {
            assert(names_view(names@) =~= Seq::<Seq<char>>::empty());
            return Ok(AccessControlRequestHeaders(names));
        }
        let pieces = split_commas(headers);
        let ghost trimmed = split_on(headers@, ',').map_values(|p: Seq<char>| trim(p));
        let mut i: usize = 0;
        assert(trimmed.take(0) =~= Seq::<Seq<char>>::empty());
        while i < pieces.len()
            invariant
                i <= pieces.len(),
                strs_view(pieces@) == split_on(headers@, ','),
                trimmed == split_on(headers@, ',').map_values(|p: Seq<char>| trim(p)),
                names_view(names@) == caseless_dedup(trimmed.take(i as int)),
            decreases pieces.len() - i,
        {
            let name = trim_str(pieces[i]);
            assert(strs_view(pieces@)[i as int] == pieces@[i as int]@);
            assert(trimmed.take(i + 1).drop_last() =~= trimmed.take(i as int));
            assert(trimmed.take(i + 1).last() == name@);
            insert_name(&mut names, name);
            i = i + 1;
        }
        assert(trimmed.take(pieces.len() as int) =~= trimmed);
        Ok(AccessControlRequestHeaders(names))
    }

    /// Derives the requested header names from the value of the header, if
    /// present; a present value is always accepted.
    pub fn from_request_sync(header: Option<&str>) -> (res: RequestOutcome<
        AccessControlRequestHeaders,
    >)
        ensures
            match header {
                None => res is Forward,
                Some(h) => res matches RequestOutcome::Success(r) && r@ == parse_request_headers(
                    h@,
                ),
            },
    {
        match header {
            Some(h) => match AccessControlRequestHeaders::from_str(h) {
                Ok(parsed) => RequestOutcome::Success(parsed),
                Err(()) => RequestOutcome::Forward,
            },
            None => RequestOutcome::Forward,
        }
    }
}

impl std::str::FromStr for Origin {
    type Err = Error;

    fn from_str(input: &str) -> (res: Result<Origin, Error>)
        ensures
            match parse_origin(input@) {
                Some(o) => res matches Ok(r) && r@ == o,
                None => res matches Err(e) && e@ == ErrorView::BadOrigin,
            },
    {
        Origin::from_str(input)
    }
}

impl std::str::FromStr for AccessControlRequestMethod {
    type Err = ();

    fn from_str(method: &str) -> (res: Result<AccessControlRequestMethod, ()>)
        ensures
            match crate::text::method_from_name(method@) {
                Some(m) => res == Ok::<AccessControlRequestMethod, ()>(
                    AccessControlRequestMethod(Method(m)),
                ),
                None => res is Err,
            },
    {
        AccessControlRequestMethod::from_str(method)
    }
}

impl std::str::FromStr for AccessControlRequestHeaders {
    type Err = ();

    fn from_str(headers: &str) -> (res: Result<AccessControlRequestHeaders, ()>)
        ensures
            res matches Ok(r) && r@ == parse_request_headers(headers@),
    {
        AccessControlRequestHeaders::from_str(headers)
    }
}

} // verus!
