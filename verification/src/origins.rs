//! Allowed origins: the configured lists, their validation into a form that
//! can be matched, and the matching of a request's origin against them.

use vstd::prelude::*;

use crate::error::{Error, ErrorView};
use crate::external::{
    parse_url_origin, regex_patterns_compile, regex_set_is_match, regex_set_matches,
    regex_set_built_by_new, regex_set_clone, regex_set_new, regex_set_patterns, url_origin_ascii,
    url_origin_is_tuple, url_parses,
};
use crate::headers::{Origin, OriginView};
use crate::options::copy_strings;
use crate::text::{dedup, string_member, strings_view, strs_view};

verus! {

/// An enum signifying that some of type T is allowed, or `All` (everything is allowed).
///
/// `Default` is implemented for this enum and is `All`.
#[derive(Clone, Debug, PartialEq, Eq)]
pub enum AllOrSome<T> {
    /// Everything is allowed. Usually equivalent to the "*" value.
    All,
    /// Only some of `T` is allowed
    Only(T),
}

impl<T: View> View for AllOrSome<T> {
    type V = AllOrSome<T::V>;

    open spec fn view(&self) -> AllOrSome<T::V> {
        match self {
            AllOrSome::All => AllOrSome::All,
            AllOrSome::Only(t) => AllOrSome::Only(t@),
        }
    }
}

impl<T> AllOrSome<T> {
    /// Returns whether this is an `All` variant
    pub fn is_all(&self) -> (res: bool)
        ensures
            res == (self is All),
    {
        match self {
            AllOrSome::All => true,
            AllOrSome::Only(_) => false,
        }
    }

    /// Returns whether this is an `Only` variant (only some are allowed)
    pub fn is_some(&self) -> (res: bool)
        ensures
            res == (self is Only),
    {
        !self.is_all()
    }

    /// Unwrap an `Only` variant and get its inner value; an `All` cannot be
    /// unwrapped.
    pub fn unwrap(self) -> (res: T)
        requires
            self is Only,
        ensures
            self == AllOrSome::Only(res),
    {
        match self {
            AllOrSome::Only(inner) => inner,
            AllOrSome::All => vstd::pervasive::unreached(),
        }
    }
}

impl<T> Default for AllOrSome<T> {
    fn default() -> (res: AllOrSome<T>)
        ensures
            res is All,
    {
        AllOrSome::All
    }
}

/// Origins that are allowed to make CORS requests, as configured.
///
/// Origins can be specified as an exact match or using regex; if any of them
/// matches, the request is considered to be valid.
#[derive(Clone, PartialEq, Eq, Debug)]
pub struct Origins {
    /// Whether null origins are accepted
    pub allow_null: bool,
    /// Origins that must be matched exactly as provided. These must be valid
    /// URL strings; they are parsed and validated when creating `Cors`.
    pub exact: Option<Vec<String>>,
    /// Origins that will be matched via any regex in this list. These must be
    /// valid regexes; they are compiled when creating `Cors`.
    pub regex: Option<Vec<String>>,
}

/// The configured origins with their lists of texts.
pub struct OriginsView {
    pub allow_null: bool,
    pub exact: Option<Seq<Seq<char>>>,
    pub regex: Option<Seq<Seq<char>>>,
}

/// The views of an optional list of strings.
pub open spec fn opt_strings_view(v: Option<Vec<String>>) -> Option<Seq<Seq<char>>> {
    match v {
        Option::Some(v) => Option::Some(strings_view(v@)),
        Option::None => Option::None,
    }
}

impl View for Origins {
    type V = OriginsView;

    open spec fn view(&self) -> OriginsView {
        OriginsView {
            allow_null: self.allow_null,
            exact: opt_strings_view(self.exact),
            regex: opt_strings_view(self.regex),
        }
    }
}

impl Default for Origins {
    fn default() -> (res: Origins)
        ensures
            !res.allow_null,
            res.exact is None,
            res.regex is None,
    {
        Origins { allow_null: false, exact: None, regex: None }
    }
}

/// The set of strings collected from a list of texts.
pub fn strings_from_strs(list: &[&str]) -> (res: Vec<String>)
    ensures
        strings_view(res@) == dedup(strs_view(list@)),
{
    let mut out: Vec<String> = Vec::new();
    let mut i: usize = 0;
    assert(strs_view(list@).take(0) =~= Seq::<Seq<char>>::empty());
    while i < list.len()
        invariant
            i <= list.len(),
            strings_view(out@) == dedup(strs_view(list@).take(i as int)),
        decreases list.len() - i,
    {
        assert(strs_view(list@).take(i + 1).drop_last() =~= strs_view(list@).take(i as int));
        assert(strs_view(list@)[i as int] == list@[i as int]@);
        if !string_member(&out, list[i]) {
            let ghost before = out@;
            out.push(String::from_str(list[i]));
            assert(strings_view(out@) =~= strings_view(before).push(list@[i as int]@));
        }
        i = i + 1;
    }
    assert(strs_view(list@).take(list.len() as int) =~= strs_view(list@));
    out
}

/// A list of allowed origins. Either Some origins are allowed, or all origins
/// are allowed.
pub type AllowedOrigins = AllOrSome<Origins>;

impl AllOrSome<Origins> {
    /// Allows some origins, with a mix of exact matches or regex matches.
    /// Validation is not performed at this stage, but when creating `Cors`.
    pub fn some(exact: &[&str], regex: &[&str]) -> (res: AllowedOrigins)
        ensures
            res@ == AllOrSome::Only(
                OriginsView {
                    allow_null: false,
                    exact: Option::Some(dedup(strs_view(exact@))),
                    regex: Option::Some(dedup(strs_view(regex@))),
                },
            ),
    {
        AllOrSome::Only(
            Origins {
                allow_null: false,
                exact: Some(strings_from_strs(exact)),
                regex: Some(strings_from_strs(regex)),
            },
        )
    }

    /// Allows some exact origins. Validation is not performed at this stage.
    pub fn some_exact(exact: &[&str]) -> (res: AllowedOrigins)
        ensures
            res@ == AllOrSome::Only(
                OriginsView {
                    allow_null: false,
                    exact: Option::Some(dedup(strs_view(exact@))),
                    regex: Option::None,
                },
            ),
    {
        AllOrSome::Only(
            Origins { allow_null: false, exact: Some(strings_from_strs(exact)), regex: None },
        )
    }

    /// Allows some regular expression origins. Validation is not performed at
    /// this stage.
    pub fn some_regex(regex: &[&str]) -> (res: AllowedOrigins)
        ensures
            res@ == AllOrSome::Only(
                OriginsView {
                    allow_null: false,
                    exact: Option::None,
                    regex: Option::Some(dedup(strs_view(regex@))),
                },
            ),
    {
        AllOrSome::Only(
            Origins { allow_null: false, exact: None, regex: Some(strings_from_strs(regex)) },
        )
    }

    /// Allows some `null` origins.
    pub fn some_null() -> (res: AllowedOrigins)
        ensures
            res@ == AllOrSome::Only(
                OriginsView { allow_null: true, exact: Option::None, regex: Option::None },
            ),
    {
        AllOrSome::Only(Origins { allow_null: true, exact: None, regex: None })
    }

    /// Allows all origins.
    pub fn all() -> (res: AllowedOrigins)
        ensures
            res is All,
    {
        AllOrSome::All
    }
}

/// The parsed set of configured allowed origins: the serializations of the
/// exact origins and the compiled regex set.
#[derive(Debug)]
pub struct ParsedAllowedOrigins {
    /// Whether null origins are accepted
    allow_null: bool,
    /// The ASCII serializations of the exact (tuple) origins
    exact: Vec<String>,
    /// The compiled regular expressions, if any were configured
    regex: Option<regex::RegexSet>,
}

/// The parsed origins: the serializations of the exact origins, and the
/// patterns of the regex set.
pub struct ParsedOriginsView {
    pub allow_null: bool,
    pub exact: Seq<Seq<char>>,
    pub regex: Option<Seq<Seq<char>>>,
}

impl View for ParsedAllowedOrigins {
    type V = ParsedOriginsView;

    closed spec fn view(&self) -> ParsedOriginsView {
        ParsedOriginsView {
            allow_null: self.allow_null,
            exact: strings_view(self.exact@),
            regex: match self.regex {
                Option::Some(set) => Option::Some(regex_set_patterns(set)),
                Option::None => Option::None,
            },
        }
    }
}

/// The configured exact origins whose URL origin is opaque, in order.
pub open spec fn opaque_urls(s: Seq<Seq<char>>) -> Seq<Seq<char>>
    decreases s.len(),
{
    if s.len() == 0 {
        Seq::<Seq<char>>::empty()
    } else if url_origin_is_tuple(s.last()) {
        opaque_urls(s.drop_last())
    } else {
        opaque_urls(s.drop_last()).push(s.last())
    }
}

/// The configured exact origins; none when the list is absent.
pub open spec fn exact_list(o: OriginsView) -> Seq<Seq<char>> {
    match o.exact {
        Option::Some(e) => e,
        Option::None => Seq::<Seq<char>>::empty(),
    }
}

/// The outcome of validating configured origins: every exact origin must be a
/// URL, and a URL with a tuple origin, and the regexes must compile; the exact
/// origins are then kept as the serializations of their origins.
pub open spec fn parse_allowed(o: OriginsView) -> Result<ParsedOriginsView, ErrorView> {
    let exact = exact_list(o);
    if exists|i: int| 0 <= i < exact.len() && !url_parses(#[trigger] exact[i]) {
        Err(ErrorView::BadOrigin)
    } else if opaque_urls(exact).len() > 0 {
        Err(ErrorView::OpaqueAllowedOrigin(opaque_urls(exact)))
    } else if o.regex matches Option::Some(r) && !regex_patterns_compile(r) {
        Err(ErrorView::RegexError)
    } else {
        Ok(
            ParsedOriginsView {
                allow_null: o.allow_null,
                exact: exact.map_values(|e: Seq<char>| url_origin_ascii(e)),
                regex: o.regex,
            },
        )
    }
}

/// Whether an origin is allowed by parsed origins: a null origin when null is
/// allowed; a tuple origin when its serialization is one of the exact origins
/// or matches the regex set; an opaque origin when it matches the regex set.
pub open spec fn origin_allowed(p: ParsedOriginsView, o: OriginView) -> bool {
    match o {
        OriginView::Null => p.allow_null,
        OriginView::Parsed(s) => p.exact.contains(s) || (p.regex matches Option::Some(r)
            && regex_set_is_match(r, s)),
        OriginView::Opaque(s) => p.regex matches Option::Some(r) && regex_set_is_match(r, s),
    }
}

impl ParsedAllowedOrigins {
    /// The regex set, when there is one, is built by `RegexSet::new`, as
    /// `parse` builds it.
    #[verifier::type_invariant]
    spec fn regex_built_by_new(self) -> bool {
        self.regex matches Option::Some(set) ==> regex_set_built_by_new(set)
    }

    /// Whether null origins are accepted.
    pub fn allow_null(&self) -> (res: bool)
        ensures
            res == self@.allow_null,
    {
        self.allow_null
    }

    /// The ASCII serializations of the exact origins.
    pub fn exact(&self) -> (res: &Vec<String>)
        ensures
            strings_view(res@) == self@.exact,
    {
        &self.exact
    }

    /// The compiled regex set, if regexes were configured.
    pub fn regex(&self) -> (res: Option<&regex::RegexSet>)
        ensures
            match res {
                Option::Some(set) => self@.regex == Option::Some(regex_set_patterns(*set)),
                Option::None => self@.regex is None,
            },
    {
        match &self.regex {
            Some(set) => Some(set),
            None => None,
        }
    }

    /// Validates configured origins.
    pub fn parse(origins: &Origins) -> (res: Result<ParsedAllowedOrigins, Error>)
        ensures
            match parse_allowed(origins@) {
                Ok(p) => res matches Ok(r) && r@ == p,
                Err(e) => res matches Err(err) && err@ == e,
            },
    {
        let empty: Vec<String> = Vec::new();
        let exact: &Vec<String> = match &origins.exact {
            Some(e) => e,
            None => &empty,
        };
        let ghost ex = strings_view(exact@);
        assert(ex == exact_list(origins@)) by {
            if origins.exact is None {
                assert(ex =~= Seq::<Seq<char>>::empty());
            }
        }
        let mut serialized: Vec<String> = Vec::new();
        let mut opaque: Vec<String> = Vec::new();
        let mut i: usize = 0;
        assert(ex.take(0) =~= Seq::<Seq<char>>::empty());
        while i < exact.len()
            invariant
                i <= exact.len(),
                ex == strings_view(exact@),
                ex == exact_list(origins@),
                forall|k: int| 0 <= k < i ==> url_parses(#[trigger] ex[k]),
                strings_view(opaque@) == opaque_urls(ex.take(i as int)),
                serialized@.len() <= i,
                forall|k: int|
                    0 <= k < serialized@.len() ==> exists|j: int|
                        0 <= j < i && (#[trigger] serialized@[k])@ == url_origin_ascii(ex[j]),
                opaque@.len() == 0 ==> serialized@.len() == i && forall|k: int|
                    0 <= k < i ==> (#[trigger] serialized@[k])@ == url_origin_ascii(ex[k]),
            decreases exact.len() - i,
        {
            assert(ex.take(i + 1).drop_last() =~= ex.take(i as int));
            assert(ex[i as int] == exact@[i as int]@);
            match parse_url_origin(exact[i].as_str()) {
                Ok(Some(s)) => {
                    let ghost pos = serialized@.len();
                    serialized.push(s);
                    assert(serialized@[pos as int]@ == url_origin_ascii(ex[i as int]));
                },
                Ok(None) => {
                    let ghost before = opaque@;
                    opaque.push(exact[i].clone());
                    assert(strings_view(opaque@) =~= strings_view(before).push(ex[i as int]));
                },
                Err(e) => {
                    assert(!url_parses(ex[i as int]));
                    return Err(Error::BadOrigin(e));
                },
            }
            i = i + 1;
        }
        assert(ex.take(exact.len() as int) =~= ex);
        if opaque.len() > 0 {
            return Err(Error::OpaqueAllowedOrigin(opaque));
        }
        assert(strings_view(serialized@) =~= ex.map_values(|e: Seq<char>| url_origin_ascii(e)));
        let regex = match &origins.regex {
            None => None,
            Some(patterns) => match regex_set_new(patterns) {
                Ok(set) => Some(set),
                Err(e) => {
                    return Err(Error::RegexError(e));
                },
            },
        };
        Ok(ParsedAllowedOrigins { allow_null: origins.allow_null, exact: serialized, regex })
    }

    /// Whether an origin is allowed.
    pub fn verify(&self, origin: &Origin) -> (res: bool)
        ensures
            res == origin_allowed(self@, origin@),
    {
        proof {
            use_type_invariant(self);
        }
        match origin {
            Origin::Null => self.allow_null,
            Origin::Parsed(parsed) => {
                if string_member(&self.exact, parsed.as_str()) {
                    return true;
                }
                match &self.regex {
                    Some(set) => regex_set_matches(set, parsed.as_str()),
                    None => false,
                }
            },
            Origin::Opaque(opaque) => match &self.regex {
                Some(set) => regex_set_matches(set, opaque.as_str()),
                None => false,
            },
        }
    }
}

impl Clone for ParsedAllowedOrigins {
    fn clone(&self) -> (res: ParsedAllowedOrigins)
        ensures
            res@ == self@,
    {
        proof {
            use_type_invariant(self);
        }
        let regex = match &self.regex {
            Some(set) => Some(regex_set_clone(set)),
            None => None,
        };
        ParsedAllowedOrigins { allow_null: self.allow_null, exact: copy_strings(&self.exact), regex }
    }
}

/// Parses and processes allowed origins: `All` stays `All`, and some origins
/// are validated.
pub fn parse_allowed_origins(origins: &AllowedOrigins) -> (res: Result<
    AllOrSome<ParsedAllowedOrigins>,
    Error,
>)
    ensures
        match origins {
            AllOrSome::All => res matches Ok(r) && r is All,
            AllOrSome::Only(o) => match parse_allowed(o@) {
                Ok(p) => res matches Ok(r) && r@ == AllOrSome::Only(p),
                Err(e) => res matches Err(err) && err@ == e,
            },
        },
{
    match origins {
        AllOrSome::All => Ok(AllOrSome::All),
        AllOrSome::Only(origins) => {
            let parsed = ParsedAllowedOrigins::parse(origins)?;
            Ok(AllOrSome::Only(parsed))
        },
    }
}

} // verus!
