//! CORS settings: the options a user writes, and the validated `Cors` made
//! from them.

use vstd::prelude::*;

use crate::error::{Error, ErrorView};
use crate::headers::{HeaderFieldName, names_from_strs, names_view};
use crate::method::{HttpMethod, Method};
use crate::origins::{
    parse_allowed, parse_allowed_origins, AllOrSome, AllowedOrigins, ParsedAllowedOrigins,
    ParsedOriginsView,
};
use crate::text::{caseless_dedup, dedup, strings_view, strs_view};

verus! {

/// A list of allowed methods.
pub type AllowedMethods = Vec<Method>;

/// A list of allowed headers: all of them, or some case insensitive names.
pub type AllowedHeaders = AllOrSome<Vec<HeaderFieldName>>;

/// The allowed headers with each name taken as its characters.
pub open spec fn allowed_headers_view(a: AllowedHeaders) -> AllOrSome<Seq<Seq<char>>> {
    match a {
        AllOrSome::All => AllOrSome::All,
        AllOrSome::Only(v) => AllOrSome::Only(names_view(v@)),
    }
}

impl AllOrSome<Vec<HeaderFieldName>> {
    /// Allow some headers; names equal after case folding are kept once.
    pub fn some(headers: &[&str]) -> (res: AllowedHeaders)
        ensures
            allowed_headers_view(res) == AllOrSome::<Seq<Seq<char>>>::Only(
                caseless_dedup(strs_view(headers@)),
            ),
    {
        AllOrSome::Only(names_from_strs(headers))
    }

    /// Allows all headers.
    pub fn all() -> (res: AllowedHeaders)
        ensures
            res is All,
    {
        AllOrSome::All
    }
}

/// The methods allowed by default: GET, HEAD, POST, OPTIONS, PUT, PATCH and
/// DELETE.
pub open spec fn default_methods() -> Seq<Method> {
    seq![
        Method(HttpMethod::Get),
        Method(HttpMethod::Head),
        Method(HttpMethod::Post),
        Method(HttpMethod::Options),
        Method(HttpMethod::Put),
        Method(HttpMethod::Patch),
        Method(HttpMethod::Delete),
    ]
}

/// The route base used by default for the fairing's error route.
pub open spec fn default_route_base() -> Seq<char> {
    seq!['/', 'c', 'o', 'r', 's']
}

/// Configuration options for CORS request handling.
///
/// Before it can be used with Rocket, it must be turned into a `Cors` with
/// `CorsOptions::to_cors`, which validates it.
#[derive(Clone, Debug, PartialEq)]
pub struct CorsOptions {
    /// Origins that are allowed to make requests; defaults to `All`.
    pub allowed_origins: AllowedOrigins,
    /// The methods which the allowed origins are allowed to access for
    /// non-simple requests; defaults to `[GET, HEAD, POST, OPTIONS, PUT, PATCH, DELETE]`.
    pub allowed_methods: AllowedMethods,
    /// The header field names which can be used by allowed origins; defaults to `All`.
    pub allowed_headers: AllowedHeaders,
    /// Allows users to make authenticated requests; defaults to `false`.
    /// This cannot be used together with `All` origins and `send_wildcard`.
    pub allow_credentials: bool,
    /// The headers which are safe to expose to the API of a CORS API
    /// specification; defaults to none.
    pub expose_headers: Vec<String>,
    /// The maximum time for which this CORS request may be cached; defaults to unset.
    pub max_age: Option<usize>,
    /// If true, and `allowed_origins` is `All`, a wildcard
    /// `Access-Control-Allow-Origin` header is sent rather than the request's
    /// `Origin`; defaults to `false`.
    pub send_wildcard: bool,
    /// The base of the route the fairing mounts for failed CORS checks;
    /// defaults to "/cors".
    pub fairing_route_base: String,
    /// The rank of the route the fairing mounts for failed CORS checks;
    /// defaults to 0.
    pub fairing_route_rank: isize,
}

/// A copy of a list of methods.
pub fn copy_methods(v: &Vec<Method>) -> (res: Vec<Method>)
    ensures
        res@ == v@,
{
    let mut out: Vec<Method> = Vec::new();
    let mut i: usize = 0;
    while i < v.len()
        invariant
            i <= v.len(),
            out@ == v@.take(i as int),
        decreases v.len() - i,
    {
        out.push(v[i]);
        assert(out@ =~= v@.take(i + 1));
        i = i + 1;
    }
    assert(v@.take(v.len() as int) =~= v@);
    out
}

/// The set of methods of a list: each method kept at its first occurrence.
pub fn method_set(v: &Vec<Method>) -> (res: Vec<Method>)
    ensures
        res@ == dedup(v@),
{
    let mut out: Vec<Method> = Vec::new();
    let mut i: usize = 0;
    assert(v@.take(0) =~= Seq::<Method>::empty());
    while i < v.len()
        invariant
            i <= v.len(),
            out@ == dedup(v@.take(i as int)),
        decreases v.len() - i,
    {
        assert(v@.take(i + 1).drop_last() =~= v@.take(i as int));
        let m = v[i];
        let mut j: usize = 0;
        let mut found = false;
        while j < out.len()
            invariant
                j <= out.len(),
                found <==> exists|k: int| 0 <= k < j && out@[k] == m,
            decreases out.len() - j,
        {
            if out[j].0 == m.0 {
                found = true;
            }
            j = j + 1;
        }
        assert(found <==> out@.contains(m));
        if !found {
            out.push(m);
        }
        i = i + 1;
    }
    assert(v@.take(v.len() as int) =~= v@);
    out
}

/// A copy of a list of strings.
pub fn copy_strings(v: &Vec<String>) -> (res: Vec<String>)
    ensures
        strings_view(res@) == strings_view(v@),
{
    let mut out: Vec<String> = Vec::new();
    let mut i: usize = 0;
    while i < v.len()
        invariant
            i <= v.len(),
            strings_view(out@) == strings_view(v@).take(i as int),
        decreases v.len() - i,
    {
        let ghost before = out@;
        out.push(v[i].clone());
        assert(strings_view(out@) =~= strings_view(v@).take(i + 1)) by {
            assert(strings_view(out@) =~= strings_view(before).push(v@[i as int]@));
        }
        i = i + 1;
    }
    assert(strings_view(v@).take(v.len() as int) =~= strings_view(v@));
    out
}

/// A copy of a list of header names.
pub fn copy_names(v: &Vec<HeaderFieldName>) -> (res: Vec<HeaderFieldName>)
    ensures
        names_view(res@) == names_view(v@),
{
    let mut out: Vec<HeaderFieldName> = Vec::new();
    let mut i: usize = 0;
    while i < v.len()
        invariant
            i <= v.len(),
            names_view(out@) == names_view(v@).take(i as int),
        decreases v.len() - i,
    {
        let ghost before = out@;
        out.push(HeaderFieldName::new(v[i].as_str()));
        assert(names_view(out@) =~= names_view(v@).take(i + 1)) by {
            assert(names_view(out@) =~= names_view(before).push(v@[i as int]@));
        }
        i = i + 1;
    }
    assert(names_view(v@).take(v.len() as int) =~= names_view(v@));
    out
}

/// A copy of allowed headers.
pub fn copy_allowed_headers(a: &AllowedHeaders) -> (res: AllowedHeaders)
    ensures
        allowed_headers_view(res) == allowed_headers_view(*a),
{
    match a {
        AllOrSome::All => AllOrSome::All,
        AllOrSome::Only(v) => AllOrSome::Only(copy_names(v)),
    }
}

/// The settings that `CorsOptions::validate` refuses: credentials allowed while
/// all origins are allowed and a wildcard is sent.
pub open spec fn credentials_with_wildcard(
    all_origins: bool,
    send_wildcard: bool,
    allow_credentials: bool,
) -> bool {
    all_origins && send_wildcard && allow_credentials
}

impl Default for CorsOptions {
    fn default() -> (res: CorsOptions)
        ensures
            res.allowed_origins is All,
            res.allowed_methods@ == default_methods(),
            res.allowed_headers is All,
            !res.allow_credentials,
            res.expose_headers@.len() == 0,
            res.max_age is None,
            !res.send_wildcard,
            res.fairing_route_base@ == default_route_base(),
            res.fairing_route_rank == 0,
    {
        CorsOptions {
            allowed_origins: AllOrSome::All,
            allowed_methods: CorsOptions::default_allowed_methods(),
            allowed_headers: AllOrSome::All,
            allow_credentials: false,
            expose_headers: Vec::new(),
            max_age: None,
            send_wildcard: false,
            fairing_route_base: CorsOptions::default_fairing_route_base(),
            fairing_route_rank: CorsOptions::default_fairing_route_rank(),
        }
    }
}

impl CorsOptions {
    /// The methods allowed by default.
    pub fn default_allowed_methods() -> (res: Vec<Method>)
        ensures
            res@ == default_methods(),
    {
        let mut v: Vec<Method> = Vec::new();
        v.push(Method(HttpMethod::Get));
        v.push(Method(HttpMethod::Head));
        v.push(Method(HttpMethod::Post));
        v.push(Method(HttpMethod::Options));
        v.push(Method(HttpMethod::Put));
        v.push(Method(HttpMethod::Patch));
        v.push(Method(HttpMethod::Delete));
        assert(v@ =~= default_methods());
        v
    }

    /// The fairing route base used by default: "/cors".
    pub fn default_fairing_route_base() -> (res: String)
        ensures
            res@ == default_route_base(),
    {
        proof {
            reveal_strlit("/cors");
            assert("/cors"@ =~= default_route_base());
        }
        String::from_str("/cors")
    }

    /// The fairing route rank used by default: 0.
    pub fn default_fairing_route_rank() -> (res: isize)
        ensures
            res == 0,
    {
        0
    }

    /// Validates if any of the settings are disallowed, incorrect, or illegal:
    /// credentials cannot be allowed while all origins are allowed and a
    /// wildcard is sent.
    pub fn validate(&self) -> (res: Result<(), Error>)
        ensures
            credentials_with_wildcard(
                self.allowed_origins is All,
                self.send_wildcard,
                self.allow_credentials,
            ) ==> (res matches Err(e) && e@ == ErrorView::CredentialsWithWildcardOrigin),
            !credentials_with_wildcard(
                self.allowed_origins is All,
                self.send_wildcard,
                self.allow_credentials,
            ) ==> res is Ok,
    {
        if self.allowed_origins.is_all() && self.send_wildcard && self.allow_credentials {
            return Err(Error::CredentialsWithWildcardOrigin);
        }
        Ok(())
    }

    /// Creates a `Cors` that can be used to respond to requests or as a Rocket
    /// fairing.
    pub fn to_cors(&self) -> (res: Result<Cors, Error>)
        ensures
            match cors_from_options(self) {
                Ok(c) => res matches Ok(r) && r@ == c,
                Err(e) => res matches Err(err) && err@ == e,
            },
    {
        Cors::from_options(self)
    }

    /// Sets the allowed origins.
    pub fn allowed_origins(self, allowed_origins: AllowedOrigins) -> (res: CorsOptions)
        ensures
            res == (CorsOptions { allowed_origins, ..self }),
    {
        let mut s = self;
        s.allowed_origins = allowed_origins;
        s
    }

    /// Sets the allowed methods.
    pub fn allowed_methods(self, allowed_methods: AllowedMethods) -> (res: CorsOptions)
        ensures
            res == (CorsOptions { allowed_methods, ..self }),
    {
        let mut s = self;
        s.allowed_methods = allowed_methods;
        s
    }

    /// Sets the allowed headers.
    pub fn allowed_headers(self, allowed_headers: AllowedHeaders) -> (res: CorsOptions)
        ensures
            res == (CorsOptions { allowed_headers, ..self }),
    {
        let mut s = self;
        s.allowed_headers = allowed_headers;
        s
    }

    /// Marks if credentials are allowed.
    pub fn allow_credentials(self, allow_credentials: bool) -> (res: CorsOptions)
        ensures
            res == (CorsOptions { allow_credentials, ..self }),
    {
        let mut s = self;
        s.allow_credentials = allow_credentials;
        s
    }

    /// Sets the exposed headers.
    pub fn expose_headers(self, expose_headers: Vec<String>) -> (res: CorsOptions)
        ensures
            res == (CorsOptions { expose_headers, ..self }),
    {
        let mut s = self;
        s.expose_headers = expose_headers;
        s
    }

    /// Sets the max age.
    pub fn max_age(self, max_age: Option<usize>) -> (res: CorsOptions)
        ensures
            res == (CorsOptions { max_age, ..self }),
    {
        let mut s = self;
        s.max_age = max_age;
        s
    }

    /// Marks if wildcards are sent.
    pub fn send_wildcard(self, send_wildcard: bool) -> (res: CorsOptions)
        ensures
            res == (CorsOptions { send_wildcard, ..self }),
    {
        let mut s = self;
        s.send_wildcard = send_wildcard;
        s
    }

    /// Sets the base of the fairing route.
    pub fn fairing_route_base(self, fairing_route_base: &str) -> (res: CorsOptions)
        ensures
            res.fairing_route_base@ == fairing_route_base@,
            res == (CorsOptions { fairing_route_base: res.fairing_route_base, ..self }),
    {
        let mut s = self;
        s.fairing_route_base = String::from_str(fairing_route_base);
        s
    }

    /// Sets the rank of the fairing route.
    pub fn fairing_route_rank(self, fairing_route_rank: isize) -> (res: CorsOptions)
        ensures
            res == (CorsOptions { fairing_route_rank, ..self }),
    {
        let mut s = self;
        s.fairing_route_rank = fairing_route_rank;
        s
    }
}

/// Response generator and fairing for CORS, made from validated `CorsOptions`.
#[derive(Clone, Debug)]
pub struct Cors {
    allowed_origins: AllOrSome<ParsedAllowedOrigins>,
    allowed_methods: AllowedMethods,
    allowed_headers: AllowedHeaders,
    allow_credentials: bool,
    expose_headers: Vec<String>,
    max_age: Option<usize>,
    send_wildcard: bool,
    fairing_route_base: String,
    fairing_route_rank: isize,
}

/// The settings of a `Cors`.
pub struct CorsView {
    pub allowed_origins: AllOrSome<ParsedOriginsView>,
    pub allowed_methods: Seq<Method>,
    pub allowed_headers: AllOrSome<Seq<Seq<char>>>,
    pub allow_credentials: bool,
    pub expose_headers: Seq<Seq<char>>,
    pub max_age: Option<usize>,
    pub send_wildcard: bool,
    pub fairing_route_base: Seq<char>,
    pub fairing_route_rank: isize,
}

impl View for Cors {
    type V = CorsView;

    closed spec fn view(&self) -> CorsView {
        CorsView {
            allowed_origins: self.allowed_origins@,
            allowed_methods: self.allowed_methods@,
            allowed_headers: allowed_headers_view(self.allowed_headers),
            allow_credentials: self.allow_credentials,
            expose_headers: strings_view(self.expose_headers@),
            max_age: self.max_age,
            send_wildcard: self.send_wildcard,
            fairing_route_base: self.fairing_route_base@,
            fairing_route_rank: self.fairing_route_rank,
        }
    }
}

/// The `Cors` made from options, or the error that refuses them: first the
/// check of `CorsOptions::validate`, then the validation of the origins.
pub open spec fn cors_from_options(o: &CorsOptions) -> Result<CorsView, ErrorView> {
    if credentials_with_wildcard(o.allowed_origins is All, o.send_wildcard, o.allow_credentials) {
        Err(ErrorView::CredentialsWithWildcardOrigin)
    } else {
        let origins = match o.allowed_origins {
            AllOrSome::All => Ok(AllOrSome::<ParsedOriginsView>::All),
            AllOrSome::Only(origins) => match parse_allowed(origins@) {
                Ok(p) => Ok(AllOrSome::Only(p)),
                Err(e) => Err(e),
            },
        };
        match origins {
            Err(e) => Err(e),
            Ok(allowed_origins) => Ok(
                CorsView {
                    allowed_origins,
                    allowed_methods: dedup(o.allowed_methods@),
                    allowed_headers: allowed_headers_view(o.allowed_headers),
                    allow_credentials: o.allow_credentials,
                    expose_headers: strings_view(o.expose_headers@),
                    max_age: o.max_age,
                    send_wildcard: o.send_wildcard,
                    fairing_route_base: o.fairing_route_base@,
                    fairing_route_rank: o.fairing_route_rank,
                },
            ),
        }
    }
}

/// What every `Cors` made from options satisfies: it never allows credentials
/// while allowing all origins and sending a wildcard.
pub open spec fn cors_valid(c: CorsView) -> bool {
    !credentials_with_wildcard(c.allowed_origins is All, c.send_wildcard, c.allow_credentials)
}

impl Cors {
    /// Creates a `Cors` from `CorsOptions`, validating the settings and the
    /// allowed origins.
    pub fn from_options(options: &CorsOptions) -> (res: Result<Cors, Error>)
        ensures
            match cors_from_options(options) {
                Ok(c) => res matches Ok(r) && r@ == c,
                Err(e) => res matches Err(err) && err@ == e,
            },
            res matches Ok(r) ==> cors_valid(r@),
    {
        options.validate()?;
        let allowed_origins = parse_allowed_origins(&options.allowed_origins)?;
        let cors = Cors {
            allowed_origins,
            allowed_methods: method_set(&options.allowed_methods),
            allowed_headers: copy_allowed_headers(&options.allowed_headers),
            allow_credentials: options.allow_credentials,
            expose_headers: copy_strings(&options.expose_headers),
            max_age: options.max_age,
            send_wildcard: options.send_wildcard,
            fairing_route_base: options.fairing_route_base.clone(),
            fairing_route_rank: options.fairing_route_rank,
        };
        Ok(cors)
    }

    /// The allowed origins, parsed.
    pub fn allowed_origins(&self) -> (res: &AllOrSome<ParsedAllowedOrigins>)
        ensures
            res@ == self@.allowed_origins,
    {
        &self.allowed_origins
    }

    /// The allowed methods.
    pub fn allowed_methods(&self) -> (res: &AllowedMethods)
        ensures
            res@ == self@.allowed_methods,
    {
        &self.allowed_methods
    }

    /// The allowed headers.
    pub fn allowed_headers(&self) -> (res: &AllowedHeaders)
        ensures
            allowed_headers_view(*res) == self@.allowed_headers,
    {
        &self.allowed_headers
    }

    /// Whether credentials are allowed.
    pub fn allow_credentials(&self) -> (res: bool)
        ensures
            res == self@.allow_credentials,
    {
        self.allow_credentials
    }

    /// The exposed headers.
    pub fn expose_headers(&self) -> (res: &Vec<String>)
        ensures
            strings_view(res@) == self@.expose_headers,
    {
        &self.expose_headers
    }

    /// The max age.
    pub fn max_age(&self) -> (res: Option<usize>)
        ensures
            res == self@.max_age,
    {
        self.max_age
    }

    /// Whether a wildcard is sent when all origins are allowed.
    pub fn send_wildcard(&self) -> (res: bool)
        ensures
            res == self@.send_wildcard,
    {
        self.send_wildcard
    }

    /// The base of the fairing's error route.
    pub fn fairing_route_base(&self) -> (res: &String)
        ensures
            res@ == self@.fairing_route_base,
    {
        &self.fairing_route_base
    }

    /// The rank of the fairing's error route.
    pub fn fairing_route_rank(&self) -> (res: isize)
        ensures
            res == self@.fairing_route_rank,
    {
        self.fairing_route_rank
    }
}

} // verus!
