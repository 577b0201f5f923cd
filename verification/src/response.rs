//! The CORS response: which CORS headers a response gets, and the header
//! operations that write them over an existing response.

use vstd::prelude::*;

use rocket::Response as RocketResponse;

use crate::external::{
    response_adjoin_header, response_headers, response_remove_header, response_set_header,
    response_status,
};
use crate::headers::{HeaderFieldName, HeaderFieldNamesSet, names_from_strs, names_view};
use crate::method::{method_name, Method};
use crate::options::{copy_methods, copy_names};
use crate::origins::AllOrSome;
use crate::text::{
    ascii_lowercase, caseless_dedup, decimal_chars, decimal_string, join, join_strings,
    strings_view, strs_view,
};

verus! {

/// A CORS response: the values of the `Access-Control-Allow-Origin`,
/// `-Allow-Methods`, `-Allow-Headers`, `-Allow-Credentials`, `-Expose-Headers`
/// and `-Max-Age` headers, and whether `Vary: Origin` is added.
#[derive(Debug, PartialEq)]
pub struct Response {
    allow_origin: Option<AllOrSome<String>>,
    allow_methods: Vec<Method>,
    allow_headers: HeaderFieldNamesSet,
    allow_credentials: bool,
    expose_headers: HeaderFieldNamesSet,
    max_age: Option<usize>,
    vary_origin: bool,
}

/// The values of a CORS response.
pub struct ResponseView {
    pub allow_origin: Option<AllOrSome<Seq<char>>>,
    pub allow_methods: Seq<Method>,
    pub allow_headers: Seq<Seq<char>>,
    pub allow_credentials: bool,
    pub expose_headers: Seq<Seq<char>>,
    pub max_age: Option<usize>,
    pub vary_origin: bool,
}

/// The response of a request that is not a CORS request: no CORS header at all.
pub open spec fn empty_response() -> ResponseView {
    ResponseView {
        allow_origin: None,
        allow_methods: Seq::<Method>::empty(),
        allow_headers: Seq::<Seq<char>>::empty(),
        allow_credentials: false,
        expose_headers: Seq::<Seq<char>>::empty(),
        max_age: None,
        vary_origin: false,
    }
}

impl View for Response {
    type V = ResponseView;

    closed spec fn view(&self) -> ResponseView {
        ResponseView {
            allow_origin: match self.allow_origin {
                Some(o) => Some(o@),
                None => None,
            },
            allow_methods: self.allow_methods@,
            allow_headers: names_view(self.allow_headers@),
            allow_credentials: self.allow_credentials,
            expose_headers: names_view(self.expose_headers@),
            max_age: self.max_age,
            vary_origin: self.vary_origin,
        }
    }
}

/// An operation on the headers of a response.
#[derive(Debug, PartialEq, Eq)]
pub enum HeaderOp {
    /// Replace every value of the header with this one.
    Replace(String, String),
    /// Remove the header.
    Remove(String),
    /// Add this value to the header's values.
    Adjoin(String, String),
}

/// An operation on the headers of a response, with its texts as characters.
pub enum HeaderOpView {
    Replace(Seq<char>, Seq<char>),
    Remove(Seq<char>),
    Adjoin(Seq<char>, Seq<char>),
}

impl View for HeaderOp {
    type V = HeaderOpView;

    open spec fn view(&self) -> HeaderOpView {
        match self {
            HeaderOp::Replace(n, v) => HeaderOpView::Replace(n@, v@),
            HeaderOp::Remove(n) => HeaderOpView::Remove(n@),
            HeaderOp::Adjoin(n, v) => HeaderOpView::Adjoin(n@, v@),
        }
    }
}

/// The views of a list of header operations.
pub open spec fn ops_view(v: Seq<HeaderOp>) -> Seq<HeaderOpView> {
    v.map_values(|op: HeaderOp| op@)
}

/// The upper-case names of a list of methods.
pub open spec fn method_names(v: Seq<Method>) -> Seq<Seq<char>> {
    v.map_values(|m: Method| method_name(m.0))
}

/// The separator of the values of a header that lists several.
pub open spec fn list_sep() -> Seq<char> {
    ", "@
}

/// Sets a header to a list of values, or removes it when the list is empty.
pub open spec fn list_op(name: Seq<char>, values: Seq<Seq<char>>) -> HeaderOpView {
    if values.len() > 0 {
        HeaderOpView::Replace(name, join(values, list_sep()))
    } else {
        HeaderOpView::Remove(name)
    }
}

/// The header operations that write a CORS response over an existing
/// response: nothing when the response has no allowed origin; otherwise each
/// CORS header is set or removed, so that any CORS header the response had is
/// overwritten, and `Vary: Origin` is added when the response varies by origin.
pub open spec fn merge_ops(r: ResponseView) -> Seq<HeaderOpView> {
    match r.allow_origin {
        None => Seq::<HeaderOpView>::empty(),
        Some(origin) => seq![
            HeaderOpView::Replace(
                "Access-Control-Allow-Origin"@,
                match origin {
                    AllOrSome::All => "*"@,
                    AllOrSome::Only(o) => o,
                },
            ),
            if r.allow_credentials {
                HeaderOpView::Replace("Access-Control-Allow-Credentials"@, "true"@)
            } else {
                HeaderOpView::Remove("Access-Control-Allow-Credentials"@)
            },
            list_op("Access-Control-Expose-Headers"@, r.expose_headers),
            list_op("Access-Control-Allow-Headers"@, r.allow_headers),
            list_op("Access-Control-Allow-Methods"@, method_names(r.allow_methods)),
            match r.max_age {
                Some(n) => HeaderOpView::Replace("Access-Control-Max-Age"@, decimal_chars(n as nat)),
                None => HeaderOpView::Remove("Access-Control-Max-Age"@),
            },
        ] + if r.vary_origin {
            seq![HeaderOpView::Adjoin("Vary"@, "Origin"@)]
        } else {
            Seq::<HeaderOpView>::empty()
        },
    }
}

/// The header a header operation acts on.
pub open spec fn op_target(op: HeaderOpView) -> Seq<char> {
    match op {
        HeaderOpView::Replace(n, _) => n,
        HeaderOpView::Remove(n) => n,
        HeaderOpView::Adjoin(n, _) => n,
    }
}

/// The key of a header name in a response's headers: header names are
/// compared ignoring ASCII case.
pub open spec fn header_key(name: Seq<char>) -> Seq<char> {
    name.map_values(|c: char| ascii_lowercase(c))
}

/// What a header operation does to a response's headers, kept as the values
/// of each header key in order: `Replace` leaves the one value given (as
/// rocket's `Response::set_raw_header` does), `Remove` drops every value (as
/// `Response::remove_header` does), and `Adjoin` adds a value after the
/// existing ones (as `Response::adjoin_raw_header` does).
pub open spec fn apply_op(
    h: Map<Seq<char>, Seq<Seq<char>>>,
    op: HeaderOpView,
) -> Map<Seq<char>, Seq<Seq<char>>> {
    match op {
        HeaderOpView::Replace(n, v) => h.insert(header_key(n), seq![v]),
        HeaderOpView::Remove(n) => h.remove(header_key(n)),
        HeaderOpView::Adjoin(n, v) => {
            let k = header_key(n);
            let old = if h.contains_key(k) {
                h[k]
            } else {
                Seq::<Seq<char>>::empty()
            };
            h.insert(k, old.push(v))
        },
    }
}

/// A response's headers after a list of header operations, in order.
pub open spec fn apply_ops(
    h: Map<Seq<char>, Seq<Seq<char>>>,
    ops: Seq<HeaderOpView>,
) -> Map<Seq<char>, Seq<Seq<char>>>
    decreases ops.len(),
{
    if ops.len() == 0 {
        h
    } else {
        apply_op(apply_ops(h, ops.drop_last()), ops.last())
    }
}

/// The texts of a list of header names.
fn name_strings(v: &Vec<HeaderFieldName>) -> (res: Vec<String>)
    ensures
        strings_view(res@) == names_view(v@),
{
    let mut out: Vec<String> = Vec::new();
    let mut i: usize = 0;
    while i < v.len()
        invariant
            i <= v.len(),
            strings_view(out@) == names_view(v@).take(i as int),
        decreases v.len() - i,
    {
        let ghost before = out@;
        out.push(String::from_str(v[i].as_str()));
        assert(strings_view(out@) =~= names_view(v@).take(i + 1)) by {
            assert(strings_view(out@) =~= strings_view(before).push(v@[i as int]@));
        }
        i = i + 1;
    }
    assert(names_view(v@).take(v.len() as int) =~= names_view(v@));
    out
}

/// The names of a list of methods.
fn method_strings(v: &Vec<Method>) -> (res: Vec<String>)
    ensures
        strings_view(res@) == method_names(v@),
{
    let mut out: Vec<String> = Vec::new();
    let mut i: usize = 0;
    while i < v.len()
        invariant
            i <= v.len(),
            strings_view(out@) == method_names(v@).take(i as int),
        decreases v.len() - i,
    {
        let ghost before = out@;
        out.push(String::from_str(v[i].as_str()));
        assert(strings_view(out@) =~= method_names(v@).take(i + 1)) by {
            assert(strings_view(out@) =~= strings_view(before).push(method_name(v@[i as int].0)));
        }
        i = i + 1;
    }
    assert(method_names(v@).take(v.len() as int) =~= method_names(v@));
    out
}

/// Sets a header to a list of values, or removes it when the list is empty.
fn list_header(name: &str, values: &Vec<String>) -> (res: HeaderOp)
    ensures
        res@ == list_op(name@, strings_view(values@)),
{
    if values.len() > 0 {
        HeaderOp::Replace(String::from_str(name), join_strings(values, ", "))
    } else {
        HeaderOp::Remove(String::from_str(name))
    }
}

impl Response {
    /// Create an empty `Response`.
    pub fn new() -> (res: Response)
        ensures
            res@ == empty_response(),
    {
        let res = Response {
            allow_origin: None,
            allow_headers: Vec::new(),
            allow_methods: Vec::new(),
            allow_credentials: false,
            expose_headers: Vec::new(),
            max_age: None,
            vary_origin: false,
        };
        assert(res@.allow_headers =~= Seq::<Seq<char>>::empty());
        assert(res@.expose_headers =~= Seq::<Seq<char>>::empty());
        res
    }

    /// The response with its origin set to `origin` and its `vary_origin` set.
    pub fn origin(self, origin: &str, vary_origin: bool) -> (res: Response)
        ensures
            res@ == (ResponseView {
                allow_origin: Some(AllOrSome::Only(origin@)),
                vary_origin,
                ..self@
            }),
    {
        let mut r = self;
        r.allow_origin = Some(AllOrSome::Only(String::from_str(origin)));
        r.vary_origin = vary_origin;
        r
    }

    /// The response with its origin set to "*".
    pub fn any(self) -> (res: Response)
        ensures
            res@ == (ResponseView { allow_origin: Some(AllOrSome::<Seq<char>>::All), ..self@ }),
    {
        let mut r = self;
        r.allow_origin = Some(AllOrSome::All);
        r
    }

    /// The response with credentials allowed or not.
    pub fn credentials(self, value: bool) -> (res: Response)
        ensures
            res@ == (ResponseView { allow_credentials: value, ..self@ }),
    {
        let mut r = self;
        r.allow_credentials = value;
        r
    }

    /// The response with its exposed headers set to the given names, names
    /// equal after case folding kept once.
    pub fn exposed_headers(self, headers: &[&str]) -> (res: Response)
        ensures
            res@ == (ResponseView {
                expose_headers: caseless_dedup(strs_view(headers@)),
                ..self@
            }),
    {
        let mut r = self;
        r.expose_headers = names_from_strs(headers);
        r
    }

    /// The response with its max age set.
    pub fn max_age(self, value: Option<usize>) -> (res: Response)
        ensures
            res@ == (ResponseView { max_age: value, ..self@ }),
    {
        let mut r = self;
        r.max_age = value;
        r
    }

    /// The response with its allowed methods set.
    pub fn methods(self, methods: &Vec<Method>) -> (res: Response)
        ensures
            res@ == (ResponseView { allow_methods: methods@, ..self@ }),
    {
        let mut r = self;
        r.allow_methods = copy_methods(methods);
        r
    }

    /// The response with its allowed headers set to the given names, names
    /// equal after case folding kept once.
    pub fn headers(self, headers: &[&str]) -> (res: Response)
        ensures
            res@ == (ResponseView {
                allow_headers: caseless_dedup(strs_view(headers@)),
                ..self@
            }),
    {
        let mut r = self;
        r.allow_headers = names_from_strs(headers);
        r
    }

    /// The response with its allowed headers set to a set of names.
    pub fn header_names(self, headers: &Vec<HeaderFieldName>) -> (res: Response)
        ensures
            res@ == (ResponseView { allow_headers: names_view(headers@), ..self@ }),
    {
        let mut r = self;
        r.allow_headers = copy_names(headers);
        r
    }

    /// Merges this CORS response into a rocket response: every CORS header of
    /// the response is overwritten, and `Vary: Origin` is added when the
    /// response varies by origin; nothing happens when there is no allowed
    /// origin.
    pub fn merge(&self, response: &mut RocketResponse<'_>)
        ensures
            response_headers(*final(response)) == apply_ops(
                response_headers(*old(response)),
                merge_ops(self@),
            ),
            response_status(*final(response)) == response_status(*old(response)),
    {
        let ops = self.merge_ops();
        let ghost start = response_headers(*response);
        let ghost status = response_status(*response);
        let mut i: usize = 0;
        assert(ops_view(ops@).take(0) =~= Seq::<HeaderOpView>::empty());
        while i < ops.len()
            invariant
                i <= ops.len(),
                response_headers(*response) == apply_ops(start, ops_view(ops@).take(i as int)),
                response_status(*response) == status,
            decreases ops.len() - i,
        {
            assert(ops_view(ops@).take(i + 1).drop_last() =~= ops_view(ops@).take(i as int));
            assert(ops_view(ops@).take(i + 1).last() == ops@[i as int]@);
            match &ops[i] {
                HeaderOp::Replace(name, value) => response_set_header(
                    response,
                    String::from_str(name.as_str()),
                    String::from_str(value.as_str()),
                ),
                HeaderOp::Remove(name) => response_remove_header(response, name.as_str()),
                HeaderOp::Adjoin(name, value) => response_adjoin_header(
                    response,
                    String::from_str(name.as_str()),
                    String::from_str(value.as_str()),
                ),
            }
            i = i + 1;
        }
        assert(ops_view(ops@).take(ops.len() as int) =~= ops_view(ops@));
    }

    /// The header operations that merge this CORS response into an existing
    /// response, overwriting any CORS header it has.
    pub fn merge_ops(&self) -> (res: Vec<HeaderOp>)
        ensures
            ops_view(res@) == merge_ops(self@),
    {
        let mut ops: Vec<HeaderOp> = Vec::new();
        let origin = match &self.allow_origin {
            None => {
                assert(ops_view(ops@) =~= merge_ops(self@));
                return ops;
            },
            Some(origin) => origin,
        };
        proof {
            reveal_strlit("*");
        }
        let value = match origin {
            AllOrSome::All => String::from_str("*"),
            AllOrSome::Only(o) => o.clone(),
        };
        ops.push(HeaderOp::Replace(String::from_str("Access-Control-Allow-Origin"), value));
        if self.allow_credentials {
            ops.push(
                HeaderOp::Replace(
                    String::from_str("Access-Control-Allow-Credentials"),
                    String::from_str("true"),
                ),
            );
        } else {
            ops.push(HeaderOp::Remove(String::from_str("Access-Control-Allow-Credentials")));
        }
        let exposed = name_strings(&self.expose_headers);
        ops.push(list_header("Access-Control-Expose-Headers", &exposed));
        let allowed = name_strings(&self.allow_headers);
        ops.push(list_header("Access-Control-Allow-Headers", &allowed));
        let methods = method_strings(&self.allow_methods);
        ops.push(list_header("Access-Control-Allow-Methods", &methods));
        match self.max_age {
            Some(n) => ops.push(
                HeaderOp::Replace(String::from_str("Access-Control-Max-Age"), decimal_string(n)),
            ),
            None => ops.push(HeaderOp::Remove(String::from_str("Access-Control-Max-Age"))),
        }
        if self.vary_origin {
            ops.push(HeaderOp::Adjoin(String::from_str("Vary"), String::from_str("Origin")));
        }
        assert(ops_view(ops@) =~= merge_ops(self@));
        ops
    }
}

} // verus!
