//! Properties of the library as a whole, stated over the models that the
//! functions' contracts use, and proved.

use vstd::prelude::*;

use crate::error::{error_status, ErrorView};
use crate::external::url_origin_is_tuple;
use crate::handlers::{
    error_route_path, error_route_status_of, on_request_decision, on_response_decision,
    FairingResponseView,
};
use crate::headers::{parse_origin, parse_request_headers, OriginView, origin_text};
use crate::method::{method_name, HttpMethod, Method};
use crate::options::{allowed_headers_view, cors_from_options, cors_valid, CorsOptions, CorsView};
use crate::origins::{opaque_urls, origin_allowed, parse_allowed, AllOrSome, OriginsView};
use crate::response::{
    apply_op, apply_ops, empty_response, header_key, list_sep, merge_ops, method_names,
    op_target, HeaderOpView, ResponseView,
};
use crate::text::{
    ascii_caseless_eq, ascii_lowercase, caseless_contains, caseless_dedup, caseless_distinct,
    decimal_chars, dedup, lemma_u16_decimal_round_trip, method_from_name, strings_view,
};
use crate::validation::{
    build_response, check_method, check_origin, validate_request, RequestView, ValidationView,
};

verus! {

/// A response never allows credentials while allowing any origin with "*":
/// for a `Cors` made from options, every response built for a request either
/// names the request's origin or does not allow credentials.
pub proof fn law_no_wildcard_with_credentials(c: CorsView, r: RequestView)
    requires
        cors_valid(c),
    ensures
        build_response(c, r) matches Ok(resp) ==> !(resp.allow_origin == Some(
            AllOrSome::<Seq<char>>::All,
        ) && resp.allow_credentials),
{
}

/// A request without an `Origin` header is not a CORS request: it passes, and
/// its response gets no CORS header at all.
pub proof fn law_non_cors_request_untouched(c: CorsView, r: RequestView)
    requires
        r.origin is None,
    ensures
        validate_request(c, r) == Ok::<ValidationView, ErrorView>(ValidationView::NotCors),
        build_response(c, r) == Ok::<_, ErrorView>(empty_response()),
        merge_ops(empty_response()) == Seq::<HeaderOpView>::empty(),
{
}

/// When all origins are allowed, any origin passes the origin check.
pub proof fn law_all_origins_allowed(o: crate::headers::OriginView)
    ensures
        check_origin(AllOrSome::All, o) == Ok::<(), ErrorView>(()),
{
}

/// A valid preflight response lists exactly the requested headers, not the
/// whole list of allowed headers, and every one of them is allowed.
pub proof fn law_preflight_echoes_requested_headers(c: CorsView, r: RequestView)
    requires
        validate_request(c, r) matches Ok(ValidationView::Preflight { headers: Some(h), .. }),
    ensures
        build_response(c, r) matches Ok(resp) && resp.allow_headers
            == parse_request_headers(r.request_headers->Some_0),
        c.allowed_headers matches AllOrSome::Only(a) ==> forall|i: int|
            0 <= i < parse_request_headers(r.request_headers->Some_0).len()
                ==> crate::text::caseless_in(
                #[trigger] parse_request_headers(r.request_headers->Some_0)[i],
                a,
            ),
{
}

/// The fairing adds to a response exactly the CORS response that the request
/// guard builds for the same request, once the request has passed validation;
/// an `OPTIONS` request that no route handled becomes `204 No Content`.
pub proof fn law_fairing_agrees_with_guard(c: CorsView, r: RequestView, route_found: bool)
    requires
        validate_request(c, r) is Ok,
    ensures
        on_request_decision(c, r) is None,
        r.origin is None ==> on_response_decision(c, r, true, route_found) == Ok::<
            FairingResponseView,
            ErrorView,
        >(FairingResponseView::Leave),
        r.origin is Some ==> on_response_decision(c, r, true, route_found) == Ok::<
            FairingResponseView,
            ErrorView,
        >(
            FairingResponseView::Merge {
                response: build_response(c, r)->Ok_0,
                no_content: r.method == HttpMethod::Options && !route_found,
            },
        ),
{
}

/// A request that fails validation never reaches its route under the fairing:
/// it is rerouted to the error route of its error's status, and its response
/// is left as that route made it.
pub proof fn law_fairing_reroutes_failures(c: CorsView, r: RequestView, route_found: bool)
    requires
        validate_request(c, r) is Err,
    ensures
        on_request_decision(c, r) == Some(
            (
                error_status(validate_request(c, r)->Err_0),
                error_route_path(c.fairing_route_base, error_status(validate_request(c, r)->Err_0)),
            ),
        ),
        on_response_decision(c, r, false, route_found) == Ok::<FairingResponseView, ErrorView>(
            FairingResponseView::Leave,
        ),
{
}

/// A request that the fairing refuses is answered with the status of its
/// error: the path it is rerouted to is the route base, a slash and a segment,
/// and the error route answers that segment with the very status of the error.
pub proof fn law_refused_request_answered_with_its_status(c: CorsView, r: RequestView)
    requires
        validate_request(c, r) is Err,
    ensures
        on_request_decision(c, r) matches Some((status, uri)) && status == error_status(
            validate_request(c, r)->Err_0,
        ) && uri == c.fairing_route_base + seq!['/'] + decimal_chars(status as nat)
            && error_route_status_of(Some(decimal_chars(status as nat))) == status,
{
    lemma_u16_decimal_round_trip(error_status(validate_request(c, r)->Err_0));
}

/// The names collected by a case-insensitive set are pairwise distinct after
/// case folding, each is one of the names given, and each name given is one of
/// them or equals one of them after case folding.
pub proof fn law_caseless_set(s: Seq<Seq<char>>)
    ensures
        caseless_distinct(caseless_dedup(s)),
        forall|i: int| 0 <= i < caseless_dedup(s).len() ==> s.contains(#[trigger] caseless_dedup(s)[i]),
        forall|j: int|
            0 <= j < s.len() ==> caseless_dedup(s).contains(#[trigger] s[j]) || caseless_contains(
                caseless_dedup(s),
                s[j],
            ),
    decreases s.len(),
{
    if s.len() > 0 {
        let prev = caseless_dedup(s.drop_last());
        law_caseless_set(s.drop_last());
        let d = caseless_dedup(s);
        assert forall|i: int| 0 <= i < d.len() implies s.contains(#[trigger] d[i]) by {
            if i < prev.len() {
                assert(s.drop_last().contains(prev[i]));
                let k = choose|k: int| 0 <= k < s.drop_last().len() && s.drop_last()[k] == prev[i];
                assert(s[k] == prev[i]);
            } else {
                assert(s[s.len() - 1] == d[i]);
            }
        }
        assert forall|j: int| 0 <= j < s.len() implies d.contains(#[trigger] s[j])
            || caseless_contains(d, s[j]) by {
            if j < s.len() - 1 {
                assert(s.drop_last()[j] == s[j]);
                if prev.contains(s[j]) {
                    let k = choose|k: int| 0 <= k < prev.len() && prev[k] == s[j];
                    assert(d[k] == prev[k]);
                } else {
                    let k = choose|k: int|
                        0 <= k < prev.len() && crate::external::unicase_eq(prev[k], s[j]);
                    assert(d[k] == prev[k]);
                }
            } else if !caseless_contains(prev, s.last()) {
                assert(d[prev.len() as int] == s.last());
            }
        }
    }
}

/// Two texts equal to a third ignoring ASCII case are equal to each other
/// ignoring ASCII case.
proof fn lemma_caseless_through(s: Seq<char>, a: Seq<char>, b: Seq<char>)
    requires
        ascii_caseless_eq(s, a),
        ascii_caseless_eq(s, b),
    ensures
        ascii_caseless_eq(a, b),
{
    assert forall|i: int| 0 <= i < a.len() implies ascii_lowercase(#[trigger] a[i])
        == ascii_lowercase(b[i]) by {
        assert(ascii_lowercase(s[i]) == ascii_lowercase(a[i]));
        assert(ascii_lowercase(s[i]) == ascii_lowercase(b[i]));
    }
}

/// The names of two different methods differ even ignoring case.
proof fn lemma_method_names_differ(m1: HttpMethod, m2: HttpMethod)
    requires
        m1 != m2,
    ensures
        !ascii_caseless_eq(method_name(m1), method_name(m2)),
{
    let a = method_name(m1);
    let b = method_name(m2);
    if a.len() == b.len() {
        assert(ascii_lowercase(a[0]) != ascii_lowercase(b[0]));
    }
}

/// A method is recognized from its name written in any ASCII case, and in
/// particular from the name it is written with.
pub proof fn law_method_name_any_case(m: HttpMethod, s: Seq<char>)
    requires
        ascii_caseless_eq(s, method_name(m)),
    ensures
        method_from_name(s) == Some(m),
        method_from_name(method_name(m)) == Some(m),
{
    assert forall|other: HttpMethod| other != m implies !ascii_caseless_eq(
        s,
        #[trigger] method_name(other),
    ) by {
        lemma_method_names_differ(m, other);
        if ascii_caseless_eq(s, method_name(other)) {
            lemma_caseless_through(s, method_name(m), method_name(other));
        }
    }
    let n = method_name(m);
    assert(ascii_caseless_eq(n, n));
    assert forall|other: HttpMethod| other != m implies !ascii_caseless_eq(
        n,
        #[trigger] method_name(other),
    ) by {
        lemma_method_names_differ(m, other);
    }
    assert(method_name(HttpMethod::Get) == seq!['G', 'E', 'T']);
    assert(method_name(HttpMethod::Put) == seq!['P', 'U', 'T']);
    assert(method_name(HttpMethod::Post) == seq!['P', 'O', 'S', 'T']);
    assert(method_name(HttpMethod::Delete) == seq!['D', 'E', 'L', 'E', 'T', 'E']);
    assert(method_name(HttpMethod::Options) == seq!['O', 'P', 'T', 'I', 'O', 'N', 'S']);
    assert(method_name(HttpMethod::Head) == seq!['H', 'E', 'A', 'D']);
    assert(method_name(HttpMethod::Trace) == seq!['T', 'R', 'A', 'C', 'E']);
    assert(method_name(HttpMethod::Connect) == seq!['C', 'O', 'N', 'N', 'E', 'C', 'T']);
    assert(method_name(HttpMethod::Patch) == seq!['P', 'A', 'T', 'C', 'H']);
}

/// The CORS response headers, in the order a response writes them.
pub open spec fn cors_header_names() -> Seq<Seq<char>> {
    seq![
        "Access-Control-Allow-Origin"@,
        "Access-Control-Allow-Credentials"@,
        "Access-Control-Expose-Headers"@,
        "Access-Control-Allow-Headers"@,
        "Access-Control-Allow-Methods"@,
        "Access-Control-Max-Age"@,
    ]
}

/// Merging a CORS response into a response overwrites every CORS header of
/// it, each set or removed exactly once, and otherwise only adds `Vary: Origin`.
pub proof fn law_merge_overwrites_cors_headers(r: ResponseView)
    requires
        r.allow_origin is Some,
    ensures
        merge_ops(r).len() == 6 || merge_ops(r).len() == 7,
        forall|k: int|
            0 <= k < 6 ==> op_target(#[trigger] merge_ops(r)[k]) == cors_header_names()[k] && !(
            merge_ops(r)[k] is Adjoin),
        merge_ops(r).len() == 7 <==> r.vary_origin,
        r.vary_origin ==> merge_ops(r)[6] == HeaderOpView::Adjoin("Vary"@, "Origin"@),
{
}

/// Whether some operation of a list acts on a header key.
pub open spec fn acts_on(ops: Seq<HeaderOpView>, k: Seq<char>) -> bool {
    exists|i: int| 0 <= i < ops.len() && #[trigger] header_key(op_target(ops[i])) == k
}

/// Whether no operation of a list adds a value to a header.
pub open spec fn no_adjoin(ops: Seq<HeaderOpView>) -> bool {
    forall|i: int| 0 <= i < ops.len() ==> !(#[trigger] ops[i] is Adjoin)
}

/// Operations leave alone the headers they do not act on.
proof fn lemma_untouched_kept(h: Map<Seq<char>, Seq<Seq<char>>>, ops: Seq<HeaderOpView>, k: Seq<char>)
    requires
        !acts_on(ops, k),
    ensures
        apply_ops(h, ops).get(k) == h.get(k),
    decreases ops.len(),
{
    if ops.len() > 0 {
        assert forall|i: int| 0 <= i < ops.drop_last().len() implies header_key(
            op_target(#[trigger] ops.drop_last()[i]),
        ) != k by {
            assert(ops.drop_last()[i] == ops[i]);
        }
        lemma_untouched_kept(h, ops.drop_last(), k);
        assert(header_key(op_target(ops[ops.len() - 1])) != k);
    }
}

/// Without `Adjoin`, what operations leave at a header they act on does not
/// depend on the headers they start from.
proof fn lemma_acted_on_agree(
    h1: Map<Seq<char>, Seq<Seq<char>>>,
    h2: Map<Seq<char>, Seq<Seq<char>>>,
    ops: Seq<HeaderOpView>,
    k: Seq<char>,
)
    requires
        no_adjoin(ops),
        acts_on(ops, k),
    ensures
        apply_ops(h1, ops).get(k) == apply_ops(h2, ops).get(k),
    decreases ops.len(),
{
    let last = ops[ops.len() - 1];
    assert(!(last is Adjoin));
    if header_key(op_target(last)) != k {
        let i = choose|i: int| 0 <= i < ops.len() && #[trigger] header_key(op_target(ops[i])) == k;
        assert(ops.drop_last()[i] == ops[i]);
        assert(acts_on(ops.drop_last(), k));
        assert forall|j: int| 0 <= j < ops.drop_last().len() implies !(#[trigger] ops.drop_last()[j] is Adjoin) by {
            assert(ops.drop_last()[j] == ops[j]);
        }
        lemma_acted_on_agree(h1, h2, ops.drop_last(), k);
    }
}

/// Without `Adjoin`, headers that already hold, at every header the operations
/// act on, what the operations leave there are left as they are.
proof fn lemma_settled(
    m: Map<Seq<char>, Seq<Seq<char>>>,
    h: Map<Seq<char>, Seq<Seq<char>>>,
    ops: Seq<HeaderOpView>,
)
    requires
        no_adjoin(ops),
        forall|k: Seq<char>| acts_on(ops, k) ==> m.get(k) == #[trigger] apply_ops(h, ops).get(k),
    ensures
        apply_ops(m, ops) == m,
{
    assert forall|k: Seq<char>| #[trigger] apply_ops(m, ops).get(k) == m.get(k) by {
        if acts_on(ops, k) {
            lemma_acted_on_agree(m, h, ops, k);
        } else {
            lemma_untouched_kept(m, ops, k);
        }
    }
    assert forall|k: Seq<char>| #[trigger] apply_ops(m, ops).dom().contains(k) <==> m.dom().contains(k) by {
        assert(apply_ops(m, ops).get(k) == m.get(k));
    }
    assert forall|k: Seq<char>| #[trigger] apply_ops(m, ops).dom().contains(k) implies apply_ops(
        m,
        ops,
    )[k] == m[k] by {
        assert(apply_ops(m, ops).get(k) == m.get(k));
    }
    assert(apply_ops(m, ops) =~= m);
}

/// Merging a CORS response into a response's headers twice leaves them as one
/// merge did, except that a response that varies by origin gets one more
/// `Origin` value in `Vary`; and a merge changes no header that none of its
/// operations acts on, that is no header but the CORS headers and `Vary`.
pub proof fn law_merge_twice(r: ResponseView, h: Map<Seq<char>, Seq<Seq<char>>>)
    ensures
        !r.vary_origin ==> apply_ops(apply_ops(h, merge_ops(r)), merge_ops(r)) == apply_ops(
            h,
            merge_ops(r),
        ),
        r.vary_origin && r.allow_origin is Some ==> ({
            let once = apply_ops(h, merge_ops(r));
            let vary = header_key("Vary"@);
            &&& once.contains_key(vary)
            &&& apply_ops(once, merge_ops(r)) == once.insert(vary, once[vary].push("Origin"@))
        }),
        forall|k: Seq<char>|
            !acts_on(merge_ops(r), k) ==> #[trigger] apply_ops(h, merge_ops(r)).get(k) == h.get(k),
{
    let ops = merge_ops(r);
    assert forall|k: Seq<char>| !acts_on(ops, k) implies #[trigger] apply_ops(h, ops).get(k)
        == h.get(k) by {
        lemma_untouched_kept(h, ops, k);
    }
    if r.allow_origin is None {
        assert(ops.len() == 0);
    } else {
        law_merge_overwrites_cors_headers(r);
        let six = ops.take(6);
        assert forall|i: int| 0 <= i < six.len() implies !(#[trigger] six[i] is Adjoin) by {
            assert(six[i] == ops[i]);
        }
        if !r.vary_origin {
            assert(six =~= ops);
            let once = apply_ops(h, ops);
            assert forall|k: Seq<char>| acts_on(ops, k) implies once.get(k)
                == #[trigger] apply_ops(h, ops).get(k) by {}
            lemma_settled(once, h, ops);
        } else {
            let vary = header_key("Vary"@);
            let adj = HeaderOpView::Adjoin("Vary"@, "Origin"@);
            assert(ops.drop_last() =~= six);
            assert(ops.last() == adj);
            let mid = apply_ops(h, six);
            let once = apply_ops(h, ops);
            assert(once == apply_op(mid, adj));
            reveal_strlit("Vary");
            reveal_strlit("Access-Control-Allow-Origin");
            reveal_strlit("Access-Control-Allow-Credentials");
            reveal_strlit("Access-Control-Expose-Headers");
            reveal_strlit("Access-Control-Allow-Headers");
            reveal_strlit("Access-Control-Allow-Methods");
            reveal_strlit("Access-Control-Max-Age");
            assert(!acts_on(six, vary)) by {
                assert forall|i: int| 0 <= i < six.len() implies #[trigger] header_key(
                    op_target(six[i]),
                ) != vary by {
                    assert(six[i] == ops[i]);
                    assert(op_target(ops[i]) == cors_header_names()[i]);
                    assert(cors_header_names()[i].len() > 4);
                    assert(header_key(op_target(six[i])).len() == cors_header_names()[i].len());
                    assert(vary.len() == 4);
                }
            }
            assert forall|k: Seq<char>| acts_on(six, k) implies once.get(k)
                == #[trigger] apply_ops(h, six).get(k) by {
                assert(k != vary);
            }
            lemma_settled(once, h, six);
            assert(apply_ops(once, ops) == apply_op(apply_ops(once, six), adj));
        }
    }
}

/// The values a header holds after an operation that is not `Adjoin`.
pub open spec fn written_values(op: HeaderOpView) -> Option<Seq<Seq<char>>> {
    match op {
        HeaderOpView::Replace(_, v) => Some(seq![v]),
        _ => None,
    }
}

/// The values a list header holds: the names joined by ", ", or none when
/// there are no names.
pub open spec fn list_values(names: Seq<Seq<char>>) -> Option<Seq<Seq<char>>> {
    if names.len() > 0 {
        Some(seq![crate::text::join(names, list_sep())])
    } else {
        None
    }
}

/// A header that an operation other than `Adjoin` writes holds what it
/// wrote, when no later operation acts on it.
proof fn lemma_last_write(h: Map<Seq<char>, Seq<Seq<char>>>, ops: Seq<HeaderOpView>, j: int)
    requires
        0 <= j < ops.len(),
        !(ops[j] is Adjoin),
        forall|i: int|
            j < i < ops.len() ==> #[trigger] header_key(op_target(ops[i])) != header_key(
                op_target(ops[j]),
            ),
    ensures
        apply_ops(h, ops).get(header_key(op_target(ops[j]))) == written_values(ops[j]),
    decreases ops.len(),
{
    if j < ops.len() - 1 {
        assert(ops.drop_last()[j] == ops[j]);
        assert forall|i: int| j < i < ops.drop_last().len() implies #[trigger] header_key(
            op_target(ops.drop_last()[i]),
        ) != header_key(op_target(ops.drop_last()[j])) by {
            assert(ops.drop_last()[i] == ops[i]);
        }
        lemma_last_write(h, ops.drop_last(), j);
        assert(header_key(op_target(ops[ops.len() - 1])) != header_key(op_target(ops[j])));
    }
}

/// The keys of the CORS headers differ from each other and from that of `Vary`.
proof fn lemma_cors_keys_distinct()
    ensures
        forall|a: int, b: int|
            0 <= a < 6 && 0 <= b < 6 && a != b ==> #[trigger] header_key(cors_header_names()[a])
                != #[trigger] header_key(cors_header_names()[b]),
        forall|a: int| 0 <= a < 6 ==> #[trigger] header_key(cors_header_names()[a]) != header_key("Vary"@),
{
    reveal_strlit("Vary");
    reveal_strlit("Access-Control-Allow-Origin");
    reveal_strlit("Access-Control-Allow-Credentials");
    reveal_strlit("Access-Control-Expose-Headers");
    reveal_strlit("Access-Control-Allow-Headers");
    reveal_strlit("Access-Control-Allow-Methods");
    reveal_strlit("Access-Control-Max-Age");
    let n = cors_header_names();
    assert forall|a: int| 0 <= a < 6 implies #[trigger] header_key(n[a]).len() == n[a].len() by {}
    assert(n[0].len() == 27);
    assert(n[1].len() == 32);
    assert(n[2].len() == 29);
    assert(n[3].len() == 28);
    assert(n[4].len() == 28);
    assert(n[5].len() == 22);
    assert(header_key("Vary"@).len() == 4);
    assert(n[3][21] == 'H');
    assert(n[4][21] == 'M');
    assert(header_key(n[3])[21] == 'h');
    assert(header_key(n[4])[21] == 'm');
    assert forall|a: int, b: int|
        0 <= a < 6 && 0 <= b < 6 && a != b implies #[trigger] header_key(n[a])
            != #[trigger] header_key(n[b]) by {
        if (a == 3 && b == 4) || (a == 4 && b == 3) {
            assert(header_key(n[a])[21] != header_key(n[b])[21]);
        } else {
            assert(header_key(n[a]).len() != header_key(n[b]).len());
        }
    }
}

/// What the headers of a response hold after a CORS response with an allowed
/// origin is merged in: `Access-Control-Allow-Origin` holds "*" or the origin;
/// `Access-Control-Allow-Credentials` holds "true" when credentials are allowed
/// and is absent otherwise; the exposed headers, allowed headers and allowed
/// methods are each one ", "-joined value, or absent when there are none;
/// `Access-Control-Max-Age` holds the max age in decimal, or is absent; and
/// `Vary` gets "Origin" after its values when the response varies by origin,
/// and is unchanged otherwise.
pub proof fn law_merged_headers(r: ResponseView, h: Map<Seq<char>, Seq<Seq<char>>>)
    requires
        r.allow_origin is Some,
    ensures
        apply_ops(h, merge_ops(r)).get(header_key("Access-Control-Allow-Origin"@)) == Some(
            seq![
                match r.allow_origin->Some_0 {
                    AllOrSome::All => "*"@,
                    AllOrSome::Only(o) => o,
                },
            ],
        ),
        apply_ops(h, merge_ops(r)).get(header_key("Access-Control-Allow-Credentials"@)) == if r.allow_credentials {
            Some(seq!["true"@])
        } else {
            None
        },
        apply_ops(h, merge_ops(r)).get(header_key("Access-Control-Expose-Headers"@)) == list_values(
            r.expose_headers,
        ),
        apply_ops(h, merge_ops(r)).get(header_key("Access-Control-Allow-Headers"@)) == list_values(
            r.allow_headers,
        ),
        apply_ops(h, merge_ops(r)).get(header_key("Access-Control-Allow-Methods"@)) == list_values(
            method_names(r.allow_methods),
        ),
        apply_ops(h, merge_ops(r)).get(header_key("Access-Control-Max-Age"@)) == match r.max_age {
            Some(n) => Some(seq![crate::text::decimal_chars(n as nat)]),
            None => None::<Seq<Seq<char>>>,
        },
        r.vary_origin ==> apply_ops(h, merge_ops(r)).get(header_key("Vary"@)) == Some(
            match h.get(header_key("Vary"@)) {
                Some(v) => v,
                None => Seq::<Seq<char>>::empty(),
            }.push("Origin"@),
        ),
        !r.vary_origin ==> apply_ops(h, merge_ops(r)).get(header_key("Vary"@)) == h.get(
            header_key("Vary"@),
        ),
{
    let ops = merge_ops(r);
    law_merge_overwrites_cors_headers(r);
    lemma_cors_keys_distinct();
    let n = cors_header_names();
    assert forall|j: int| 0 <= j < 6 implies apply_ops(h, ops).get(header_key(n[j]))
        == written_values(#[trigger] ops[j]) by {
        assert(op_target(ops[j]) == n[j]);
        assert forall|i: int| j < i < ops.len() implies #[trigger] header_key(op_target(ops[i]))
            != header_key(op_target(ops[j])) by {
            if i < 6 {
                assert(op_target(ops[i]) == n[i]);
            } else {
                assert(op_target(ops[i]) == "Vary"@);
            }
        }
        lemma_last_write(h, ops, j);
    }
    assert(written_values(ops[0]) == Some(
        seq![
            match r.allow_origin->Some_0 {
                AllOrSome::All => "*"@,
                AllOrSome::Only(o) => o,
            },
        ],
    ));
    assert(written_values(ops[1]) == if r.allow_credentials {
        Some(seq!["true"@])
    } else {
        None
    });
    assert(written_values(ops[2]) == list_values(r.expose_headers));
    assert(written_values(ops[3]) == list_values(r.allow_headers));
    assert(written_values(ops[4]) == list_values(method_names(r.allow_methods)));
    let vary = header_key("Vary"@);
    let six = ops.take(6);
    assert(!acts_on(six, vary)) by {
        assert forall|i: int| 0 <= i < six.len() implies #[trigger] header_key(op_target(six[i]))
            != vary by {
            assert(six[i] == ops[i]);
            assert(op_target(ops[i]) == n[i]);
        }
    }
    lemma_untouched_kept(h, six, vary);
    if r.vary_origin {
        assert(ops.drop_last() =~= six);
    } else {
        assert(six =~= ops);
    }
}

/// The origins that validation reports as opaque are exactly the configured
/// exact origins whose URL origin is opaque, in their configured order.
pub proof fn law_opaque_urls_are_the_opaque_origins(s: Seq<Seq<char>>)
    ensures
        forall|x: Seq<char>|
            #[trigger] opaque_urls(s).contains(x) <==> (s.contains(x) && !url_origin_is_tuple(x)),
        opaque_urls(s).len() <= s.len(),
    decreases s.len(),
{
    if s.len() > 0 {
        let prev = s.drop_last();
        law_opaque_urls_are_the_opaque_origins(prev);
        assert forall|x: Seq<char>| #[trigger] opaque_urls(s).contains(x) <==> (s.contains(x)
            && !url_origin_is_tuple(x)) by {
            if s.contains(x) && !url_origin_is_tuple(x) {
                let k = choose|k: int| 0 <= k < s.len() && s[k] == x;
                if k < s.len() - 1 {
                    assert(prev[k] == x);
                    assert(opaque_urls(prev).contains(x));
                    let m = choose|m: int| 0 <= m < opaque_urls(prev).len() && opaque_urls(prev)[m] == x;
                    assert(opaque_urls(s)[m] == x);
                } else {
                    assert(opaque_urls(s).last() == x);
                    assert(opaque_urls(s)[opaque_urls(s).len() - 1] == x);
                }
            }
            if opaque_urls(s).contains(x) {
                let m = choose|m: int| 0 <= m < opaque_urls(s).len() && opaque_urls(s)[m] == x;
                if m < opaque_urls(prev).len() {
                    assert(opaque_urls(prev)[m] == x);
                    assert(opaque_urls(prev).contains(x));
                    let k = choose|k: int| 0 <= k < prev.len() && prev[k] == x;
                    assert(s[k] == x);
                } else {
                    assert(x == s.last());
                    assert(s[s.len() - 1] == x);
                }
            }
        }
    }
}

/// The names an `Access-Control-Request-Headers` value lists form a set:
/// pairwise distinct after case folding, each a trimmed comma separated piece
/// of the value, and, unless the value is blank, covering every such piece.
pub proof fn law_request_headers_form_a_set(v: Seq<char>)
    ensures
        caseless_distinct(parse_request_headers(v)),
        forall|i: int|
            0 <= i < parse_request_headers(v).len() ==> crate::text::split_on(v, ',').map_values(
                |p: Seq<char>| crate::text::trim(p),
            ).contains(#[trigger] parse_request_headers(v)[i]),
        crate::text::trim(v).len() > 0 ==> forall|j: int|
            0 <= j < crate::text::split_on(v, ',').len() ==> {
                let t = crate::text::trim(#[trigger] crate::text::split_on(v, ',')[j]);
                parse_request_headers(v).contains(t) || caseless_contains(
                    parse_request_headers(v),
                    t,
                )
            },
{
    let pieces = crate::text::split_on(v, ',').map_values(|p: Seq<char>| crate::text::trim(p));
    law_caseless_set(pieces);
    if crate::text::trim(v).len() > 0 {
        assert forall|j: int| 0 <= j < crate::text::split_on(v, ',').len() implies {
            let t = crate::text::trim(#[trigger] crate::text::split_on(v, ',')[j]);
            parse_request_headers(v).contains(t) || caseless_contains(parse_request_headers(v), t)
        } by {
            assert(pieces[j] == crate::text::trim(crate::text::split_on(v, ',')[j]));
        }
    }
}

/// A list without repeats keeps exactly the elements of the list it was made
/// from.
proof fn lemma_dedup_contains<A>(s: Seq<A>, x: A)
    ensures
        dedup(s).contains(x) <==> s.contains(x),
    decreases s.len(),
{
    if s.len() > 0 {
        let prev = s.drop_last();
        lemma_dedup_contains(prev, x);
        lemma_dedup_contains(prev, s.last());
        if s.contains(x) {
            let k = choose|k: int| 0 <= k < s.len() && s[k] == x;
            if k < s.len() - 1 {
                assert(prev[k] == x);
            }
            if !dedup(prev).contains(s.last()) {
                assert(dedup(s) == dedup(prev).push(s.last()));
                assert(dedup(s)[dedup(prev).len() as int] == s.last());
            }
            if dedup(prev).contains(x) {
                let m = choose|m: int| 0 <= m < dedup(prev).len() && dedup(prev)[m] == x;
                if !dedup(prev).contains(s.last()) {
                    assert(dedup(s)[m] == x);
                }
            }
        }
        if dedup(s).contains(x) {
            let m = choose|m: int| 0 <= m < dedup(s).len() && dedup(s)[m] == x;
            if m < dedup(prev).len() {
                assert(dedup(prev)[m] == x);
                let k = choose|k: int| 0 <= k < prev.len() && prev[k] == x;
                assert(s[k] == x);
            } else {
                assert(s[s.len() - 1] == x);
            }
        }
    }
}

/// The method check accepts a method that stands anywhere in the allowed
/// list, and refuses one that stands nowhere in it with `MethodNotAllowed`
/// and the method's name.
pub proof fn law_method_allowed_at_any_position(m: Method, allowed: Seq<Method>)
    ensures
        forall|i: int| 0 <= i < allowed.len() && #[trigger] allowed[i] == m ==> check_method(m, allowed) is Ok,
        (forall|i: int| 0 <= i < allowed.len() ==> #[trigger] allowed[i] != m) ==> check_method(m, allowed)
            == Err::<(), ErrorView>(ErrorView::MethodNotAllowed(method_name(m.0))),
{
    assert forall|i: int| 0 <= i < allowed.len() && #[trigger] allowed[i] == m implies check_method(m, allowed) is Ok by {
        assert(allowed.contains(m));
    }
}

/// A preflight request from an allowed origin that asks for a known method
/// passes only when that method is one of the allowed methods, wherever it
/// stands in the list and whatever headers are requested; a method that is
/// not allowed is refused with `MethodNotAllowed` and its name. An allowed
/// method passes when no headers are requested, or when all headers are
/// allowed, and the result echoes the origin and the requested headers.
pub proof fn law_preflight_requires_allowed_method(
    c: CorsView,
    r: RequestView,
    o: OriginView,
    m: HttpMethod,
)
    requires
        r.method == HttpMethod::Options,
        r.origin matches Some(oh) && parse_origin(oh) == Some(o),
        c.allowed_origins is All || (c.allowed_origins matches AllOrSome::Only(p) && origin_allowed(p, o)),
        r.request_method matches Some(s) && method_from_name(s) == Some(m),
    ensures
        validate_request(c, r) is Ok ==> c.allowed_methods.contains(Method(m)),
        !c.allowed_methods.contains(Method(m)) ==> validate_request(c, r) == Err::<
            ValidationView,
            ErrorView,
        >(ErrorView::MethodNotAllowed(method_name(m))),
        forall|i: int|
            0 <= i < c.allowed_methods.len() && #[trigger] c.allowed_methods[i] == Method(m) && (
            r.request_headers is None || c.allowed_headers is All) ==> validate_request(c, r) == Ok::<
                ValidationView,
                ErrorView,
            >(
                ValidationView::Preflight {
                    origin: origin_text(o),
                    headers: match r.request_headers {
                        Some(h) => Some(parse_request_headers(h)),
                        None => None,
                    },
                },
            ),
{
    assert forall|i: int|
        0 <= i < c.allowed_methods.len() && #[trigger] c.allowed_methods[i] == Method(m) implies c.allowed_methods.contains(Method(m)) by {}
}

/// The response to an allowed CORS request allows credentials exactly as the
/// settings do, whether all origins or only some are allowed; a preflight
/// response carries the configured max age and all the allowed methods.
pub proof fn law_response_keeps_settings(c: CorsView, r: RequestView)
    requires
        r.origin is Some,
    ensures
        build_response(c, r) matches Ok(resp) ==> resp.allow_credentials == c.allow_credentials,
        r.method == HttpMethod::Options ==> (build_response(c, r) matches Ok(resp) ==> resp.max_age
            == c.max_age && resp.allow_methods == c.allowed_methods),
{
}

/// A `Cors` made from options keeps every setting of the options: the same
/// credentials, exposed headers, max age, wildcard, route base and rank and
/// allowed headers, the same allowed methods (each once), all origins when all
/// were allowed, and the configured acceptance of the null origin.
pub proof fn law_cors_keeps_options(o: CorsOptions)
    ensures
        cors_from_options(&o) matches Ok(c) ==> {
            &&& c.max_age == o.max_age
            &&& c.allow_credentials == o.allow_credentials
            &&& c.send_wildcard == o.send_wildcard
            &&& c.expose_headers == strings_view(o.expose_headers@)
            &&& c.fairing_route_base == o.fairing_route_base@
            &&& c.fairing_route_rank == o.fairing_route_rank
            &&& c.allowed_headers == allowed_headers_view(o.allowed_headers)
            &&& forall|m: Method| #[trigger] c.allowed_methods.contains(m) <==> o.allowed_methods@.contains(m)
            &&& (c.allowed_origins is All <==> o.allowed_origins is All)
            &&& (o.allowed_origins matches AllOrSome::Only(origins) ==> c.allowed_origins matches AllOrSome::Only(p)
                && p.allow_null == origins.allow_null)
        },
{
    if cors_from_options(&o) is Ok {
        let c = cors_from_options(&o)->Ok_0;
        assert forall|m: Method| #[trigger] c.allowed_methods.contains(m) <==> o.allowed_methods@.contains(m) by {
            lemma_dedup_contains(o.allowed_methods@, m);
        }
    }
}

/// Validating configured origins keeps whether the null origin is accepted.
pub proof fn law_parse_keeps_null(o: OriginsView)
    ensures
        parse_allowed(o) matches Ok(p) ==> p.allow_null == o.allow_null,
{
}

/// An actual request with the null origin passes exactly when all origins are
/// allowed or null origins are configured as allowed.
pub proof fn law_null_origin_allowed_when_configured(c: CorsView, r: RequestView)
    requires
        r.origin matches Some(oh) && parse_origin(oh) == Some(OriginView::Null),
        r.method != HttpMethod::Options,
    ensures
        validate_request(c, r) is Ok <==> (c.allowed_origins matches AllOrSome::Only(p) ==> p.allow_null),
{
}

} // verus!
