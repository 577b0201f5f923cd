//! Character and string functions used to read and write header values:
//! ASCII case, white space, trimming, splitting on a separator, joining, and
//! the duplicate-free lists that stand for the sets of the protocol.

use vstd::prelude::*;

use crate::external::unicase_eq;
use crate::method::HttpMethod;

verus! {

/// The ASCII lowercase of a character; other characters are unchanged.
pub open spec fn ascii_lowercase(c: char) -> char {
    if 'A' <= c && c <= 'Z' {
        ((c as u32) + 32) as char
    } else {
        c
    }
}

/// Equality ignoring ASCII case, character by character.
pub open spec fn ascii_caseless_eq(a: Seq<char>, b: Seq<char>) -> bool {
    &&& a.len() == b.len()
    &&& forall|i: int| 0 <= i < a.len() ==> ascii_lowercase(#[trigger] a[i]) == ascii_lowercase(b[i])
}

/// The method a name stands for, ignoring ASCII case.
pub open spec fn method_from_name(s: Seq<char>) -> Option<HttpMethod> {
    if ascii_caseless_eq(s, seq!['G', 'E', 'T']) {
        Some(HttpMethod::Get)
    } else if ascii_caseless_eq(s, seq!['P', 'U', 'T']) {
        Some(HttpMethod::Put)
    } else if ascii_caseless_eq(s, seq!['P', 'O', 'S', 'T']) {
        Some(HttpMethod::Post)
    } else if ascii_caseless_eq(s, seq!['D', 'E', 'L', 'E', 'T', 'E']) {
        Some(HttpMethod::Delete)
    } else if ascii_caseless_eq(s, seq!['O', 'P', 'T', 'I', 'O', 'N', 'S']) {
        Some(HttpMethod::Options)
    } else if ascii_caseless_eq(s, seq!['H', 'E', 'A', 'D']) {
        Some(HttpMethod::Head)
    } else if ascii_caseless_eq(s, seq!['T', 'R', 'A', 'C', 'E']) {
        Some(HttpMethod::Trace)
    } else if ascii_caseless_eq(s, seq!['C', 'O', 'N', 'N', 'E', 'C', 'T']) {
        Some(HttpMethod::Connect)
    } else if ascii_caseless_eq(s, seq!['P', 'A', 'T', 'C', 'H']) {
        Some(HttpMethod::Patch)
    } else {
        None
    }
}

/// The decimal digit character of `d`, for `d < 10`.
pub open spec fn digit_char(d: nat) -> char {
    ((48 + d) as u32) as char
}

/// The decimal numeral of `n`, without leading zeros.
pub open spec fn decimal_chars(n: nat) -> Seq<char>
    decreases n,
{
    if n < 10 {
        seq![digit_char(n)]
    } else {
        decimal_chars(n / 10).push(digit_char(n % 10))
    }
}

/// Whether a character is a decimal digit.
pub open spec fn is_decimal_digit(c: char) -> bool {
    '0' <= c && c <= '9'
}

/// The value of a decimal digit character.
pub open spec fn digit_value(c: char) -> nat {
    (c as int - 48) as nat
}

/// The value of a string of decimal digits, leading zeros allowed.
pub open spec fn digits_value(s: Seq<char>) -> nat
    decreases s.len(),
{
    if s.len() == 0 {
        0
    } else {
        digits_value(s.drop_last()) * 10 + digit_value(s.last())
    }
}

/// The characters after an optional leading `+`.
pub open spec fn unsigned_digits(s: Seq<char>) -> Seq<char> {
    if s.len() > 0 && s[0] == '+' {
        s.drop_first()
    } else {
        s
    }
}

/// Whether every character is a decimal digit.
pub open spec fn all_decimal_digits(s: Seq<char>) -> bool {
    forall|i: int| 0 <= i < s.len() ==> is_decimal_digit(#[trigger] s[i])
}

/// What `u16::from_str` gives: the value of an optional `+` followed by at
/// least one decimal digit and nothing else, when it fits in 16 bits.
pub open spec fn u16_from_decimal(s: Seq<char>) -> Option<u16> {
    let digits = unsigned_digits(s);
    if digits.len() > 0 && all_decimal_digits(digits) && digits_value(digits) <= u16::MAX {
        Some(digits_value(digits) as u16)
    } else {
        None
    }
}

/// The decimal numeral of a number is a nonempty string of digits whose value
/// is the number.
pub proof fn lemma_decimal_chars_value(n: nat)
    ensures
        decimal_chars(n).len() > 0,
        forall|i: int| 0 <= i < decimal_chars(n).len() ==> is_decimal_digit(#[trigger] decimal_chars(n)[i]),
        digits_value(decimal_chars(n)) == n,
    decreases n,
{
    let s = decimal_chars(n);
    if n < 10 {
        assert(s.drop_last() =~= Seq::<char>::empty());
        assert(digits_value(s.drop_last()) == 0);
        assert(digit_value(s.last()) == n);
    } else {
        lemma_decimal_chars_value(n / 10);
        assert(s.drop_last() =~= decimal_chars(n / 10));
        assert(digit_value(s.last()) == n % 10);
        assert(n == (n / 10) * 10 + n % 10) by (nonlinear_arith);
    }
    assert(digits_value(s) == digits_value(s.drop_last()) * 10 + digit_value(s.last()));
}

/// Reading back the decimal numeral of a 16-bit number gives the number.
pub proof fn lemma_u16_decimal_round_trip(n: u16)
    ensures
        u16_from_decimal(decimal_chars(n as nat)) == Some(n),
{
    lemma_decimal_chars_value(n as nat);
    let s = decimal_chars(n as nat);
    assert(is_decimal_digit(s[0]));
}

/// The numeral of a decimal digit.
fn digit_str(d: usize) -> (res: &'static str)
    requires
        d < 10,
    ensures
        res@ == seq![digit_char(d as nat)],
{
    proof {
        reveal_strlit("0");
        reveal_strlit("1");
        reveal_strlit("2");
        reveal_strlit("3");
        reveal_strlit("4");
        reveal_strlit("5");
        reveal_strlit("6");
        reveal_strlit("7");
        reveal_strlit("8");
        reveal_strlit("9");
    }
    match d {
        0 => "0",
        1 => "1",
        2 => "2",
        3 => "3",
        4 => "4",
        5 => "5",
        6 => "6",
        7 => "7",
        8 => "8",
        _ => "9",
    }
}

/// The decimal numeral of a number, as `usize::to_string` writes it.
pub fn decimal_string(n: usize) -> (res: String)
    ensures
        res@ == decimal_chars(n as nat),
    decreases n,
{
    let d = digit_str(n % 10);
    if n < 10 {
        String::from_str(d)
    } else {
        let s = decimal_string(n / 10).concat(d);
        assert(s@ =~= decimal_chars((n / 10) as nat).push(digit_char((n % 10) as nat)));
        s
    }
}

/// A longer prefix of a string has at least the decimal value of a shorter one.
proof fn lemma_digits_value_grows(s: Seq<char>, j: int, k: int)
    requires
        0 <= j <= k <= s.len(),
    ensures
        digits_value(s.take(j)) <= digits_value(s.take(k)),
    decreases k - j,
{
    if j < k {
        lemma_digits_value_grows(s, j, k - 1);
        assert(s.take(k).drop_last() =~= s.take(k - 1));
    }
}

/// Reads a 16-bit number written in decimal, as `u16::from_str` does: an
/// optional `+` followed by at least one decimal digit and nothing else.
pub fn parse_u16(s: &str) -> (res: Option<u16>)
    ensures
        res == u16_from_decimal(s@),
{
    let n = s.unicode_len();
    let mut start: usize = 0;
    if n > 0 && s.get_char(0) == '+' {
        start = 1;
    }
    let ghost digits = unsigned_digits(s@);
    assert(digits =~= s@.subrange(start as int, n as int));
    if start >= n {
        return None;
    }
    let mut value: u32 = 0;
    let mut i: usize = start;
    assert(digits.take(0) =~= Seq::<char>::empty());
    while i < n
        invariant
            start <= i <= n,
            n == s@.len(),
            digits =~= s@.subrange(start as int, n as int),
            digits == unsigned_digits(s@),
            digits.len() > 0,
            value == digits_value(digits.take(i - start)),
            value <= u16::MAX,
            forall|k: int| 0 <= k < i - start ==> is_decimal_digit(#[trigger] digits[k]),
        decreases n - i,
    {
        let c = s.get_char(i);
        assert(c == digits[i - start]);
        if !('0' <= c && c <= '9') {
            assert(!is_decimal_digit(digits[i - start]));
            return None;
        }
        let d: u32 = (c as u32) - 48;
        assert(digits.take(i - start + 1).drop_last() =~= digits.take(i - start));
        assert(d == digit_value(c));
        value = value * 10 + d;
        assert(value == digits_value(digits.take(i - start + 1)));
        if value > 65535 {
            proof {
                lemma_digits_value_grows(digits, i - start + 1, digits.len() as int);
                assert(digits.take(digits.len() as int) =~= digits);
            }
            return None;
        }
        i = i + 1;
    }
    assert(digits.take(i - start) =~= digits);
    Some(value as u16)
}

/// The characters with the Unicode `White_Space` property, which is what
/// `char::is_whitespace` tests.
pub open spec fn is_white_space(c: char) -> bool {
    ||| '\u{9}' <= c && c <= '\u{d}'
    ||| c == ' '
    ||| c == '\u{85}'
    ||| c == '\u{a0}'
    ||| c == '\u{1680}'
    ||| '\u{2000}' <= c && c <= '\u{200a}'
    ||| c == '\u{2028}'
    ||| c == '\u{2029}'
    ||| c == '\u{202f}'
    ||| c == '\u{205f}'
    ||| c == '\u{3000}'
}

/// The first position at or after `i` that does not hold white space.
pub open spec fn skip_white_from(s: Seq<char>, i: int) -> int
    decreases s.len() - i,
{
    if 0 <= i < s.len() && is_white_space(s[i]) {
        skip_white_from(s, i + 1)
    } else {
        i
    }
}

/// The end of `s[lo..j]` once white space at its end is dropped.
pub open spec fn back_white_from(s: Seq<char>, lo: int, j: int) -> int
    decreases j - lo,
{
    if lo < j && j <= s.len() && is_white_space(s[j - 1]) {
        back_white_from(s, lo, j - 1)
    } else {
        j
    }
}

/// `s` without white space at either end, as `str::trim` gives it.
pub open spec fn trim(s: Seq<char>) -> Seq<char> {
    let a = skip_white_from(s, 0);
    s.subrange(a, back_white_from(s, a, s.len() as int))
}

/// The pieces of `s` between occurrences of `sep`, as `str::split` gives them:
/// one more piece than there are separators, empty pieces included.
pub open spec fn split_on(s: Seq<char>, sep: char) -> Seq<Seq<char>>
    decreases s.len(),
{
    if s.len() == 0 {
        seq![Seq::<char>::empty()]
    } else {
        let prev = split_on(s.drop_last(), sep);
        if s.last() == sep {
            prev.push(Seq::<char>::empty())
        } else {
            prev.update(prev.len() - 1, prev.last().push(s.last()))
        }
    }
}

/// The parts written one after the other with `sep` between neighbours.
pub open spec fn join(parts: Seq<Seq<char>>, sep: Seq<char>) -> Seq<char>
    decreases parts.len(),
{
    if parts.len() == 0 {
        Seq::<char>::empty()
    } else if parts.len() == 1 {
        parts[0]
    } else {
        join(parts.drop_last(), sep) + sep + parts.last()
    }
}

/// `s` holds a name equal to `x` after case folding.
pub open spec fn caseless_contains(s: Seq<Seq<char>>, x: Seq<char>) -> bool {
    exists|i: int| 0 <= i < s.len() && unicase_eq(#[trigger] s[i], x)
}

/// Whether `x` is equal, after case folding, to a name of `s`.
pub open spec fn caseless_in(x: Seq<char>, s: Seq<Seq<char>>) -> bool {
    exists|i: int| 0 <= i < s.len() && unicase_eq(x, #[trigger] s[i])
}

/// No two names of `s` are equal after case folding.
pub open spec fn caseless_distinct(s: Seq<Seq<char>>) -> bool {
    forall|i: int, j: int| 0 <= i < j < s.len() ==> !unicase_eq(#[trigger] s[i], #[trigger] s[j])
}

/// The names of `s` in order, each kept only if no name kept before it is
/// equal to it after case folding: the set of names that a case-insensitive
/// set collects from `s`.
pub open spec fn caseless_dedup(s: Seq<Seq<char>>) -> Seq<Seq<char>>
    decreases s.len(),
{
    if s.len() == 0 {
        Seq::<Seq<char>>::empty()
    } else {
        let prev = caseless_dedup(s.drop_last());
        if caseless_contains(prev, s.last()) {
            prev
        } else {
            prev.push(s.last())
        }
    }
}

/// The values of `s` in order, each kept only at its first occurrence: the
/// set that a set collects from `s`.
pub open spec fn dedup<A>(s: Seq<A>) -> Seq<A>
    decreases s.len(),
{
    if s.len() == 0 {
        Seq::<A>::empty()
    } else {
        let prev = dedup(s.drop_last());
        if prev.contains(s.last()) {
            prev
        } else {
            prev.push(s.last())
        }
    }
}

/// The views of a list of strings.
pub open spec fn strings_view(v: Seq<String>) -> Seq<Seq<char>> {
    v.map_values(|s: String| s@)
}

/// The views of a list of string slices.
pub open spec fn strs_view(v: Seq<&str>) -> Seq<Seq<char>> {
    v.map_values(|s: &str| s@)
}

/// Tests the Unicode `White_Space` property of a character.
pub fn is_whitespace_char(c: char) -> (res: bool)
    ensures
        res == is_white_space(c),
{
    ('\u{9}' <= c && c <= '\u{d}') || c == ' ' || c == '\u{85}' || c == '\u{a0}' || c
        == '\u{1680}' || ('\u{2000}' <= c && c <= '\u{200a}') || c == '\u{2028}' || c
        == '\u{2029}' || c == '\u{202f}' || c == '\u{205f}' || c == '\u{3000}'
}

/// `s` without white space at either end.
pub fn trim_str(s: &str) -> (res: &str)
    ensures
        res@ == trim(s@),
{
    let n = s.unicode_len();
    let mut a: usize = 0;
    while a < n && is_whitespace_char(s.get_char(a))
        invariant
            n == s@.len(),
            a <= n,
            skip_white_from(s@, 0) == skip_white_from(s@, a as int),
        decreases n - a,
    {
        a = a + 1;
    }
    let mut b: usize = n;
    while a < b && is_whitespace_char(s.get_char(b - 1))
        invariant
            n == s@.len(),
            a <= b <= n,
            a == skip_white_from(s@, 0),
            back_white_from(s@, a as int, n as int) == back_white_from(s@, a as int, b as int),
        decreases b - a,
    {
        b = b - 1;
    }
    s.substring_char(a, b)
}

/// The pieces of `s` between commas.
pub fn split_commas<'a>(s: &'a str) -> (res: Vec<&'a str>)
    ensures
        strs_view(res@) == split_on(s@, ','),
{
    let n = s.unicode_len();
    let mut pieces: Vec<&'a str> = Vec::new();
    let mut start: usize = 0;
    let mut i: usize = 0;
    assert(s@.take(0) =~= Seq::<char>::empty());
    assert(strs_view(pieces@).push(s@.subrange(0, 0)) =~= seq![Seq::<char>::empty()]);
    while i < n
        invariant
            n == s@.len(),
            start <= i <= n,
            split_on(s@.take(i as int), ',') == strs_view(pieces@).push(
                s@.subrange(start as int, i as int),
            ),
        decreases n - i,
    {
        let c = s.get_char(i);
        let ghost prefix = s@.take(i + 1);
        assert(prefix.drop_last() == s@.take(i as int));
        assert(prefix.last() == c);
        if c == ',' {
            let piece = s.substring_char(start, i);
            let ghost before = pieces@;
            pieces.push(piece);
            assert(strs_view(pieces@) =~= strs_view(before).push(piece@));
            start = i + 1;
            assert(s@.subrange(start as int, i + 1) =~= Seq::<char>::empty());
        } else {
            assert(s@.subrange(start as int, i + 1) =~= s@.subrange(start as int, i as int).push(
                c,
            ));
        }
        i = i + 1;
    }
    let last = s.substring_char(start, n);
    pieces.push(last);
    assert(s@.take(n as int) =~= s@);
    assert(strs_view(pieces@) =~= strs_view(pieces@.drop_last()).push(last@));
    pieces
}

/// The parts written one after the other with `sep` between neighbours.
pub fn join_strings(parts: &Vec<String>, sep: &str) -> (res: String)
    ensures
        res@ == join(strings_view(parts@), sep@),
{
    let mut out = String::new();
    let mut i: usize = 0;
    while i < parts.len()
        invariant
            i <= parts.len(),
            out@ == join(strings_view(parts@.take(i as int)), sep@),
        decreases parts.len() - i,
    {
        let ghost before = strings_view(parts@.take(i as int));
        assert(strings_view(parts@.take(i + 1)).drop_last() =~= before);
        if i > 0 {
            out.append(sep);
        } else {
            assert(before =~= Seq::<Seq<char>>::empty());
        }
        out.append(parts[i].as_str());
        i = i + 1;
    }
    assert(parts@.take(parts.len() as int) =~= parts@);
    out
}

/// Character-by-character equality of two strings.
pub fn str_eq(a: &str, b: &str) -> (res: bool)
    ensures
        res == (a@ == b@),
{
    let n = a.unicode_len();
    if n != b.unicode_len() {
        return false;
    }
    let mut i: usize = 0;
    while i < n
        invariant
            n == a@.len(),
            n == b@.len(),
            i <= n,
            forall|k: int| 0 <= k < i ==> a@[k] == b@[k],
        decreases n - i,
    {
        if a.get_char(i) != b.get_char(i) {
            return false;
        }
        i = i + 1;
    }
    assert(a@ =~= b@);
    true
}

/// Whether `x` is one of the strings of `v`.
pub fn string_member(v: &Vec<String>, x: &str) -> (res: bool)
    ensures
        res == strings_view(v@).contains(x@),
{
    let mut i: usize = 0;
    while i < v.len()
        invariant
            i <= v.len(),
            forall|k: int| 0 <= k < i ==> #[trigger] strings_view(v@)[k] != x@,
        decreases v.len() - i,
    {
        if str_eq(v[i].as_str(), x) {
            assert(strings_view(v@)[i as int] == x@);
            return true;
        }
        i = i + 1;
    }
    false
}

} // verus!
