//! Character- and string-level helpers shared by the parsers and formatters.

use vstd::prelude::*;
use vstd::string::*;

verus! {

/// The ASCII upper-case form of `c`; every other character is left as it is.
pub open spec fn spec_ascii_upper(c: char) -> char {
    if 'a' <= c && c <= 'z' {
        ((c as u32) - 32) as char
    } else {
        c
    }
}

/// Whether `c` is one of the ASCII digits `0`..=`9`.
pub open spec fn spec_is_digit(c: char) -> bool {
    '0' <= c && c <= '9'
}

/// Number of bytes that the UTF-8 encoding of `c` occupies.
pub open spec fn spec_utf8_len(c: char) -> int {
    if (c as u32) < 0x80 {
        1
    } else if (c as u32) < 0x800 {
        2
    } else if (c as u32) < 0x10000 {
        3
    } else {
        4
    }
}

/// Number of bytes that the UTF-8 encoding of `s` occupies.
pub open spec fn spec_byte_len(s: Seq<char>) -> int
    decreases s.len(),
{
    if s.len() == 0 {
        0
    } else {
        spec_byte_len(s.drop_last()) + spec_utf8_len(s.last())
    }
}

/// The ASCII upper-case form of `c` (`char::to_ascii_uppercase`).
pub fn ascii_upper(c: char) -> (r: char)
    ensures
        r == spec_ascii_upper(c),
{
    if 'a' <= c && c <= 'z' {
        (((c as u32) - 32) as u8) as char
    } else {
        c
    }
}

/// Whether `c` is an ASCII digit (`char::is_ascii_digit`).
pub fn is_digit(c: char) -> (r: bool)
    ensures
        r == spec_is_digit(c),
{
    '0' <= c && c <= '9'
}

/// The number of bytes of `c` in UTF-8 (`char::len_utf8`).
pub fn utf8_len(c: char) -> (r: usize)
    ensures
        r == spec_utf8_len(c),
{
    if (c as u32) < 0x80 {
        1
    } else if (c as u32) < 0x800 {
        2
    } else if (c as u32) < 0x10000 {
        3
    } else {
        4
    }
}

/// `String::push`: appends one character.
#[verifier::external_body]
pub(crate) fn push_char(s: &mut String, c: char)
    ensures
        final(s)@ == old(s)@.push(c),
{
    s.push(c);
}

/// The ASCII digit for `d`, which is below 10.
pub open spec fn spec_digit_char(d: int) -> char {
    (48 + d) as char
}

/// The two-digit text of `n`, which is below 100, with a leading zero.
pub open spec fn spec_two_digits(n: int) -> Seq<char> {
    seq![spec_digit_char(n / 10), spec_digit_char(n % 10)]
}

/// The four-digit text of `n`, which is below 10000, with leading zeros.
pub open spec fn spec_four_digits(n: int) -> Seq<char> {
    seq![spec_digit_char(n / 1000), spec_digit_char(n / 100 % 10), spec_digit_char(n / 10 % 10), spec_digit_char(n % 10)]
}

/// The decimal text of `n`, with leading zeros up to four digits.
pub open spec fn spec_padded_four(n: nat) -> Seq<char> {
    if n < 1000 { spec_four_digits(n as int) } else { spec_decimal(n) }
}

/// The decimal text of `n`, without leading zeros (`0` is written `0`).
pub open spec fn spec_decimal(n: nat) -> Seq<char>
    decreases n,
{
    if n < 10 {
        seq![spec_digit_char(n as int)]
    } else {
        spec_decimal(n / 10).push(spec_digit_char((n % 10) as int))
    }
}

/// The decimal text of a signed number: a `-` before the digits of a
/// negative number.
pub open spec fn spec_signed_decimal(n: int) -> Seq<char> {
    if n < 0 {
        seq!['-'] + spec_decimal((-n) as nat)
    } else {
        spec_decimal(n as nat)
    }
}

/// Appends the decimal text of `n` to `s`.
pub fn push_decimal(s: &mut String, n: u64)
    ensures
        final(s)@ == old(s)@ + spec_decimal(n as nat),
    decreases n,
{
    if n < 10 {
        push_char(s, ((n as u8) + 48) as char);
        assert(seq![spec_digit_char(n as int)] =~= seq![((n as u8) + 48) as char]);
        assert(final(s)@ =~= old(s)@ + spec_decimal(n as nat));
    } else {
        push_decimal(s, n / 10);
        let d = (n % 10) as u8;
        push_char(s, (d + 48) as char);
        assert(final(s)@ =~= old(s)@ + spec_decimal(n as nat));
    }
}

/// Appends the decimal text of `n`, with a leading `-` when negative.
pub fn push_signed_decimal(s: &mut String, n: i64)
    ensures
        final(s)@ == old(s)@ + spec_signed_decimal(n as int),
{
    if n < 0 {
        push_char(s, '-');
        let m: u64 = if n == i64::MIN { 9_223_372_036_854_775_808u64 } else { (-n) as u64 };
        push_decimal(s, m);
        assert(final(s)@ =~= old(s)@ + spec_signed_decimal(n as int));
    } else {
        push_decimal(s, n as u64);
    }
}

/// Appends `other` to `s` (`String::push_str`).
pub fn push_str(s: &mut String, other: &str)
    ensures
        final(s)@ == old(s)@ + other@,
{
    s.append(other);
}

/// The characters of `s`, in order.
pub fn chars_of(s: &str) -> (v: Vec<char>)
    ensures
        v@ == s@,
{
    broadcast use vstd::string::group_string_axioms;
    let mut v: Vec<char> = Vec::new();
    for c in it: s.chars()
        invariant
            v@ == it.seq().take(it.index() as int),
            it.seq() == s@,
    {
        v.push(c);
    }
    v
}

/// Whether `c` has the Unicode White_Space property (`char::is_whitespace`).
pub open spec fn spec_is_whitespace(c: char) -> bool {
    let u = c as u32;
    ||| 0x09 <= u <= 0x0D
    ||| u == 0x20
    ||| u == 0x85
    ||| u == 0xA0
    ||| u == 0x1680
    ||| 0x2000 <= u <= 0x200A
    ||| u == 0x2028
    ||| u == 0x2029
    ||| u == 0x202F
    ||| u == 0x205F
    ||| u == 0x3000
}

/// Whether `c` is whitespace (`char::is_whitespace`).
pub fn is_whitespace(c: char) -> (r: bool)
    ensures
        r == spec_is_whitespace(c),
{
    let u = c as u32;
    (0x09 <= u && u <= 0x0D) || u == 0x20 || u == 0x85 || u == 0xA0 || u == 0x1680 || (0x2000 <= u
        && u <= 0x200A) || u == 0x2028 || u == 0x2029 || u == 0x202F || u == 0x205F || u == 0x3000
}

/// `s` without its leading whitespace.
pub open spec fn spec_trim_start(s: Seq<char>) -> Seq<char>
    decreases s.len(),
{
    if s.len() > 0 && spec_is_whitespace(s[0]) {
        spec_trim_start(s.drop_first())
    } else {
        s
    }
}

/// `s` without its trailing whitespace.
pub open spec fn spec_trim_end(s: Seq<char>) -> Seq<char>
    decreases s.len(),
{
    if s.len() > 0 && spec_is_whitespace(s.last()) {
        spec_trim_end(s.drop_last())
    } else {
        s
    }
}

/// `s` without leading and trailing whitespace (`str::trim`).
pub open spec fn spec_trim(s: Seq<char>) -> Seq<char> {
    spec_trim_end(spec_trim_start(s))
}

/// Dropping leading whitespace does not change what trimming the start
/// gives.
proof fn lemma_trim_start_skip(s: Seq<char>, i: int)
    requires
        0 <= i <= s.len(),
        forall|j: int| 0 <= j < i ==> spec_is_whitespace(#[trigger] s[j]),
    ensures
        spec_trim_start(s) == spec_trim_start(s.subrange(i, s.len() as int)),
    decreases i,
{
    if i > 0 {
        assert(s.len() > 0 && spec_is_whitespace(s[0]));
        let t = s.drop_first();
        assert forall|j: int| 0 <= j < i - 1 implies spec_is_whitespace(#[trigger] t[j]) by {
            assert(t[j] == s[j + 1]);
        }
        lemma_trim_start_skip(t, i - 1);
        assert(t.subrange(i - 1, t.len() as int) =~= s.subrange(i, s.len() as int));
    } else {
        assert(s.subrange(0, s.len() as int) =~= s);
    }
}

proof fn lemma_trim_end_skip(s: Seq<char>, e: int)
    requires
        0 <= e <= s.len(),
        forall|j: int| e <= j < s.len() ==> spec_is_whitespace(#[trigger] s[j]),
    ensures
        spec_trim_end(s) == spec_trim_end(s.subrange(0, e)),
    decreases s.len() - e,
{
    if e < s.len() {
        assert(spec_is_whitespace(s.last()));
        let t = s.drop_last();
        assert forall|j: int| e <= j < t.len() implies spec_is_whitespace(#[trigger] t[j]) by {
            assert(t[j] == s[j]);
        }
        lemma_trim_end_skip(t, e);
        assert(t.subrange(0, e) =~= s.subrange(0, e));
    } else {
        assert(s.subrange(0, e) =~= s);
    }
}

/// The bounds `(a, b)` of the trimmed part of `s`: `spec_trim(s)` is
/// `s[a..b]`.
pub fn trim_bounds(s: &Vec<char>) -> (r: (usize, usize))
    ensures
        r.0 <= r.1 <= s.len(),
        spec_trim(s@) == s@.subrange(r.0 as int, r.1 as int),
{
    let n = s.len();
    let mut a: usize = 0;
    while a < n && is_whitespace(s[a])
        invariant
            a <= n == s.len(),
            forall|j: int| 0 <= j < a ==> spec_is_whitespace(#[trigger] s@[j]),
        decreases n - a,
    {
        a = a + 1;
    }
    proof {
        lemma_trim_start_skip(s@, a as int);
    }
    let ghost rest = s@.subrange(a as int, n as int);
    assert(a == n || !spec_is_whitespace(rest[0]));
    assert(spec_trim_start(rest) == rest);
    let mut b: usize = n;
    while b > a && is_whitespace(s[b - 1])
        invariant
            a <= b <= n == s.len(),
            rest == s@.subrange(a as int, n as int),
            forall|j: int| b <= j < n ==> spec_is_whitespace(#[trigger] s@[j]),
        decreases b - a,
    {
        b = b - 1;
    }
    proof {
        assert forall|j: int| b - a <= j < rest.len() implies spec_is_whitespace(#[trigger] rest[j]) by {
            assert(rest[j] == s@[j + a]);
        }
        lemma_trim_end_skip(rest, (b - a) as int);
        let kept = rest.subrange(0, (b - a) as int);
        assert(kept =~= s@.subrange(a as int, b as int));
        if b > a {
            assert(kept.last() == s@[b - 1]);
        }
        assert(spec_trim_end(kept) == kept);
    }
    (a, b)
}

/// The number that the decimal digits `s` stand for (0 for no digits).
pub open spec fn spec_digits_value(s: Seq<char>) -> int
    decreases s.len(),
{
    if s.len() == 0 {
        0
    } else {
        spec_digits_value(s.drop_last()) * 10 + (s.last() as int - 48)
    }
}

/// Whether every character of `s` is an ASCII digit.
pub open spec fn spec_all_digits(s: Seq<char>) -> bool {
    forall|i: int| 0 <= i < s.len() ==> spec_is_digit(#[trigger] s[i])
}

/// The unsigned number that `s` reads as (`u64::from_str`): one or more
/// decimal digits, optionally after a `+`, whose value fits in a `u64`.
pub open spec fn spec_parse_u64(s: Seq<char>) -> Option<u64> {
    let d = if s.len() > 0 && s[0] == '+' { s.drop_first() } else { s };
    if d.len() > 0 && spec_all_digits(d) && spec_digits_value(d) <= u64::MAX {
        Some(spec_digits_value(d) as u64)
    } else {
        None
    }
}

proof fn lemma_digits_value_grows(s: Seq<char>, j: int)
    requires
        spec_all_digits(s),
        0 <= j <= s.len(),
    ensures
        0 <= spec_digits_value(s.take(j)) <= spec_digits_value(s),
    decreases s.len(),
{
    if s.len() > 0 {
        let t = s.drop_last();
        assert(spec_all_digits(t)) by {
            assert forall|i: int| 0 <= i < t.len() implies spec_is_digit(#[trigger] t[i]) by {
                assert(t[i] == s[i]);
            }
        }
        assert(spec_is_digit(s[s.len() - 1]));
        if j == s.len() {
            assert(s.take(j) =~= s);
            lemma_digits_value_grows(t, t.len() as int);
            assert(t.take(t.len() as int) =~= t);
        } else {
            lemma_digits_value_grows(t, j);
            assert(t.take(j) =~= s.take(j));
            lemma_digits_value_grows(t, t.len() as int);
            assert(t.take(t.len() as int) =~= t);
        }
    } else {
        assert(s.take(j) =~= s);
    }
}

proof fn lemma_digit_char(d: int)
    requires
        0 <= d < 10,
    ensures
        spec_digit_char(d) as int == 48 + d,
        spec_is_digit(spec_digit_char(d)),
{
}

/// Decimal text reads back as its number: the digits of `spec_decimal(n)`
/// stand for `n`, as do the two digits of `spec_two_digits(n)` for `n`
/// below 100.
pub proof fn law_decimal_reads_back(n: nat)
    ensures
        spec_all_digits(spec_decimal(n)),
        spec_digits_value(spec_decimal(n)) == n,
        n < 100 ==> spec_all_digits(spec_two_digits(n as int)) && spec_digits_value(spec_two_digits(n as int)) == n,
    decreases n,
{
    let t = spec_decimal(n);
    lemma_digit_char((n % 10) as int);
    if n < 10 {
        lemma_digit_char(n as int);
        assert(t.drop_last() =~= Seq::<char>::empty());
        assert(t.last() == spec_digit_char(n as int));
        assert(spec_digits_value(t) == spec_digits_value(t.drop_last()) * 10 + (t.last() as int - 48));
    } else {
        law_decimal_reads_back(n / 10);
        assert(t.drop_last() =~= spec_decimal(n / 10));
        assert(t.last() == spec_digit_char((n % 10) as int));
        assert(spec_digits_value(t) == spec_digits_value(t.drop_last()) * 10 + (t.last() as int - 48));
        assert(n == (n / 10) * 10 + n % 10);
        let p = spec_decimal(n / 10);
        assert forall|i: int| 0 <= i < t.len() implies spec_is_digit(#[trigger] t[i]) by {
            if i < p.len() {
                assert(t[i] == p[i]);
            }
        }
    }
    if n < 100 {
        let w = spec_two_digits(n as int);
        lemma_digit_char(n as int / 10);
        lemma_digit_char(n as int % 10);
        assert(w.drop_last() =~= seq![spec_digit_char(n as int / 10)]);
        assert(w.drop_last().drop_last() =~= Seq::<char>::empty());
        assert(spec_digits_value(w.drop_last()) == spec_digits_value(w.drop_last().drop_last()) * 10 + (
        w.drop_last().last() as int - 48));
        assert(spec_digits_value(w) == spec_digits_value(w.drop_last()) * 10 + (w.last() as int - 48));
        assert(n == (n / 10) * 10 + n % 10);
        assert(spec_all_digits(w)) by {
            assert forall|i: int| 0 <= i < w.len() implies spec_is_digit(#[trigger] w[i]) by {}
        }
    }
}

/// Reads the characters `v[a..b]` as a `u64` (`u64::from_str`).
pub fn parse_u64_range(v: &Vec<char>, a: usize, b: usize) -> (r: Option<u64>)
    requires
        a <= b <= v.len(),
    ensures
        r == spec_parse_u64(v@.subrange(a as int, b as int)),
{
    let ghost s = v@.subrange(a as int, b as int);
    let mut i = a;
    if i < b && v[i] == '+' {
        i = i + 1;
    }
    let ghost d = v@.subrange(i as int, b as int);
    assert(d =~= (if s.len() > 0 && s[0] == '+' { s.drop_first() } else { s }));
    if i == b {
        return None;
    }
    let start = i;
    let mut value: u64 = 0;
    while i < b
        invariant
            start <= i <= b <= v.len(),
            s == v@.subrange(a as int, b as int),
            d == v@.subrange(start as int, b as int),
            d == (if s.len() > 0 && s[0] == '+' { s.drop_first() } else { s }),
            d.len() > 0,
            spec_all_digits(d.take(i - start)),
            value == spec_digits_value(d.take(i - start)),
        decreases b - i,
    {
        let c = v[i];
        let ghost k = i - start;
        assert(d[k] == c);
        if !is_digit(c) {
            assert(!spec_all_digits(d));
            return None;
        }
        let ghost next = d.take(k + 1);
        assert(next.drop_last() =~= d.take(k));
        assert(next.last() == c);
        assert(spec_all_digits(next)) by {
            assert forall|j: int| 0 <= j < next.len() implies spec_is_digit(#[trigger] next[j]) by {
                if j < k {
                    assert(next[j] == d.take(k)[j]);
                }
            }
        }
        let digit = (c as u32 - 48) as u64;
        assert(spec_digits_value(next) == value * 10 + digit);
        if value > (u64::MAX - digit) / 10 {
            proof {
                assert(value * 10 + digit > u64::MAX) by (nonlinear_arith)
                    requires value > (u64::MAX - digit) / 10, digit <= 9;
                if spec_all_digits(d) {
                    lemma_digits_value_grows(d, k + 1);
                }
            }
            return None;
        }
        value = value * 10 + digit;
        i = i + 1;
    }
    assert(d.take(d.len() as int) =~= d);
    Some(value)
}

/// The characters `v[a..b]` as a string.
pub fn string_of_range(v: &Vec<char>, a: usize, b: usize) -> (r: String)
    requires
        a <= b <= v.len(),
    ensures
        r@ == v@.subrange(a as int, b as int),
{
    let mut r = String::new();
    let mut i: usize = a;
    while i < b
        invariant
            a <= i <= b <= v.len(),
            r@ == v@.subrange(a as int, i as int),
        decreases b - i,
    {
        push_char(&mut r, v[i]);
        i = i + 1;
        assert(r@ =~= v@.subrange(a as int, i as int));
    }
    r
}

} // verus!



