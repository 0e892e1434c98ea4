//! Character-level string helpers shared by the rest of the library.

use vstd::prelude::*;
use vstd::string::StringExecFns;

verus! {

/// The decimal digit character for `d` (0 <= d < 10).
pub open spec fn digit_char(d: int) -> char {
    if d == 0 { '0' }
    else if d == 1 { '1' }
    else if d == 2 { '2' }
    else if d == 3 { '3' }
    else if d == 4 { '4' }
    else if d == 5 { '5' }
    else if d == 6 { '6' }
    else if d == 7 { '7' }
    else if d == 8 { '8' }
    else { '9' }
}

/// Decimal digits of a natural number, most significant first, no leading zeros.
pub open spec fn nat_digits(n: nat) -> Seq<char>
    decreases n,
{
    if n < 10 {
        seq![digit_char(n as int)]
    } else {
        nat_digits(n / 10).push(digit_char((n % 10) as int))
    }
}

/// Decimal rendering of an integer, with a leading '-' when negative.
pub open spec fn decimal(n: int) -> Seq<char> {
    if n < 0 {
        seq!['-'].add(nat_digits((-n) as nat))
    } else {
        nat_digits(n as nat)
    }
}

pub open spec fn is_digit_char(c: char) -> bool {
    '0' <= c && c <= '9'
}

/// Decimal digits are non-empty and made of digit characters only.
pub proof fn lemma_nat_digits_shape(n: nat)
    ensures
        nat_digits(n).len() >= 1,
        forall|i: int| 0 <= i < nat_digits(n).len() ==> is_digit_char(#[trigger] nat_digits(n)[i]),
    decreases n,
{
    if n >= 10 {
        lemma_nat_digits_shape(n / 10);
        let d = nat_digits(n / 10);
        assert forall|i: int| 0 <= i < nat_digits(n).len() implies is_digit_char(#[trigger] nat_digits(n)[i]) by {
            if i < d.len() {
                assert(nat_digits(n)[i] == d[i]);
            }
        }
    }
}

proof fn lemma_digit_char_injective(x: int, y: int)
    requires
        0 <= x < 10,
        0 <= y < 10,
        digit_char(x) == digit_char(y),
    ensures
        x == y,
{
}

/// Different natural numbers have different decimal digits.
pub proof fn lemma_nat_digits_injective(a: nat, b: nat)
    requires
        nat_digits(a) == nat_digits(b),
    ensures
        a == b,
    decreases a,
{
    lemma_nat_digits_shape(a);
    lemma_nat_digits_shape(b);
    if a < 10 && b < 10 {
        assert(nat_digits(a) =~= seq![digit_char(a as int)]);
        assert(nat_digits(b) =~= seq![digit_char(b as int)]);
        assert(nat_digits(a)[0] == digit_char(a as int));
        assert(nat_digits(b)[0] == digit_char(b as int));
        lemma_digit_char_injective(a as int, b as int);
    } else if a < 10 {
        lemma_nat_digits_shape(b / 10);
        assert(nat_digits(b).len() >= 2);
    } else if b < 10 {
        lemma_nat_digits_shape(a / 10);
        assert(nat_digits(a).len() >= 2);
    } else {
        assert(nat_digits(a) =~= nat_digits(a / 10).push(digit_char((a % 10) as int)));
        assert(nat_digits(b) =~= nat_digits(b / 10).push(digit_char((b % 10) as int)));
        assert(nat_digits(a).last() == digit_char((a % 10) as int));
        assert(nat_digits(b).last() == digit_char((b % 10) as int));
        assert(nat_digits(a).drop_last() =~= nat_digits(a / 10));
        assert(nat_digits(b).drop_last() =~= nat_digits(b / 10));
        lemma_nat_digits_injective(a / 10, b / 10);
        lemma_digit_char_injective((a % 10) as int, (b % 10) as int);
        assert(a == (a / 10) * 10 + a % 10);
        assert(b == (b / 10) * 10 + b % 10);
    }
}

/// `digits(a) + "-" + x == digits(b) + "-" + y` only when `a == b` and `x == y`:
/// a dash ends the digits.
pub proof fn lemma_dash_separated_injective(a: nat, b: nat, x: Seq<char>, y: Seq<char>)
    requires
        nat_digits(a) + "-"@ + x == nat_digits(b) + "-"@ + y,
    ensures
        a == b,
        x == y,
{
    reveal_strlit("-");
    let da = nat_digits(a);
    let db = nat_digits(b);
    let sa = da + "-"@ + x;
    let sb = db + "-"@ + y;
    lemma_nat_digits_shape(a);
    lemma_nat_digits_shape(b);
    if da.len() < db.len() {
        assert(sa[da.len() as int] == '-');
        assert(sb[da.len() as int] == db[da.len() as int]);
        assert(is_digit_char(db[da.len() as int]));
    } else if db.len() < da.len() {
        assert(sb[db.len() as int] == '-');
        assert(sa[db.len() as int] == da[db.len() as int]);
        assert(is_digit_char(da[db.len() as int]));
    } else {
        assert(da =~= sa.subrange(0, da.len() as int));
        assert(db =~= sb.subrange(0, db.len() as int));
        lemma_nat_digits_injective(a, b);
        assert(x =~= sa.subrange(da.len() as int + 1, sa.len() as int));
        assert(y =~= sb.subrange(db.len() as int + 1, sb.len() as int));
    }
}

/// Whether `c` has the Unicode White_Space property (PropList.txt), as
/// `char::is_whitespace` decides it: tab, line feed, vertical tab, form feed,
/// carriage return, space, next line, no-break space, Ogham space mark, the
/// spaces U+2000 to U+200A, line and paragraph separators, narrow no-break
/// space, medium mathematical space and ideographic space.
pub open spec fn unicode_whitespace(c: char) -> bool {
    let n = c as int;
    ||| 0x09 <= n <= 0x0D
    ||| n == 0x20
    ||| n == 0x85
    ||| n == 0xA0
    ||| n == 0x1680
    ||| 0x2000 <= n <= 0x200A
    ||| n == 0x2028
    ||| n == 0x2029
    ||| n == 0x202F
    ||| n == 0x205F
    ||| n == 0x3000
}

/// `s` without the characters satisfying `ws` at its start.
pub open spec fn strip_leading(s: Seq<char>, ws: spec_fn(char) -> bool) -> Seq<char>
    decreases s.len(),
{
    if s.len() > 0 && ws(s[0]) {
        strip_leading(s.drop_first(), ws)
    } else {
        s
    }
}

/// `s` without the characters satisfying `ws` at its end.
pub open spec fn strip_trailing(s: Seq<char>, ws: spec_fn(char) -> bool) -> Seq<char>
    decreases s.len(),
{
    if s.len() > 0 && ws(s.last()) {
        strip_trailing(s.drop_last(), ws)
    } else {
        s
    }
}

/// Appends one character (`String::push`).
#[verifier::external_body]
pub(crate) fn push_char(s: &mut String, c: char)
    ensures
        final(s)@ == old(s)@.push(c),
{
    s.push(c);
}

/// The decimal digit character of `d`.
fn digit(d: u64) -> (c: char)
    requires
        d < 10,
    ensures
        c == digit_char(d as int),
{
    if d == 0 { '0' }
    else if d == 1 { '1' }
    else if d == 2 { '2' }
    else if d == 3 { '3' }
    else if d == 4 { '4' }
    else if d == 5 { '5' }
    else if d == 6 { '6' }
    else if d == 7 { '7' }
    else if d == 8 { '8' }
    else { '9' }
}

/// Renders a `u64` in decimal.
pub(crate) fn u64_text(n: u64) -> (text: String)
    ensures
        text@ == decimal(n as int),
{
    // low digits first: rev[k] is the k-th digit from the right
    let mut rev: Vec<char> = Vec::new();
    let mut m: u64 = n;
    while m >= 10
        invariant
            nat_digits(n as nat) == nat_digits(m as nat) + Seq::new(rev@.len(), |k: int| rev@[rev@.len() - 1 - k]),
        decreases m,
    {
        let ghost old_rev = rev@;
        let d = digit(m % 10);
        rev.push(d);
        proof {
            let tail_old = Seq::new(old_rev.len(), |k: int| old_rev[old_rev.len() - 1 - k]);
            let tail_new = Seq::new(rev@.len(), |k: int| rev@[rev@.len() - 1 - k]);
            assert(tail_new =~= seq![d] + tail_old);
            assert(nat_digits(m as nat) == nat_digits((m / 10) as nat).push(digit_char((m % 10) as int)));
            assert(nat_digits((m / 10) as nat) + tail_new =~= nat_digits(m as nat) + tail_old);
        }
        m = m / 10;
    }
    let ghost tail = Seq::new(rev@.len(), |k: int| rev@[rev@.len() - 1 - k]);
    let mut text = String::new();
    push_char(&mut text, digit(m));
    assert(text@ =~= nat_digits(m as nat));
    let mut i: usize = rev.len();
    while i > 0
        invariant
            i <= rev@.len(),
            tail == Seq::new(rev@.len(), |k: int| rev@[rev@.len() - 1 - k]),
            text@ == nat_digits(m as nat) + tail.subrange(0, rev@.len() - i),
        decreases i,
    {
        i = i - 1;
        push_char(&mut text, rev[i]);
        assert(tail.subrange(0, rev@.len() - i) =~= tail.subrange(0, rev@.len() - i - 1).push(rev@[i as int]));
    }
    assert(tail.subrange(0, rev@.len() as int) =~= tail);
    text
}

/// Renders an `i64` in decimal, with a leading '-' when negative.
pub(crate) fn i64_text(n: i64) -> (text: String)
    ensures
        text@ == decimal(n as int),
{
    if n < 0 {
        let magnitude: u64 = ((-(n + 1)) as u64) + 1;
        let digits = u64_text(magnitude);
        proof {
            reveal_strlit("-");
        }
        assert(magnitude as int == -(n as int));
        let text = String::from_str("-").concat(digits.as_str());
        assert(text@ =~= seq!['-'] + nat_digits((-(n as int)) as nat));
        text
    } else {
        u64_text(n as u64)
    }
}

/// `str::trim`: removes leading and trailing Unicode whitespace.
#[verifier::external_body]
pub(crate) fn trimmed(s: &str) -> (t: String)
    ensures
        t@ == strip_trailing(
            strip_leading(s@, |c: char| unicode_whitespace(c)),
            |c: char| unicode_whitespace(c),
        ),
{
    s.trim().to_string()
}

/// Whether `s` begins with `prefix`.
pub open spec fn has_prefix(s: Seq<char>, prefix: Seq<char>) -> bool {
    prefix.len() <= s.len() && s.subrange(0, prefix.len() as int) == prefix
}

/// Prefix test on strings (`str::starts_with` with a string pattern).
pub fn starts_with(s: &str, prefix: &str) -> (b: bool)
    ensures
        b == has_prefix(s@, prefix@),
{
    let n = prefix.unicode_len();
    let m = s.unicode_len();
    if n > m {
        return false;
    }
    let mut i: usize = 0;
    while i < n
        invariant
            n == prefix@.len(),
            m == s@.len(),
            n <= m,
            i <= n,
            forall|j: int| 0 <= j < i ==> s@[j] == prefix@[j],
        decreases n - i,
    {
        if s.get_char(i) != prefix.get_char(i) {
            assert(s@.subrange(0, n as int)[i as int] != prefix@[i as int]);
            return false;
        }
        i = i + 1;
    }
    assert(s@.subrange(0, n as int) =~= prefix@);
    true
}

/// Whether `c` occurs in `s` (`str::contains` with a char pattern).
pub fn contains_char(s: &str, c: char) -> (b: bool)
    ensures
        b == s@.contains(c),
{
    let m = s.unicode_len();
    let mut i: usize = 0;
    while i < m
        invariant
            m == s@.len(),
            i <= m,
            forall|j: int| 0 <= j < i ==> s@[j] != c,
        decreases m - i,
    {
        if s.get_char(i) == c {
            assert(s@[i as int] == c);
            return true;
        }
        i = i + 1;
    }
    false
}

/// Equality of two strings' contents.
pub fn same_text(a: &str, b: &str) -> (eq: bool)
    ensures
        eq == (a@ == b@),
{
    let n = a.unicode_len();
    if n != b.unicode_len() {
        return false;
    }
    let r = starts_with(a, b);
    assert(a@ =~= a@.subrange(0, n as int));
    r
}

/// `s` with every character equal to `from` replaced by `to`.
pub open spec fn replace_char(s: Seq<char>, from: char, to: char) -> Seq<char> {
    s.map_values(|c: char| if c == from { to } else { c })
}

/// `str::replace` with single-character pattern and replacement.
pub fn replaced(s: &str, from: char, to: char) -> (r: String)
    ensures
        r@ == replace_char(s@, from, to),
{
    let m = s.unicode_len();
    let mut out = String::new();
    let mut i: usize = 0;
    while i < m
        invariant
            m == s@.len(),
            i <= m,
            out@ =~= replace_char(s@.subrange(0, i as int), from, to),
        decreases m - i,
    {
        let c = s.get_char(i);
        if c == from {
            push_char(&mut out, to);
        } else {
            push_char(&mut out, c);
        }
        assert(s@.subrange(0, i + 1) =~= s@.subrange(0, i as int).push(c));
        i = i + 1;
    }
    assert(s@.subrange(0, m as int) =~= s@);
    out
}

/// ASCII lower-casing of one character.
pub open spec fn ascii_lower(c: char) -> char {
    if 'A' <= c && c <= 'Z' {
        ((c as int) + 32) as char
    } else {
        c
    }
}

/// Whether `s`, ASCII-lower-cased, equals `lower` (`to_ascii_lowercase` then `==`).
pub open spec fn lower_equals(s: Seq<char>, lower: Seq<char>) -> bool {
    s.map_values(|c: char| ascii_lower(c)) == lower
}

fn ascii_lower_char(c: char) -> (l: char)
    ensures
        l == ascii_lower(c),
{
    if 'A' <= c && c <= 'Z' {
        let v: u32 = c as u32;
        let r: char = ((v + 32) as u8) as char;
        r
    } else {
        c
    }
}

/// Compares `s` ASCII-case-insensitively against an already lower-case `lower`.
pub fn lower_eq(s: &str, lower: &str) -> (eq: bool)
    ensures
        eq == lower_equals(s@, lower@),
{
    let n = s.unicode_len();
    if n != lower.unicode_len() {
        assert(s@.map_values(|c: char| ascii_lower(c)).len() != lower@.len());
        return false;
    }
    let mut i: usize = 0;
    while i < n
        invariant
            n == s@.len(),
            n == lower@.len(),
            i <= n,
            forall|j: int| 0 <= j < i ==> ascii_lower(s@[j]) == lower@[j],
        decreases n - i,
    {
        if ascii_lower_char(s.get_char(i)) != lower.get_char(i) {
            assert(s@.map_values(|c: char| ascii_lower(c))[i as int] != lower@[i as int]);
            return false;
        }
        i = i + 1;
    }
    assert(s@.map_values(|c: char| ascii_lower(c)) =~= lower@);
    true
}

} // verus!
