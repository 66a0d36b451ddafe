//! Character-level text operations: decimal port numbers, pattern
//! replacement, prefixes and first lines.
use vstd::prelude::*;

verus! {

/// An ASCII decimal digit.
pub open spec fn is_digit(c: char) -> bool {
    '0' <= c && c <= '9'
}

/// The numeric value of an ASCII decimal digit.
pub open spec fn digit_value(c: char) -> nat {
    (c as int - '0' as int) as nat
}

/// The digit character for a value below ten.
pub open spec fn digit_char(d: nat) -> char {
    if d == 0 {
        '0'
    } else if d == 1 {
        '1'
    } else if d == 2 {
        '2'
    } else if d == 3 {
        '3'
    } else if d == 4 {
        '4'
    } else if d == 5 {
        '5'
    } else if d == 6 {
        '6'
    } else if d == 7 {
        '7'
    } else if d == 8 {
        '8'
    } else {
        '9'
    }
}

/// Every character of `s` is a decimal digit.
pub open spec fn all_digits(s: Seq<char>) -> bool {
    forall|i: int| 0 <= i < s.len() ==> is_digit(#[trigger] s[i])
}

/// The number that a sequence of decimal digits denotes (most significant first).
pub open spec fn digits_value(s: Seq<char>) -> nat
    decreases s.len(),
{
    if s.len() == 0 {
        0
    } else {
        digits_value(s.drop_last()) * 10 + digit_value(s.last())
    }
}

/// The digits of an unsigned number in text: one leading `+` is allowed.
pub open spec fn unsigned_digits(s: Seq<char>) -> Seq<char> {
    if s.len() > 0 && s[0] == '+' {
        s.drop_first()
    } else {
        s
    }
}

/// How a text reads as a 16-bit unsigned number: an optional `+` followed by
/// at least one decimal digit and nothing else, whose value fits in 16 bits.
pub open spec fn spec_parse_u16(s: Seq<char>) -> Option<u16> {
    let d = unsigned_digits(s);
    if d.len() > 0 && all_digits(d) && digits_value(d) <= u16::MAX {
        Some(digits_value(d) as u16)
    } else {
        None
    }
}

/// The decimal text of a number, without sign or leading zeros.
pub open spec fn spec_decimal(n: nat) -> Seq<char>
    decreases n,
{
    if n < 10 {
        seq![digit_char(n)]
    } else {
        spec_decimal(n / 10).push(digit_char(n % 10))
    }
}

/// `p` is a prefix of `s`.
pub open spec fn is_prefix(p: Seq<char>, s: Seq<char>) -> bool {
    p.len() <= s.len() && s.take(p.len() as int) == p
}

/// `s` with every occurrence of `from`, found left to right without overlap,
/// replaced by `to`.
pub open spec fn spec_replace(s: Seq<char>, from: Seq<char>, to: Seq<char>) -> Seq<char>
    decreases s.len(),
{
    if from.len() == 0 || s.len() < from.len() {
        s
    } else if s.take(from.len() as int) == from {
        to + spec_replace(s.skip(from.len() as int), from, to)
    } else {
        seq![s[0]] + spec_replace(s.drop_first(), from, to)
    }
}

/// How many times `from` occurs in `s`, counted left to right without
/// overlap, as `str::matches(..).count()` counts them.
pub open spec fn spec_count(s: Seq<char>, from: Seq<char>) -> nat
    decreases s.len(),
{
    if from.len() == 0 || s.len() < from.len() {
        0
    } else if s.take(from.len() as int) == from {
        1 + spec_count(s.skip(from.len() as int), from)
    } else {
        spec_count(s.drop_first(), from)
    }
}

/// The characters of `s` before its first line break (all of `s` when it has none).
pub open spec fn spec_first_line(s: Seq<char>) -> Seq<char>
    decreases s.len(),
{
    if s.len() == 0 || s[0] == '\n' {
        Seq::empty()
    } else {
        seq![s[0]] + spec_first_line(s.drop_first())
    }
}

/// `c` does not occur in `s`.
pub open spec fn lacks_char(s: Seq<char>, c: char) -> bool {
    forall|i: int| 0 <= i < s.len() ==> #[trigger] s[i] != c
}

proof fn lemma_digit_char(d: nat)
    requires
        d < 10,
    ensures
        is_digit(digit_char(d)),
        digit_value(digit_char(d)) == d,
{
}

proof fn lemma_digits_value_prefix(s: Seq<char>, k: int)
    requires
        all_digits(s),
        0 <= k <= s.len(),
    ensures
        digits_value(s.take(k)) <= digits_value(s),
    decreases s.len(),
{
    if k < s.len() {
        assert(s.drop_last().take(k) =~= s.take(k));
        lemma_digits_value_prefix(s.drop_last(), k);
    } else {
        assert(s.take(k) =~= s);
    }
}

proof fn lemma_decimal_digits(n: nat)
    ensures
        spec_decimal(n).len() > 0,
        all_digits(spec_decimal(n)),
        digits_value(spec_decimal(n)) == n,
        spec_decimal(n)[0] != '+',
    decreases n,
{
    if n < 10 {
        lemma_digit_char(n);
        let t = seq![digit_char(n)];
        assert(t.drop_last() =~= Seq::<char>::empty());
        assert(digits_value(Seq::<char>::empty()) == 0);
        assert(digits_value(t) == digits_value(t.drop_last()) * 10 + digit_value(t.last()));
    } else {
        lemma_decimal_digits(n / 10);
        lemma_digit_char(n % 10);
        let s = spec_decimal(n / 10);
        let t = s.push(digit_char(n % 10));
        assert(t.drop_last() =~= s);
        assert(t.last() == digit_char(n % 10));
        assert(digits_value(t) == digits_value(s) * 10 + (n % 10));
        assert(forall|i: int| 0 <= i < s.len() ==> t[i] == s[i]);
        assert(t[0] == s[0]);
    }
}

/// Reading the decimal text of a 16-bit number gives the number back.
pub proof fn lemma_parse_decimal(n: u16)
    ensures
        spec_parse_u16(spec_decimal(n as nat)) == Some(n),
{
    lemma_decimal_digits(n as nat);
}

/// A prefix in which the first character of the pattern never occurs
/// survives the replacement.
pub proof fn lemma_replace_keeps_prefix(p: Seq<char>, s: Seq<char>, from: Seq<char>, to: Seq<char>)
    requires
        from.len() > 0,
        is_prefix(p, s),
        lacks_char(p, from[0]),
    ensures
        is_prefix(p, spec_replace(s, from, to)),
    decreases s.len(),
{
    if p.len() == 0 {
        assert(spec_replace(s, from, to).take(0) =~= p);
    } else if s.len() < from.len() {
    } else if s.take(from.len() as int) == from {
        assert(s[0] == s.take(from.len() as int)[0]);
        assert(p[0] == s[0]);
    } else {
        let r = spec_replace(s.drop_first(), from, to);
        assert(s.drop_first().take(p.len() - 1) =~= p.drop_first());
        assert(lacks_char(p.drop_first(), from[0])) by {
            assert forall|i: int| 0 <= i < p.drop_first().len() implies p.drop_first()[i]
                != from[0] by {
                assert(p.drop_first()[i] == p[i + 1]);
            }
        }
        lemma_replace_keeps_prefix(p.drop_first(), s.drop_first(), from, to);
        assert(s.take(p.len() as int)[0] == p[0]);
        assert(r.take(p.len() - 1) == p.drop_first());
        assert forall|k: int| 0 <= k < p.len() implies (seq![s[0]] + r)[k] == p[k] by {
            if k > 0 {
                assert((seq![s[0]] + r)[k] == r[k - 1]);
                assert(r.take(p.len() - 1)[k - 1] == r[k - 1]);
                assert(p.drop_first()[k - 1] == p[k]);
            }
        }
        assert((seq![s[0]] + r).take(p.len() as int) =~= p);
    }
}

/// A stretch without the pattern's first character adds no occurrence.
pub proof fn lemma_count_skip_free(a: Seq<char>, b: Seq<char>, from: Seq<char>)
    requires
        from.len() > 0,
        lacks_char(a, from[0]),
    ensures
        spec_count(a + b, from) == spec_count(b, from),
    decreases a.len(),
{
    if a.len() == 0 {
        assert(a + b =~= b);
    } else {
        let s = a + b;
        let rest = a.drop_first();
        assert(s.drop_first() =~= rest + b);
        assert(lacks_char(rest, from[0])) by {
            assert forall|i: int| 0 <= i < rest.len() implies rest[i] != from[0] by {
                assert(rest[i] == a[i + 1]);
            }
        }
        lemma_count_skip_free(rest, b, from);
        if s.len() >= from.len() {
            assert(s.take(from.len() as int)[0] == a[0]);
        } else {
            assert(b.len() < from.len());
        }
    }
}

/// The pattern itself at the front adds one occurrence.
pub proof fn lemma_count_match(b: Seq<char>, from: Seq<char>)
    requires
        from.len() > 0,
    ensures
        spec_count(from + b, from) == 1 + spec_count(b, from),
{
    let s = from + b;
    assert(s.take(from.len() as int) =~= from);
    assert(s.skip(from.len() as int) =~= b);
}

/// A text without the pattern's first character holds no occurrence.
pub proof fn lemma_count_none(a: Seq<char>, from: Seq<char>)
    requires
        from.len() > 0,
        lacks_char(a, from[0]),
    ensures
        spec_count(a, from) == 0,
{
    lemma_count_skip_free(a, Seq::empty(), from);
    assert(a + Seq::<char>::empty() =~= a);
}

/// The first line of a text is a prefix of it without line breaks.
pub proof fn lemma_first_line_prefix(s: Seq<char>)
    ensures
        is_prefix(spec_first_line(s), s),
        lacks_char(spec_first_line(s), '\n'),
        spec_first_line(s).len() < s.len() ==> s[spec_first_line(s).len() as int] == '\n',
    decreases s.len(),
{
    if s.len() == 0 || s[0] == '\n' {
        assert(s.take(0) =~= Seq::<char>::empty());
    } else {
        lemma_first_line_prefix(s.drop_first());
        let r = spec_first_line(s.drop_first());
        if r.len() < s.drop_first().len() {
            assert(s[r.len() + 1int] == s.drop_first()[r.len() as int]);
        }
        assert(s.take(r.len() + 1int) =~= seq![s[0]] + r);
        assert forall|i: int| 0 <= i < (seq![s[0]] + r).len() implies (seq![s[0]] + r)[i]
            != '\n' by {
            if i > 0 {
                assert((seq![s[0]] + r)[i] == r[i - 1]);
            }
        }
    }
}

/// A text is rejected when it is empty, is a lone `+`, or holds any
/// character other than a digit, apart from one leading `+`.
pub proof fn lemma_parse_rejects(s: Seq<char>, i: int)
    requires
        0 <= i < s.len(),
        !is_digit(s[i]),
        !(i == 0 && s[i] == '+'),
    ensures
        spec_parse_u16(s) is None,
        spec_parse_u16(Seq::empty()) is None,
        spec_parse_u16(seq!['+']) is None,
{
    let d = unsigned_digits(s);
    if s.len() > 0 && s[0] == '+' {
        assert(d[i - 1] == s[i]);
    } else {
        assert(d[i] == s[i]);
    }
    assert(seq!['+'].drop_first().len() == 0);
}

/// One leading `+` does not change the number read.
pub proof fn lemma_parse_plus(d: Seq<char>)
    requires
        d.len() > 0,
        d[0] != '+',
    ensures
        spec_parse_u16(seq!['+'] + d) == spec_parse_u16(d),
{
    assert((seq!['+'] + d).drop_first() =~= d);
}

/// Leading zeros do not change the number read.
pub proof fn lemma_parse_leading_zero(d: Seq<char>)
    requires
        d.len() > 0,
        d[0] != '+',
    ensures
        spec_parse_u16(seq!['0'] + d) == spec_parse_u16(d),
{
    let z = seq!['0'] + d;
    if all_digits(d) {
        lemma_digits_value_leading_zero(d);
        assert(all_digits(z)) by {
            assert forall|i: int| 0 <= i < z.len() implies is_digit(#[trigger] z[i]) by {
                if i > 0 {
                    assert(z[i] == d[i - 1]);
                }
            }
        }
    } else {
        let i = choose|i: int| 0 <= i < d.len() && !is_digit(d[i]);
        assert(z[i + 1] == d[i]);
    }
}

proof fn lemma_digits_value_leading_zero(d: Seq<char>)
    ensures
        digits_value(seq!['0'] + d) == digits_value(d),
    decreases d.len(),
{
    let z = seq!['0'] + d;
    if d.len() == 0 {
        assert(z.drop_last() =~= Seq::<char>::empty());
        assert(digits_value(Seq::<char>::empty()) == 0);
    } else {
        assert(z.drop_last() =~= seq!['0'] + d.drop_last());
        lemma_digits_value_leading_zero(d.drop_last());
        assert(z.last() == d.last());
    }
}

/// The decimal text of a number has no leading zero, and the decimal text of
/// a number above 65535 is not read as a port number.
pub proof fn lemma_decimal_canonical(n: nat)
    ensures
        spec_decimal(n).len() == 1 || spec_decimal(n)[0] != '0',
        n > u16::MAX ==> spec_parse_u16(spec_decimal(n)) is None,
    decreases n,
{
    lemma_decimal_digits(n);
    let sd = spec_decimal(n);
    assert(unsigned_digits(sd) == sd);
    if n >= 10 {
        lemma_decimal_canonical(n / 10);
        let inner = spec_decimal(n / 10);
        assert(sd == inner.push(digit_char(n % 10)));
        assert(sd[0] == inner[0]);
        if n / 10 < 10 {
            assert(inner[0] == digit_char(n / 10));
        } else {
            lemma_decimal_digits(n / 10 / 10);
            assert(inner == spec_decimal(n / 10 / 10).push(digit_char((n / 10) % 10)));
            assert(inner.len() > 1);
        }
    }
}

/// Replacing changes the length by the number of occurrences times the
/// difference in length between the replacement and the pattern.
pub proof fn lemma_replace_length(s: Seq<char>, from: Seq<char>, to: Seq<char>)
    requires
        from.len() > 0,
    ensures
        spec_replace(s, from, to).len() == s.len() + spec_count(s, from) * (to.len() - from.len()),
    decreases s.len(),
{
    let dl = to.len() - from.len();
    if s.len() < from.len() {
        assert(spec_count(s, from) == 0);
        assert(0 * dl == 0);
    } else if s.take(from.len() as int) == from {
        let rest = s.skip(from.len() as int);
        lemma_replace_length(rest, from, to);
        let c = spec_count(rest, from) as int;
        assert(spec_count(s, from) == 1 + c);
        assert(spec_replace(s, from, to) == to + spec_replace(rest, from, to));
        assert((1 + c) * dl == dl + c * dl) by (nonlinear_arith);
    } else {
        lemma_replace_length(s.drop_first(), from, to);
        assert(spec_count(s, from) == spec_count(s.drop_first(), from));
        assert(spec_replace(s, from, to) == seq![s[0]] + spec_replace(s.drop_first(), from, to));
    }
}

/// A text without any occurrence of the pattern is left as it is.
pub proof fn lemma_replace_no_occurrence(s: Seq<char>, from: Seq<char>, to: Seq<char>)
    requires
        from.len() > 0,
        spec_count(s, from) == 0,
    ensures
        spec_replace(s, from, to) == s,
    decreases s.len(),
{
    if s.len() < from.len() {
    } else if s.take(from.len() as int) == from {
    } else {
        lemma_replace_no_occurrence(s.drop_first(), from, to);
        assert(s =~= seq![s[0]] + s.drop_first());
    }
}

/// A stretch without the pattern's first character is copied unchanged.
pub proof fn lemma_replace_skip_free(a: Seq<char>, b: Seq<char>, from: Seq<char>, to: Seq<char>)
    requires
        from.len() > 0,
        lacks_char(a, from[0]),
    ensures
        spec_replace(a + b, from, to) == a + spec_replace(b, from, to),
    decreases a.len(),
{
    if a.len() == 0 {
        assert(a + b =~= b);
        assert(a + spec_replace(b, from, to) =~= spec_replace(b, from, to));
    } else {
        let s = a + b;
        let rest = a.drop_first();
        assert(s.drop_first() =~= rest + b);
        assert(lacks_char(rest, from[0])) by {
            assert forall|i: int| 0 <= i < rest.len() implies rest[i] != from[0] by {
                assert(rest[i] == a[i + 1]);
            }
        }
        lemma_replace_skip_free(rest, b, from, to);
        if s.len() >= from.len() {
            assert(s.take(from.len() as int)[0] == a[0]);
            assert(a =~= seq![a[0]] + rest);
            assert(seq![s[0]] + (rest + spec_replace(b, from, to)) =~= a + spec_replace(b, from, to));
        } else {
            assert(b.len() < from.len());
            assert(spec_replace(b, from, to) == b);
        }
    }
}

/// The pattern itself at the front becomes the replacement.
pub proof fn lemma_replace_match(b: Seq<char>, from: Seq<char>, to: Seq<char>)
    requires
        from.len() > 0,
    ensures
        spec_replace(from + b, from, to) == to + spec_replace(b, from, to),
{
    let s = from + b;
    assert(s.take(from.len() as int) =~= from);
    assert(s.skip(from.len() as int) =~= b);
}

/// Joining two texts without a character keeps it absent.
pub proof fn lemma_lacks_concat(a: Seq<char>, b: Seq<char>, c: char)
    requires
        lacks_char(a, c),
        lacks_char(b, c),
    ensures
        lacks_char(a + b, c),
{
    assert forall|i: int| 0 <= i < (a + b).len() implies (a + b)[i] != c by {
        if i >= a.len() {
            assert((a + b)[i] == b[i - a.len()]);
        } else {
            assert((a + b)[i] == a[i]);
        }
    }
}

/// The text of one decimal digit.
fn digit_text(d: u32) -> (t: &'static str)
    requires
        d < 10,
    ensures
        t@ == seq![digit_char(d as nat)],
{
    if d == 0 {
        proof {
            reveal_strlit("0");
        }
        "0"
    } else if d == 1 {
        proof {
            reveal_strlit("1");
        }
        "1"
    } else if d == 2 {
        proof {
            reveal_strlit("2");
        }
        "2"
    } else if d == 3 {
        proof {
            reveal_strlit("3");
        }
        "3"
    } else if d == 4 {
        proof {
            reveal_strlit("4");
        }
        "4"
    } else if d == 5 {
        proof {
            reveal_strlit("5");
        }
        "5"
    } else if d == 6 {
        proof {
            reveal_strlit("6");
        }
        "6"
    } else if d == 7 {
        proof {
            reveal_strlit("7");
        }
        "7"
    } else if d == 8 {
        proof {
            reveal_strlit("8");
        }
        "8"
    } else {
        proof {
            reveal_strlit("9");
        }
        "9"
    }
}

fn decimal_string(n: u32) -> (s: String)
    ensures
        s@ == spec_decimal(n as nat),
    decreases n,
{
    if n < 10 {
        digit_text(n).to_owned()
    } else {
        let mut s = decimal_string(n / 10);
        s.append(digit_text(n % 10));
        s
    }
}

/// The decimal text of a port number, as `to_string` writes it.
pub fn u16_to_decimal(n: u16) -> (s: String)
    ensures
        s@ == spec_decimal(n as nat),
{
    decimal_string(n as u32)
}

/// Reads a 16-bit unsigned number the way `str::parse::<u16>` does.
pub fn parse_u16(s: &str) -> (res: Option<u16>)
    ensures
        res == spec_parse_u16(s@),
{
    let n = s.unicode_len();
    let mut start: usize = 0;
    if n > 0 && s.get_char(0) == '+' {
        start = 1;
    }
    let ghost d = unsigned_digits(s@);
    assert(d =~= s@.skip(start as int));
    if start == n {
        return None;
    }
    let mut acc: u32 = 0;
    let mut i: usize = start;
    assert(s@.subrange(start as int, start as int) =~= Seq::<char>::empty());
    while i < n
        invariant
            start <= i <= n,
            start < n,
            n == s@.len(),
            d == s@.skip(start as int),
            d == unsigned_digits(s@),
            all_digits(s@.subrange(start as int, i as int)),
            acc == digits_value(s@.subrange(start as int, i as int)),
            acc <= 65535,
        decreases n - i,
    {
        let c = s.get_char(i);
        if !('0' <= c && c <= '9') {
            assert(d[i - start] == c);
            assert(!is_digit(c));
            assert(!all_digits(d));
            return None;
        }
        let v: u32 = (c as u32) - ('0' as u32);
        let ghost prev = s@.subrange(start as int, i as int);
        let ghost next = s@.subrange(start as int, i + 1);
        assert(next.drop_last() =~= prev);
        assert(next.last() == c);
        assert(v == digit_value(c));
        assert(digits_value(next) == digits_value(prev) * 10 + digit_value(c));
        acc = acc * 10 + v;
        assert(all_digits(next)) by {
            assert forall|k: int| 0 <= k < next.len() implies is_digit(#[trigger] next[k]) by {
                if k < prev.len() {
                    assert(next[k] == prev[k]);
                }
            }
        }
        if acc > 65535 {
            proof {
                assert(d.take(i + 1 - start) =~= next);
                if all_digits(d) {
                    lemma_digits_value_prefix(d, i + 1 - start);
                }
            }
            return None;
        }
        i += 1;
    }
    assert(s@.subrange(start as int, n as int) =~= d);
    Some(acc as u16)
}

/// Whether `pat` occurs in `s` at character position `i`.
fn occurs_at(s: &str, n: usize, i: usize, pat: &str, m: usize) -> (res: bool)
    requires
        n == s@.len(),
        m == pat@.len(),
        i <= n,
    ensures
        res == (i + m <= n && s@.subrange(i as int, i + m) == pat@),
{
    if m > n - i {
        return false;
    }
    let mut j: usize = 0;
    while j < m
        invariant
            j <= m,
            i + m <= n,
            n == s@.len(),
            m == pat@.len(),
            forall|k: int| 0 <= k < j ==> s@[i + k] == pat@[k],
        decreases m - j,
    {
        if s.get_char(i + j) != pat.get_char(j) {
            assert(s@.subrange(i as int, i + m)[j as int] != pat@[j as int]);
            return false;
        }
        j += 1;
    }
    assert(s@.subrange(i as int, i + m) =~= pat@);
    true
}

/// Whether `s` begins with `prefix`, as `str::starts_with` answers.
pub fn starts_with(s: &str, prefix: &str) -> (res: bool)
    ensures
        res == is_prefix(prefix@, s@),
{
    let n = s.unicode_len();
    let m = prefix.unicode_len();
    let r = occurs_at(s, n, 0, prefix, m);
    assert(s@.subrange(0, m as int) =~= s@.take(m as int));
    r
}

/// Replaces every occurrence of `from` in `s` by `to`, as `str::replace` does
/// for a non-empty pattern.
pub fn replace_all(s: &str, from: &str, to: &str) -> (res: String)
    requires
        from@.len() > 0,
    ensures
        res@ == spec_replace(s@, from@, to@),
{
    let n = s.unicode_len();
    let m = from.unicode_len();
    let mut res = String::new();
    let mut i: usize = 0;
    assert(s@.skip(0) =~= s@);
    while i < n
        invariant
            i <= n,
            n == s@.len(),
            m == from@.len(),
            m > 0,
            spec_replace(s@, from@, to@) == res@ + spec_replace(s@.skip(i as int), from@, to@),
        decreases n - i,
    {
        let ghost rest = s@.skip(i as int);
        let ghost before = res@;
        if occurs_at(s, n, i, from, m) {
            assert(rest.take(m as int) =~= s@.subrange(i as int, i + m));
            assert(rest.skip(m as int) =~= s@.skip(i + m));
            res.append(to);
            i += m;
            assert(res@ + spec_replace(s@.skip(i as int), from@, to@) =~= before + (to@
                + spec_replace(rest.skip(m as int), from@, to@)));
        } else {
            let piece = s.substring_char(i, i + 1);
            assert(piece@ =~= seq![rest[0]]);
            assert(rest.drop_first() =~= s@.skip(i + 1));
            proof {
                if rest.len() < m {
                    assert(rest =~= seq![rest[0]] + rest.drop_first());
                } else {
                    assert(rest.take(m as int) =~= s@.subrange(i as int, i + m));
                }
            }
            res.append(piece);
            i += 1;
            assert(res@ + spec_replace(s@.skip(i as int), from@, to@) =~= before + (seq![rest[0]]
                + spec_replace(rest.drop_first(), from@, to@)));
        }
    }
    assert(s@.skip(n as int) =~= Seq::<char>::empty());
    assert(res@ + Seq::<char>::empty() =~= res@);
    res
}

/// The first line of `s`, as `s.split('\n').next()` gives it.
pub fn first_line(s: &str) -> (res: &str)
    ensures
        res@ == spec_first_line(s@),
{
    let n = s.unicode_len();
    let mut i: usize = 0;
    assert(s@.skip(0) =~= s@);
    assert(s@.take(0) =~= Seq::<char>::empty());
    while i < n && s.get_char(i) != '\n'
        invariant
            i <= n,
            n == s@.len(),
            spec_first_line(s@) == s@.take(i as int) + spec_first_line(s@.skip(i as int)),
        decreases n - i,
    {
        let ghost rest = s@.skip(i as int);
        assert(rest.drop_first() =~= s@.skip(i + 1));
        assert(s@.take(i + 1) =~= s@.take(i as int) + seq![rest[0]]);
        i += 1;
        assert(s@.take(i as int) + spec_first_line(s@.skip(i as int)) =~= s@.take(i - 1) + (seq![
            rest[0]] + spec_first_line(rest.drop_first())));
    }
    if i == n {
        assert(s@.skip(n as int) =~= Seq::<char>::empty());
    } else {
        assert(s@.skip(i as int)[0] == s@[i as int]);
    }
    assert(s@.take(i as int) + Seq::<char>::empty() =~= s@.take(i as int));
    let r = s.substring_char(0, i);
    assert(r@ =~= s@.take(i as int));
    r
}

} // verus!
