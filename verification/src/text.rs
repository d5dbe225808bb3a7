//! Decimal rendering and the placeholder scanner used to reason about
//! numbered SQL parameters (`?1`, `?2`, ...).
use vstd::prelude::*;
use vstd::string::*;

verus! {

/// The ASCII digit for `d` (meaningful for `d < 10`).
pub open spec fn digit_char(d: nat) -> char {
    if d == 0 { '0' }
    else if d == 1 { '1' }
    else if d == 2 { '2' }
    else if d == 3 { '3' }
    else if d == 4 { '4' }
    else if d == 5 { '5' }
    else if d == 6 { '6' }
    else if d == 7 { '7' }
    else if d == 8 { '8' }
    else { '9' }
}

/// Whether `c` is one of the ASCII digits.
pub open spec fn is_digit(c: char) -> bool {
    c == '0' || c == '1' || c == '2' || c == '3' || c == '4'
    || c == '5' || c == '6' || c == '7' || c == '8' || c == '9'
}

/// The value of a digit character.
pub open spec fn digit_value(c: char) -> nat {
    if c == '1' { 1 }
    else if c == '2' { 2 }
    else if c == '3' { 3 }
    else if c == '4' { 4 }
    else if c == '5' { 5 }
    else if c == '6' { 6 }
    else if c == '7' { 7 }
    else if c == '8' { 8 }
    else if c == '9' { 9 }
    else { 0 }
}

/// The shortest decimal representation of `n`, without sign or leading zeros.
pub open spec fn decimal(n: nat) -> Seq<char>
    decreases n,
{
    if n < 10 {
        seq![digit_char(n)]
    } else {
        decimal(n / 10).push(digit_char(n % 10))
    }
}

/// The number that a string of digits denotes (0 for the empty string).
pub open spec fn digits_value(s: Seq<char>) -> nat
    decreases s.len(),
{
    if s.len() == 0 {
        0
    } else {
        digits_value(s.drop_last()) * 10 + digit_value(s.last())
    }
}

/// Every character of `s` is a digit.
pub open spec fn all_digits(s: Seq<char>) -> bool {
    forall|i: int| 0 <= i < s.len() ==> #[trigger] is_digit(s[i])
}

/// Number of digit characters at the start of `s`.
pub open spec fn leading_digits(s: Seq<char>) -> nat
    decreases s.len(),
{
    if s.len() > 0 && is_digit(s[0]) {
        1 + leading_digits(s.drop_first())
    } else {
        0
    }
}

pub proof fn lemma_leading_digits_bound(s: Seq<char>)
    ensures
        leading_digits(s) <= s.len(),
    decreases s.len(),
{
    if s.len() > 0 && is_digit(s[0]) {
        lemma_leading_digits_bound(s.drop_first());
    }
}

/// The numbers written after each `?` of a statement, in order of appearance.
/// A `?` followed by no digit counts as number 0.
pub open spec fn placeholders(s: Seq<char>) -> Seq<nat>
    decreases s.len(),
{
    if s.len() == 0 {
        seq![]
    } else if s[0] == '?' {
        let rest = s.drop_first();
        let k = leading_digits(rest);
        proof {
            lemma_leading_digits_bound(rest);
        }
        seq![digits_value(rest.take(k as int))] + placeholders(rest.skip(k as int))
    } else {
        placeholders(s.drop_first())
    }
}

/// Whether `s` can stand as a table or column name in a statement:
/// non-empty, not starting with a digit and holding no `?`.
pub open spec fn is_name(s: Seq<char>) -> bool {
    &&& s.len() > 0
    &&& !is_digit(s[0])
    &&& forall|i: int| 0 <= i < s.len() ==> #[trigger] s[i] != '?'
}

pub proof fn lemma_digit_char(d: nat)
    requires
        d < 10,
    ensures
        is_digit(digit_char(d)),
        digit_value(digit_char(d)) == d,
{
}

pub proof fn lemma_decimal_digits(n: nat)
    ensures
        decimal(n).len() > 0,
        all_digits(decimal(n)),
        digits_value(decimal(n)) == n,
    decreases n,
{
    lemma_digit_char(n % 10);
    if n < 10 {
        assert(decimal(n).drop_last() =~= Seq::<char>::empty());
        assert(digits_value(decimal(n)) == digits_value(Seq::<char>::empty()) * 10 + digit_value(digit_char(n)));
    } else {
        lemma_decimal_digits(n / 10);
        let d = decimal(n);
        assert(d.drop_last() =~= decimal(n / 10));
        assert(d.last() == digit_char(n % 10));
        assert(digits_value(d) == digits_value(decimal(n / 10)) * 10 + digit_value(digit_char(n % 10)));
        assert(n == (n / 10) * 10 + n % 10);
        assert forall|i: int| 0 <= i < d.len() implies #[trigger] is_digit(d[i]) by {
            if i < d.len() - 1 {
                assert(d[i] == decimal(n / 10)[i]);
            }
        }
    }
}

pub proof fn lemma_all_digits_leading(s: Seq<char>)
    requires
        all_digits(s),
    ensures
        leading_digits(s) == s.len(),
    decreases s.len(),
{
    if s.len() > 0 {
        assert(is_digit(s[0]));
        let t = s.drop_first();
        assert forall|i: int| 0 <= i < t.len() implies #[trigger] is_digit(t[i]) by {
            assert(t[i] == s[i + 1]);
        }
        lemma_all_digits_leading(t);
    }
}

pub proof fn lemma_leading_digits_concat(x: Seq<char>, y: Seq<char>)
    requires
        y.len() == 0 || !is_digit(y[0]),
    ensures
        leading_digits(x + y) == leading_digits(x),
    decreases x.len(),
{
    if x.len() == 0 {
        assert(x + y =~= y);
    } else {
        assert((x + y)[0] == x[0]);
        assert((x + y).drop_first() =~= x.drop_first() + y);
        lemma_leading_digits_concat(x.drop_first(), y);
    }
}

/// Scanning a concatenation scans each part, provided the second part does not
/// begin with a digit (which would extend a number ending the first part).
pub proof fn lemma_placeholders_concat(a: Seq<char>, b: Seq<char>)
    requires
        b.len() == 0 || !is_digit(b[0]),
    ensures
        placeholders(a + b) == placeholders(a) + placeholders(b),
    decreases a.len(),
{
    if a.len() == 0 {
        assert(a + b =~= b);
        assert(placeholders(a) + placeholders(b) =~= placeholders(b));
    } else {
        let ab = a + b;
        assert(ab[0] == a[0]);
        let ra = a.drop_first();
        assert(ab.drop_first() =~= ra + b);
        if a[0] == '?' {
            lemma_leading_digits_concat(ra, b);
            lemma_leading_digits_bound(ra);
            let k = leading_digits(ra);
            assert((ra + b).take(k as int) =~= ra.take(k as int));
            assert((ra + b).skip(k as int) =~= ra.skip(k as int) + b);
            lemma_placeholders_concat(ra.skip(k as int), b);
            assert(placeholders(ab) =~= seq![digits_value(ra.take(k as int))] + (placeholders(
                ra.skip(k as int),
            ) + placeholders(b)));
            assert(placeholders(a) =~= seq![digits_value(ra.take(k as int))] + placeholders(
                ra.skip(k as int),
            ));
            assert(placeholders(ab) =~= placeholders(a) + placeholders(b));
        } else {
            lemma_placeholders_concat(ra, b);
        }
    }
}

/// A text without `?` holds no placeholder.
pub proof fn lemma_placeholders_none(s: Seq<char>)
    requires
        forall|i: int| 0 <= i < s.len() ==> #[trigger] s[i] != '?',
    ensures
        placeholders(s) == Seq::<nat>::empty(),
    decreases s.len(),
{
    if s.len() > 0 {
        let t = s.drop_first();
        assert forall|i: int| 0 <= i < t.len() implies #[trigger] t[i] != '?' by {
            assert(t[i] == s[i + 1]);
        }
        lemma_placeholders_none(t);
    }
}

/// `?` followed by the decimal form of `n` is read back as the single placeholder `n`.
pub proof fn lemma_placeholder_single(n: nat)
    ensures
        placeholders(seq!['?'] + decimal(n)) == seq![n],
{
    let s = seq!['?'] + decimal(n);
    lemma_decimal_digits(n);
    assert(s.drop_first() =~= decimal(n));
    lemma_all_digits_leading(decimal(n));
    assert(decimal(n).take(decimal(n).len() as int) =~= decimal(n));
    assert(decimal(n).skip(decimal(n).len() as int) =~= Seq::<char>::empty());
    assert(placeholders(Seq::<char>::empty()) =~= Seq::<nat>::empty());
    assert(placeholders(s) =~= seq![n]);
}

/// A text without `?` followed by `?` and the decimal form of `n` holds the
/// single placeholder `n`.
pub proof fn lemma_placeholder_after(prefix: Seq<char>, n: nat)
    requires
        forall|i: int| 0 <= i < prefix.len() ==> #[trigger] prefix[i] != '?',
    ensures
        placeholders(prefix + seq!['?'] + decimal(n)) == seq![n],
{
    let tail = seq!['?'] + decimal(n);
    assert(prefix + seq!['?'] + decimal(n) =~= prefix + tail);
    lemma_placeholders_none(prefix);
    lemma_placeholders_concat(prefix, tail);
    lemma_placeholder_single(n);
    assert(placeholders(prefix + tail) =~= seq![n]);
}

/// A text without `?` followed by a bare `?` holds the single unnumbered
/// placeholder, read as number 0.
pub proof fn lemma_placeholder_bare(prefix: Seq<char>)
    requires
        forall|i: int| 0 <= i < prefix.len() ==> #[trigger] prefix[i] != '?',
    ensures
        placeholders(prefix + seq!['?']) == seq![0nat],
{
    let q = seq!['?'];
    lemma_placeholders_none(prefix);
    lemma_placeholders_concat(prefix, q);
    let rest = q.drop_first();
    assert(rest =~= Seq::<char>::empty());
    assert(leading_digits(rest) == 0);
    assert(rest.take(0) =~= Seq::<char>::empty());
    assert(rest.skip(0) =~= Seq::<char>::empty());
    assert(digits_value(Seq::<char>::empty()) == 0);
    assert(placeholders(Seq::<char>::empty()) =~= Seq::<nat>::empty());
    assert(placeholders(q) =~= seq![0nat]);
    assert(placeholders(prefix + q) =~= seq![0nat]);
}

/// Digits are never `?`, so a decimal number holds no placeholder character.
pub proof fn lemma_decimal_no_question(n: nat)
    ensures
        forall|i: int| 0 <= i < decimal(n).len() ==> #[trigger] decimal(n)[i] != '?',
{
    lemma_decimal_digits(n);
    assert forall|i: int| 0 <= i < decimal(n).len() implies #[trigger] decimal(n)[i] != '?' by {
        assert(is_digit(decimal(n)[i]));
    }
}

/// The one-character string holding the digit `d`.
fn digit_str(d: u64) -> (s: &'static str)
    requires
        d < 10,
    ensures
        s@ == seq![digit_char(d as nat)],
{
    if d == 0 {
        proof { reveal_strlit("0"); }
        "0"
    } else if d == 1 {
        proof { reveal_strlit("1"); }
        "1"
    } else if d == 2 {
        proof { reveal_strlit("2"); }
        "2"
    } else if d == 3 {
        proof { reveal_strlit("3"); }
        "3"
    } else if d == 4 {
        proof { reveal_strlit("4"); }
        "4"
    } else if d == 5 {
        proof { reveal_strlit("5"); }
        "5"
    } else if d == 6 {
        proof { reveal_strlit("6"); }
        "6"
    } else if d == 7 {
        proof { reveal_strlit("7"); }
        "7"
    } else if d == 8 {
        proof { reveal_strlit("8"); }
        "8"
    } else {
        proof { reveal_strlit("9"); }
        "9"
    }
}

/// Appends the decimal representation of `n` to `out`.
pub fn push_decimal(out: &mut String, n: u64)
    ensures
        final(out)@ == old(out)@ + decimal(n as nat),
    decreases n,
{
    if n >= 10 {
        push_decimal(out, n / 10);
    }
    let d = digit_str(n % 10);
    out.append(d);
    proof {
        if n >= 10 {
            assert(decimal(n as nat) == decimal((n / 10) as nat).push(digit_char((n % 10) as nat)));
        }
    }
    assert(out@ =~= old(out)@ + decimal(n as nat));
}

/// The decimal representation of `n` as a new string.
pub fn decimal_string(n: u64) -> (s: String)
    ensures
        s@ == decimal(n as nat),
{
    let mut s = String::new();
    push_decimal(&mut s, n);
    assert(s@ =~= decimal(n as nat));
    s
}

/// Copies a string slice into a new `String`.
pub fn owned(s: &str) -> (r: String)
    ensures
        r@ == s@,
{
    s.to_owned()
}

} // verus!
