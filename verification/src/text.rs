//! Character-level text helpers shared by the services: conversions between
//! strings and character vectors, searching, decimal formatting and parsing.

use vstd::prelude::*;

verus! {

/// The characters of a string slice, in order.
pub fn str_chars(s: &str) -> (r: Vec<char>)
    ensures
        r@ == s@,
{
    broadcast use vstd::string::axiom_spec_iter;

    let mut out: Vec<char> = Vec::new();
    for c in it: s.chars()
        invariant
            out@ == it.seq().take(it.index() as int),
            it.seq() == s@,
    {
        out.push(c);
    }
    out
}

/// A string made of the given characters.
///
/// Trusted: collects the characters into a `String` with `FromIterator`;
/// the result holds exactly those characters.
#[verifier::external_body]
pub(crate) fn string_from_chars(v: &Vec<char>) -> (r: String)
    ensures
        r@ == v@,
{
    v.iter().collect()
}

/// Equality of two string slices: the same characters in the same order.
pub(crate) fn str_eq(a: &str, b: &str) -> (r: bool)
    ensures
        r == (a@ == b@),
{
    let x = str_chars(a);
    let y = str_chars(b);
    if x.len() != y.len() {
        return false;
    }
    let mut i: usize = 0;
    while i < x.len()
        invariant
            i <= x@.len(),
            x@.len() == y@.len(),
            x@ == a@,
            y@ == b@,
            forall|k: int| 0 <= k < i ==> x@[k] == y@[k],
        decreases x@.len() - i,
    {
        if x[i] != y[i] {
            assert(a@[i as int] != b@[i as int]);
            return false;
        }
        i = i + 1;
    }
    assert(x@ =~= y@);
    true
}

/// An owned copy of a string slice.
pub fn own(s: &str) -> (r: String)
    ensures
        r@ == s@,
{
    s.to_owned()
}

/// Appends the characters of `s` to `out`.
pub fn push_str_chars(out: &mut Vec<char>, s: &str)
    ensures
        final(out)@ == old(out)@ + s@,
{
    let cs = str_chars(s);
    push_all(out, &cs);
}

/// Appends all of `src` to `out`.
pub fn push_all(out: &mut Vec<char>, src: &Vec<char>)
    ensures
        final(out)@ == old(out)@ + src@,
{
    let mut i: usize = 0;
    while i < src.len()
        invariant
            i <= src.len(),
            out@ == old(out)@ + src@.take(i as int),
        decreases src.len() - i,
    {
        out.push(src[i]);
        assert(src@.take(i + 1) =~= src@.take(i as int).push(src@[i as int]));
        i = i + 1;
    }
    assert(src@.take(src.len() as int) =~= src@);
}

/// Index of the first occurrence of `c` in `s`, or `s.len()` when `c` does not occur.
pub open spec fn find_char(s: Seq<char>, c: char) -> nat
    decreases s.len(),
{
    if s.len() == 0 {
        0
    } else if s[0] == c {
        0
    } else {
        1 + find_char(s.drop_first(), c)
    }
}

/// `i` is the position of the first `c` in `s` (or `s.len()` if there is none).
pub open spec fn is_first_index(s: Seq<char>, c: char, i: int) -> bool {
    &&& 0 <= i <= s.len()
    &&& i < s.len() ==> s[i] == c
    &&& forall|k: int| 0 <= k < i ==> s[k] != c
}

pub proof fn lemma_find_char_is_first(s: Seq<char>, c: char, i: int)
    requires
        is_first_index(s, c, i),
    ensures
        find_char(s, c) == i,
    decreases s.len(),
{
    if s.len() > 0 && s[0] != c {
        assert(i > 0);
        assert(is_first_index(s.drop_first(), c, i - 1));
        lemma_find_char_is_first(s.drop_first(), c, i - 1);
    }
}

pub proof fn lemma_find_char_bounds(s: Seq<char>, c: char)
    ensures
        is_first_index(s, c, find_char(s, c) as int),
    decreases s.len(),
{
    if s.len() > 0 && s[0] != c {
        lemma_find_char_bounds(s.drop_first(), c);
        let j = find_char(s.drop_first(), c) as int;
        assert forall|k: int| 0 <= k < j + 1 implies s[k] != c by {
            if k > 0 {
                assert(s[k] == s.drop_first()[k - 1]);
            }
        }
    }
}

/// The first occurrence of `c` in `s` when `s` is `a` followed by `c`, where `a`
/// holds no `c`, is at `a.len()`.
pub proof fn lemma_find_char_after_prefix(a: Seq<char>, c: char, rest: Seq<char>)
    requires
        !a.contains(c),
    ensures
        find_char(a + seq![c] + rest, c) == a.len(),
{
    let s = a + seq![c] + rest;
    assert forall|k: int| 0 <= k < a.len() implies s[k] != c by {
        assert(s[k] == a[k]);
        if a[k] == c {
            assert(a.contains(c));
        }
    }
    assert(s[a.len() as int] == c);
    lemma_find_char_is_first(s, c, a.len() as int);
}

/// Position of the first `c` in `s` (or `s.len()` when absent).
pub fn find_char_exec(s: &Vec<char>, c: char) -> (r: usize)
    ensures
        r == find_char(s@, c),
        is_first_index(s@, c, r as int),
{
    let mut i: usize = 0;
    while i < s.len()
        invariant
            i <= s.len(),
            forall|k: int| 0 <= k < i ==> s@[k] != c,
        decreases s.len() - i,
    {
        if s[i] == c {
            proof {
                lemma_find_char_is_first(s@, c, i as int);
            }
            return i;
        }
        i = i + 1;
    }
    proof {
        lemma_find_char_is_first(s@, c, i as int);
    }
    i
}

/// The characters `s[from..to]` as a new vector.
pub fn slice_chars(s: &Vec<char>, from: usize, to: usize) -> (r: Vec<char>)
    requires
        from <= to <= s.len(),
    ensures
        r@ == s@.subrange(from as int, to as int),
{
    let mut out: Vec<char> = Vec::new();
    let mut i: usize = from;
    while i < to
        invariant
            from <= i <= to,
            to <= s.len(),
            out@ == s@.subrange(from as int, i as int),
        decreases to - i,
    {
        out.push(s[i]);
        assert(s@.subrange(from as int, i + 1) =~= s@.subrange(from as int, i as int).push(
            s@[i as int],
        ));
        i = i + 1;
    }
    out
}

/// Whether `s` begins with `prefix`.
pub fn starts_with_chars(s: &Vec<char>, prefix: &Vec<char>) -> (r: bool)
    ensures
        r == (prefix@.len() <= s@.len() && s@.take(prefix@.len() as int) == prefix@),
{
    if prefix.len() > s.len() {
        return false;
    }
    let mut i: usize = 0;
    while i < prefix.len()
        invariant
            i <= prefix.len() <= s.len(),
            forall|k: int| 0 <= k < i ==> s@[k] == prefix@[k],
        decreases prefix.len() - i,
    {
        if s[i] != prefix[i] {
            assert(s@.take(prefix@.len() as int)[i as int] != prefix@[i as int]);
            return false;
        }
        i = i + 1;
    }
    assert(s@.take(prefix@.len() as int) =~= prefix@);
    true
}

// ---------------------------------------------------------------------------
// Lexicographic order
// ---------------------------------------------------------------------------

/// Strict lexicographic order on character sequences, comparing characters by
/// code point; a proper prefix comes first.  This is the order of `str::cmp`,
/// since UTF-8 encoding preserves code-point order.
pub open spec fn lex_lt(a: Seq<char>, b: Seq<char>) -> bool
    decreases a.len(),
{
    if a.len() == 0 {
        b.len() > 0
    } else if b.len() == 0 {
        false
    } else if a[0] == b[0] {
        lex_lt(a.drop_first(), b.drop_first())
    } else {
        (a[0] as int) < (b[0] as int)
    }
}

/// Lexicographic `<=`.
pub open spec fn lex_le(a: Seq<char>, b: Seq<char>) -> bool {
    a == b || lex_lt(a, b)
}

/// `lex_lt` is irreflexive.
pub proof fn lemma_lex_irreflexive(a: Seq<char>)
    ensures
        !lex_lt(a, a),
    decreases a.len(),
{
    if a.len() > 0 {
        lemma_lex_irreflexive(a.drop_first());
    }
}

/// `lex_lt` is transitive.
pub proof fn lemma_lex_transitive(a: Seq<char>, b: Seq<char>, c: Seq<char>)
    requires
        lex_lt(a, b),
        lex_lt(b, c),
    ensures
        lex_lt(a, c),
    decreases a.len(),
{
    if a.len() > 0 && b.len() > 0 && c.len() > 0 && a[0] == b[0] && b[0] == c[0] {
        lemma_lex_transitive(a.drop_first(), b.drop_first(), c.drop_first());
    }
}

/// Two distinct sequences are ordered one way or the other.
pub proof fn lemma_lex_total(a: Seq<char>, b: Seq<char>)
    ensures
        a != b ==> lex_lt(a, b) || lex_lt(b, a),
    decreases a.len(),
{
    if a.len() > 0 && b.len() > 0 {
        if a[0] == b[0] {
            lemma_lex_total(a.drop_first(), b.drop_first());
            if a.drop_first() == b.drop_first() {
                assert(a =~= seq![a[0]] + a.drop_first());
                assert(b =~= seq![b[0]] + b.drop_first());
            }
        } else if (a[0] as int) == (b[0] as int) {
            assert(a[0] == b[0]);
        }
    } else if a.len() == 0 && b.len() == 0 {
        assert(a =~= b);
    }
}

/// `lex_lt` is asymmetric.
pub proof fn lemma_lex_asymmetric(a: Seq<char>, b: Seq<char>)
    ensures
        !(lex_lt(a, b) && lex_lt(b, a)),
{
    if lex_lt(a, b) && lex_lt(b, a) {
        lemma_lex_transitive(a, b, a);
        lemma_lex_irreflexive(a);
    }
}

/// Whether `a` comes strictly before `b` in lexicographic order.
pub fn lex_less(a: &Vec<char>, b: &Vec<char>) -> (r: bool)
    ensures
        r == lex_lt(a@, b@),
{
    let mut i: usize = 0;
    assert(a@.skip(0) =~= a@);
    assert(b@.skip(0) =~= b@);
    while i < a.len() && i < b.len()
        invariant
            i <= a.len(),
            i <= b.len(),
            lex_lt(a@, b@) == lex_lt(a@.skip(i as int), b@.skip(i as int)),
        decreases a.len() - i,
    {
        let x = a[i];
        let y = b[i];
        assert(a@.skip(i as int)[0] == x);
        assert(b@.skip(i as int)[0] == y);
        if x != y {
            return x < y;
        }
        assert(a@.skip(i as int).drop_first() =~= a@.skip(i + 1));
        assert(b@.skip(i as int).drop_first() =~= b@.skip(i + 1));
        i = i + 1;
    }
    i < b.len()
}

// ---------------------------------------------------------------------------
// Decimal numbers
// ---------------------------------------------------------------------------

pub open spec fn is_digit(c: char) -> bool {
    '0' <= c && c <= '9'
}

pub open spec fn digit_value(c: char) -> nat {
    (c as nat - '0' as nat) as nat
}

pub open spec fn digit_char(d: nat) -> char {
    (d + '0' as nat) as char
}

pub open spec fn all_digits(s: Seq<char>) -> bool {
    forall|i: int| 0 <= i < s.len() ==> is_digit(#[trigger] s[i])
}

/// The value of a string of decimal digits (most significant first).
pub open spec fn digits_value(s: Seq<char>) -> nat
    decreases s.len(),
{
    if s.len() == 0 {
        0
    } else {
        digits_value(s.drop_last()) * 10 + digit_value(s.last())
    }
}

/// The shortest decimal representation of `n`.
pub open spec fn decimal(n: nat) -> Seq<char>
    decreases n,
{
    if n < 10 {
        seq![digit_char(n)]
    } else {
        decimal(n / 10).push(digit_char(n % 10))
    }
}

/// `s` left-padded with `'0'` up to `width` characters (unchanged when already that wide).
pub open spec fn zero_pad(s: Seq<char>, width: nat) -> Seq<char> {
    if s.len() < width {
        Seq::new((width - s.len()) as nat, |i: int| '0') + s
    } else {
        s
    }
}

pub proof fn lemma_decimal_digits(n: nat)
    ensures
        all_digits(decimal(n)),
        decimal(n).len() >= 1,
        digits_value(decimal(n)) == n,
    decreases n,
{
    if n < 10 {
        let s = decimal(n);
        assert(s.drop_last() =~= Seq::<char>::empty());
        assert(digits_value(s.drop_last()) == 0);
    } else {
        lemma_decimal_digits(n / 10);
        let s = decimal(n);
        assert(s.drop_last() =~= decimal(n / 10));
        assert(n == (n / 10) * 10 + n % 10) by (nonlinear_arith);
        assert forall|i: int| 0 <= i < s.len() implies is_digit(#[trigger] s[i]) by {
            if i < s.len() - 1 {
                assert(s[i] == decimal(n / 10)[i]);
            }
        }
    }
}

/// A run of `'0'` characters has value 0.
proof fn lemma_zeros_value(z: Seq<char>)
    requires
        forall|i: int| 0 <= i < z.len() ==> z[i] == '0',
    ensures
        digits_value(z) == 0,
    decreases z.len(),
{
    if z.len() > 0 {
        lemma_zeros_value(z.drop_last());
    }
}

/// Leading zeros do not change the value of a digit string.
proof fn lemma_leading_zeros_value(z: Seq<char>, s: Seq<char>)
    requires
        forall|i: int| 0 <= i < z.len() ==> z[i] == '0',
    ensures
        digits_value(z + s) == digits_value(s),
    decreases s.len(),
{
    if s.len() == 0 {
        assert(z + s =~= z);
        lemma_zeros_value(z);
    } else {
        lemma_leading_zeros_value(z, s.drop_last());
        assert((z + s).drop_last() =~= z + s.drop_last());
        assert((z + s).last() == s.last());
    }
}

/// Zero-padding keeps the digits and the value of a decimal string.
pub proof fn lemma_zero_pad_value(s: Seq<char>, width: nat)
    requires
        all_digits(s),
    ensures
        all_digits(zero_pad(s, width)),
        digits_value(zero_pad(s, width)) == digits_value(s),
{
    if s.len() < width {
        let z = Seq::new((width - s.len()) as nat, |i: int| '0');
        lemma_leading_zeros_value(z, s);
        assert forall|i: int| 0 <= i < zero_pad(s, width).len() implies is_digit(
            #[trigger] zero_pad(s, width)[i],
        ) by {
            if i >= z.len() {
                assert(zero_pad(s, width)[i] == s[i - z.len()]);
            }
        }
    }
}

/// The zero-padded decimal form of a number determines the number.
pub proof fn lemma_padded_decimal_injective(a: nat, b: nat, width: nat)
    requires
        zero_pad(decimal(a), width) == zero_pad(decimal(b), width),
    ensures
        a == b,
{
    lemma_decimal_digits(a);
    lemma_decimal_digits(b);
    lemma_zero_pad_value(decimal(a), width);
    lemma_zero_pad_value(decimal(b), width);
}

/// `10` to the power `k`.
pub open spec fn pow10(k: nat) -> nat
    decreases k,
{
    if k == 0 {
        1
    } else {
        10 * pow10((k - 1) as nat)
    }
}

/// A digit string of length `k` has a value below `10^k`.
proof fn lemma_digits_value_bound(s: Seq<char>)
    requires
        all_digits(s),
    ensures
        digits_value(s) < pow10(s.len()),
    decreases s.len(),
{
    if s.len() > 0 {
        let t = s.drop_last();
        assert(all_digits(t)) by {
            assert forall|i: int| 0 <= i < t.len() implies is_digit(#[trigger] t[i]) by {
                assert(t[i] == s[i]);
            }
        }
        lemma_digits_value_bound(t);
        let v = digits_value(t);
        let d = digit_value(s.last());
        assert(is_digit(s[s.len() - 1]));
        assert(d <= 9);
        let p = pow10(t.len());
        assert(v * 10 + d < 10 * p) by (nonlinear_arith)
            requires
                v < p,
                d <= 9,
        ;
    }
}

/// The value of a digit string read from its first digit.
proof fn lemma_digits_value_front(s: Seq<char>)
    requires
        s.len() > 0,
    ensures
        digits_value(s) == digit_value(s[0]) * pow10((s.len() - 1) as nat) + digits_value(
            s.drop_first(),
        ),
    decreases s.len(),
{
    if s.len() == 1 {
        assert(s.drop_last() =~= Seq::<char>::empty());
        assert(s.drop_first() =~= Seq::<char>::empty());
        assert(s.last() == s[0]);
        assert(digits_value(s.drop_last()) == 0);
        assert(digits_value(s) == digit_value(s[0]));
        assert(pow10(0) == 1);
        assert(digit_value(s[0]) * pow10(0) == digit_value(s[0]));
        assert(digits_value(s.drop_first()) == 0);
    } else {
        let t = s.drop_last();
        lemma_digits_value_front(t);
        assert(t[0] == s[0]);
        assert(t.drop_first() =~= s.drop_first().drop_last());
        assert(s.drop_first().last() == s.last());
        let d0 = digit_value(s[0]);
        let p = pow10((t.len() - 1) as nat);
        let v = digits_value(t.drop_first());
        let dl = digit_value(s.last());
        assert(pow10((s.len() - 1) as nat) == 10 * p);
        assert(digits_value(s) == digits_value(t) * 10 + dl);
        assert(digits_value(s.drop_first()) == digits_value(s.drop_first().drop_last()) * 10 + dl);
        assert((d0 * p + v) * 10 + dl == d0 * (10 * p) + (v * 10 + dl)) by (nonlinear_arith);
    }
}

/// Of two digit strings of one length, the one with the smaller value comes
/// first in lexicographic order.
pub proof fn lemma_digits_lex_order(x: Seq<char>, y: Seq<char>)
    requires
        all_digits(x),
        all_digits(y),
        x.len() == y.len(),
        digits_value(x) < digits_value(y),
    ensures
        lex_lt(x, y),
    decreases x.len(),
{
    if x.len() > 0 {
        lemma_digits_value_front(x);
        lemma_digits_value_front(y);
        let xr = x.drop_first();
        let yr = y.drop_first();
        assert(all_digits(xr)) by {
            assert forall|i: int| 0 <= i < xr.len() implies is_digit(#[trigger] xr[i]) by {
                assert(xr[i] == x[i + 1]);
            }
        }
        assert(all_digits(yr)) by {
            assert forall|i: int| 0 <= i < yr.len() implies is_digit(#[trigger] yr[i]) by {
                assert(yr[i] == y[i + 1]);
            }
        }
        assert(is_digit(x[0]) && is_digit(y[0]));
        let p = pow10((x.len() - 1) as nat);
        let dx = digit_value(x[0]);
        let dy = digit_value(y[0]);
        let vx = digits_value(xr);
        let vy = digits_value(yr);
        lemma_digits_value_bound(yr);
        if x[0] == y[0] {
            lemma_digits_lex_order(xr, yr);
        } else if dy < dx {
            assert(dx * p + vx >= dy * p + p) by (nonlinear_arith)
                requires
                    dy + 1 <= dx,
            ;
            assert(false);
        } else {
            assert((x[0] as int) < (y[0] as int));
        }
    }
}

/// A number below `10^k` (with `k >= 1`) has at most `k` decimal digits.
proof fn lemma_decimal_len(n: nat, k: nat)
    requires
        k >= 1,
        n < pow10(k),
    ensures
        decimal(n).len() <= k,
    decreases n,
{
    if n >= 10 {
        let p = pow10((k - 1) as nat);
        assert(k >= 2) by {
            if k == 1 {
                assert(pow10(1) == 10 * pow10(0));
            }
        }
        assert(n / 10 < p) by (nonlinear_arith)
            requires
                n < 10 * p,
        ;
        lemma_decimal_len(n / 10, (k - 1) as nat);
    }
}

/// Zero-padded to a common width that both fit in, the smaller number's
/// decimal form comes first in lexicographic order.
pub proof fn lemma_padded_decimal_order(a: nat, b: nat, width: nat)
    requires
        a < b,
        width >= 1,
        b < pow10(width),
    ensures
        lex_lt(zero_pad(decimal(a), width), zero_pad(decimal(b), width)),
{
    lemma_decimal_len(a, width);
    lemma_decimal_len(b, width);
    lemma_decimal_digits(a);
    lemma_decimal_digits(b);
    lemma_zero_pad_value(decimal(a), width);
    lemma_zero_pad_value(decimal(b), width);
    lemma_digits_lex_order(zero_pad(decimal(a), width), zero_pad(decimal(b), width));
}

/// Appends the decimal digits of `n` to `out`.
pub fn push_decimal(out: &mut Vec<char>, n: u64)
    ensures
        final(out)@ == old(out)@ + decimal(n as nat),
    decreases n,
{
    if n >= 10 {
        push_decimal(out, n / 10);
    }
    let d: u64 = n % 10;
    let c: char = if d == 0 {
        '0'
    } else if d == 1 {
        '1'
    } else if d == 2 {
        '2'
    } else if d == 3 {
        '3'
    } else if d == 4 {
        '4'
    } else if d == 5 {
        '5'
    } else if d == 6 {
        '6'
    } else if d == 7 {
        '7'
    } else if d == 8 {
        '8'
    } else {
        '9'
    };
    assert(c == digit_char(d as nat));
    out.push(c);
}

/// The decimal representation of `n`, left-padded with zeros to `width` characters.
pub fn decimal_padded(n: u64, width: usize) -> (r: Vec<char>)
    ensures
        r@ == zero_pad(decimal(n as nat), width as nat),
{
    let mut digits: Vec<char> = Vec::new();
    push_decimal(&mut digits, n);
    assert(digits@ =~= decimal(n as nat));
    if digits.len() >= width {
        return digits;
    }
    let pad: usize = width - digits.len();
    let mut out: Vec<char> = Vec::new();
    let mut i: usize = 0;
    while i < pad
        invariant
            i <= pad,
            out@ == Seq::new(i as nat, |k: int| '0'),
        decreases pad - i,
    {
        out.push('0');
        assert(out@ =~= Seq::new((i + 1) as nat, |k: int| '0'));
        i = i + 1;
    }
    push_all(&mut out, &digits);
    out
}

/// Value of a digit character.
fn digit_of(c: char) -> (d: u64)
    requires
        is_digit(c),
    ensures
        d == digit_value(c),
        d < 10,
{
    (c as u32 - '0' as u32) as u64
}

pub proof fn lemma_digits_value_prefix(s: Seq<char>, i: int)
    requires
        0 <= i < s.len(),
    ensures
        digits_value(s.take(i + 1)) == digits_value(s.take(i)) * 10 + digit_value(s[i]),
{
    assert(s.take(i + 1).drop_last() =~= s.take(i));
}

pub proof fn lemma_digits_value_monotone(s: Seq<char>, i: int)
    requires
        0 <= i <= s.len(),
    ensures
        digits_value(s.take(i)) <= digits_value(s),
    decreases s.len() - i,
{
    if i < s.len() {
        lemma_digits_value_prefix(s, i);
        lemma_digits_value_monotone(s, i + 1);
        let v = digits_value(s.take(i));
        assert(v <= v * 10) by (nonlinear_arith);
    } else {
        assert(s.take(i) =~= s);
    }
}

/// Unsigned decimal parsing as `u64::from_str` does it: an optional `+`, then
/// one or more ASCII digits, with a value that fits in a `u64`.
pub open spec fn spec_parse_u64(s: Seq<char>) -> Option<u64> {
    let body = if s.len() > 0 && s[0] == '+' {
        s.drop_first()
    } else {
        s
    };
    if body.len() > 0 && all_digits(body) && digits_value(body) <= u64::MAX {
        Some(digits_value(body) as u64)
    } else {
        None
    }
}

/// Signed decimal parsing as `i32::from_str` / `i64::from_str` do it, with the
/// accepted range `[lo, hi]`: an optional sign, then one or more digits.
pub open spec fn spec_parse_signed(s: Seq<char>, lo: int, hi: int) -> Option<int> {
    let neg = s.len() > 0 && s[0] == '-';
    let body = if s.len() > 0 && (s[0] == '+' || s[0] == '-') {
        s.drop_first()
    } else {
        s
    };
    let v: int = if neg {
        -(digits_value(body) as int)
    } else {
        digits_value(body) as int
    };
    if body.len() > 0 && all_digits(body) && lo <= v <= hi {
        Some(v)
    } else {
        None
    }
}

/// Accumulates the digits of `body[start..]` into a value, failing when a
/// non-digit appears or the value exceeds `limit`.
fn accumulate_digits(body: &Vec<char>, start: usize, limit: u64) -> (r: Option<u64>)
    requires
        start <= body.len(),
    ensures
        ({
            let b = body@.skip(start as int);
            match r {
                Some(v) => all_digits(b) && digits_value(b) <= limit && v == digits_value(b),
                None => !(all_digits(b) && digits_value(b) <= limit),
            }
        }),
{
    let ghost b = body@.skip(start as int);
    let mut acc: u64 = 0;
    let mut i: usize = start;
    while i < body.len()
        invariant
            start <= i <= body.len(),
            b == body@.skip(start as int),
            all_digits(b.take(i - start)),
            acc == digits_value(b.take(i - start)),
            acc <= limit,
        decreases body.len() - i,
    {
        let c = body[i];
        let ghost j: int = i - start;
        assert(b[j] == c);
        if !('0' <= c && c <= '9') {
            assert(!all_digits(b));
            return None;
        }
        let d = digit_of(c);
        proof {
            lemma_digits_value_prefix(b, j);
        }
        if d > limit || acc > (limit - d) / 10 {
            proof {
                if d <= limit {
                    assert(acc * 10 + d > limit) by (nonlinear_arith)
                        requires
                            acc > (limit - d) / 10,
                            d <= limit,
                    ;
                }
                lemma_digits_value_monotone(b, j + 1);
            }
            return None;
        }
        assert(acc * 10 + d <= limit) by (nonlinear_arith)
            requires
                acc <= (limit - d) / 10,
                d <= limit,
        ;
        acc = acc * 10 + d;
        assert forall|k: int| 0 <= k < j + 1 implies is_digit(#[trigger] b.take(j + 1)[k]) by {
            if k < j {
                assert(b.take(j + 1)[k] == b.take(j)[k]);
            }
        }
        i = i + 1;
    }
    assert(b.take(i - start) =~= b);
    Some(acc)
}

/// Parses a `u64` the way `str::parse::<u64>` does.
pub fn parse_u64(s: &str) -> (r: Option<u64>)
    ensures
        r == spec_parse_u64(s@),
{
    let cs = str_chars(s);
    parse_u64_chars(&cs)
}

/// Parses a `u64` from characters the way `str::parse::<u64>` does.
pub fn parse_u64_chars(cs: &Vec<char>) -> (r: Option<u64>)
    ensures
        r == spec_parse_u64(cs@),
{
    let start: usize = if cs.len() > 0 && cs[0] == '+' {
        1
    } else {
        0
    };
    assert(cs@.skip(0) =~= cs@);
    assert(cs@.skip(1) =~= cs@.drop_first());
    if start == cs.len() {
        return None;
    }
    accumulate_digits(cs, start, u64::MAX)
}

/// Parses a signed integer with range `[lo, hi]` (`lo < 0 < hi`, `-lo <= u64::MAX`).
fn parse_signed(s: &str, lo_mag: u64, hi: u64) -> (r: Option<(bool, u64)>)
    requires
        hi < lo_mag,
    ensures
        match r {
            Some((neg, m)) => spec_parse_signed(s@, -(lo_mag as int), hi as int) == Some(
                if neg {
                    -(m as int)
                } else {
                    m as int
                },
            ),
            None => spec_parse_signed(s@, -(lo_mag as int), hi as int).is_none(),
        },
{
    let cs = str_chars(s);
    let neg: bool = cs.len() > 0 && cs[0] == '-';
    let start: usize = if cs.len() > 0 && (cs[0] == '+' || cs[0] == '-') {
        1
    } else {
        0
    };
    assert(cs@.skip(0) =~= cs@);
    assert(cs@.skip(1) =~= cs@.drop_first());
    if start == cs.len() {
        return None;
    }
    let limit: u64 = if neg {
        lo_mag
    } else {
        hi
    };
    match accumulate_digits(&cs, start, limit) {
        Some(m) => Some((neg, m)),
        None => None,
    }
}

/// Parses an `i64` the way `str::parse::<i64>` does.
pub fn parse_i64(s: &str) -> (r: Option<i64>)
    ensures
        match r {
            Some(v) => spec_parse_signed(s@, i64::MIN as int, i64::MAX as int) == Some(v as int),
            None => spec_parse_signed(s@, i64::MIN as int, i64::MAX as int).is_none(),
        },
{
    match parse_signed(s, 9223372036854775808u64, 9223372036854775807u64) {
        Some((neg, m)) => {
            if neg {
                if m == 9223372036854775808u64 {
                    Some(-9223372036854775807i64 - 1)
                } else {
                    Some(-(m as i64))
                }
            } else {
                Some(m as i64)
            }
        },
        None => None,
    }
}

/// Parses an `i32` the way `str::parse::<i32>` does.
pub fn parse_i32(s: &str) -> (r: Option<i32>)
    ensures
        match r {
            Some(v) => spec_parse_signed(s@, i32::MIN as int, i32::MAX as int) == Some(v as int),
            None => spec_parse_signed(s@, i32::MIN as int, i32::MAX as int).is_none(),
        },
{
    match parse_signed(s, 2147483648u64, 2147483647u64) {
        Some((neg, m)) => {
            if neg {
                if m == 2147483648u64 {
                    Some(-2147483647i32 - 1)
                } else {
                    Some(-(m as i32))
                }
            } else {
                Some(m as i32)
            }
        },
        None => None,
    }
}

} // verus!
