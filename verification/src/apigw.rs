//! API Gateway v2 request helpers: the response content type, query-string
//! parsing with percent-decoding, and parameter lookup.

use vstd::prelude::*;
use crate::fields::{split_chars, split_on};
use crate::seqs::{first_index, lemma_first_index_is};
use crate::text::{
    find_char, find_char_exec, push_str_chars, slice_chars, str_chars, str_eq, string_from_chars,
};

verus! {

/// Content type for API Gateway v2 JSON responses.
pub const CONTENT_TYPE: &'static str = "application/json";

/// The value of a hexadecimal digit.
pub open spec fn hex_value(c: char) -> Option<u8> {
    if '0' <= c && c <= '9' {
        Some((c as u32 - '0' as u32) as u8)
    } else if 'a' <= c && c <= 'f' {
        Some((c as u32 - 'a' as u32 + 10) as u8)
    } else if 'A' <= c && c <= 'F' {
        Some((c as u32 - 'A' as u32 + 10) as u8)
    } else {
        None
    }
}

/// The byte that `u8::from_str_radix(h, 16)` gives for the (at most two)
/// characters after a `%`: two hex digits, or `+` and one hex digit.
pub open spec fn hex_byte(h: Seq<char>) -> Option<u8> {
    if h.len() != 2 {
        None
    } else if h[0] == '+' {
        hex_value(h[1])
    } else {
        match (hex_value(h[0]), hex_value(h[1])) {
            (Some(a), Some(b)) => Some((a * 16 + b) as u8),
            _ => None,
        }
    }
}

/// Percent-decoding of query keys and values: `%XY` becomes the byte `XY`
/// taken as a character, `+` becomes a space, and a `%` not followed by a
/// valid byte is kept with what follows it.
pub open spec fn percent_decoded(s: Seq<char>) -> Seq<char>
    decreases s.len(),
{
    if s.len() == 0 {
        Seq::<char>::empty()
    } else if s[0] == '%' {
        let after = s.drop_first();
        let n: int = if after.len() < 2 {
            after.len() as int
        } else {
            2
        };
        let hex = after.take(n);
        match hex_byte(hex) {
            Some(b) => seq![b as char] + percent_decoded(after.skip(n)),
            None => seq!['%'] + hex + percent_decoded(after.skip(n)),
        }
    } else if s[0] == '+' {
        seq![' '] + percent_decoded(s.drop_first())
    } else {
        seq![s[0]] + percent_decoded(s.drop_first())
    }
}

/// Text without `%` or `+` decodes to itself.
pub proof fn lemma_percent_plain(s: Seq<char>)
    requires
        !s.contains('%'),
        !s.contains('+'),
    ensures
        percent_decoded(s) == s,
    decreases s.len(),
{
    if s.len() > 0 {
        assert(s[0] != '%' && s[0] != '+') by {
            assert(s.contains(s[0]));
        }
        let t = s.drop_first();
        assert forall|c: char| t.contains(c) implies s.contains(c) by {
            let i = choose|i: int| 0 <= i < t.len() && t[i] == c;
            assert(s[i + 1] == c);
        }
        lemma_percent_plain(t);
        assert(seq![s[0]] + t =~= s);
    }
}

/// A `%` with two hex digits decodes to the byte they spell (the first digit
/// the high half: `0`-`9` are 0 to 9, `a`-`f` and `A`-`F` 10 to 15) and `+`
/// decodes to a space; the rest is decoded after them.
pub proof fn lemma_percent_escapes(a: char, b: char, rest: Seq<char>)
    ensures
        hex_value('0') == Some(0u8),
        hex_value('9') == Some(9u8),
        hex_value('a') == Some(10u8),
        hex_value('F') == Some(15u8),
        hex_value('g') is None,
        a != '+' && hex_value(a) is Some && hex_value(b) is Some ==> percent_decoded(
            seq!['%', a, b] + rest,
        ) == seq![((hex_value(a)->0 * 16 + hex_value(b)->0) as u8) as char] + percent_decoded(rest),
        percent_decoded(seq!['+'] + rest) == seq![' '] + percent_decoded(rest),
{
    let s = seq!['%', a, b] + rest;
    let after = s.drop_first();
    assert(after.take(2) =~= seq![a, b]);
    assert(after.skip(2) =~= rest);
    assert((seq!['+'] + rest).drop_first() =~= rest);
}

fn hex_value_exec(c: char) -> (r: Option<u8>)
    ensures
        r == hex_value(c),
{
    if '0' <= c && c <= '9' {
        Some((c as u32 - '0' as u32) as u8)
    } else if 'a' <= c && c <= 'f' {
        Some((c as u32 - 'a' as u32 + 10) as u8)
    } else if 'A' <= c && c <= 'F' {
        Some((c as u32 - 'A' as u32 + 10) as u8)
    } else {
        None
    }
}

fn hex_byte_exec(h: &Vec<char>) -> (r: Option<u8>)
    ensures
        r == hex_byte(h@),
{
    if h.len() != 2 {
        None
    } else if h[0] == '+' {
        hex_value_exec(h[1])
    } else {
        match (hex_value_exec(h[0]), hex_value_exec(h[1])) {
            (Some(a), Some(b)) => {
                assert(a < 16 && b < 16);
                Some(a * 16 + b)
            },
            _ => None,
        }
    }
}

/// Percent-decodes a query key or value.
pub fn percent_decode(input: &str) -> (r: String)
    ensures
        r@ == percent_decoded(input@),
{
    let s = str_chars(input);
    let mut out: Vec<char> = Vec::new();
    let mut i: usize = 0;
    assert(s@.skip(0) =~= s@);
    while i < s.len()
        invariant
            i <= s.len(),
            out@ + percent_decoded(s@.skip(i as int)) == percent_decoded(s@),
        decreases s.len() - i,
    {
        let ghost rest = s@.skip(i as int);
        let ch = s[i];
        assert(rest[0] == ch);
        assert(rest.drop_first() =~= s@.skip(i + 1));
        if ch == '%' {
            let end: usize = if s.len() - (i + 1) < 2 {
                s.len()
            } else {
                i + 3
            };
            let hex = slice_chars(&s, i + 1, end);
            proof {
                let after = rest.drop_first();
                let n: int = (end - (i + 1)) as int;
                assert(hex@ =~= after.take(n));
                assert(after.skip(n) =~= s@.skip(end as int));
            }
            match hex_byte_exec(&hex) {
                Some(b) => {
                    out.push(b as char);
                    assert(out@ + percent_decoded(s@.skip(end as int)) =~= nested_concat(
                        out@.drop_last(),
                        seq![b as char],
                        percent_decoded(s@.skip(end as int)),
                    ));
                },
                None => {
                    let ghost before = out@;
                    out.push('%');
                    let mut k: usize = 0;
                    while k < hex.len()
                        invariant
                            k <= hex.len(),
                            out@ == before + seq!['%'] + hex@.take(k as int),
                        decreases hex.len() - k,
                    {
                        out.push(hex[k]);
                        assert(hex@.take(k + 1) =~= hex@.take(k as int).push(hex@[k as int]));
                        k = k + 1;
                    }
                    assert(hex@.take(hex.len() as int) =~= hex@);
                    assert(out@ + percent_decoded(s@.skip(end as int)) =~= before + (seq!['%']
                        + hex@ + percent_decoded(s@.skip(end as int))));
                },
            }
            i = end;
        } else if ch == '+' {
            let ghost before = out@;
            out.push(' ');
            assert(out@ + percent_decoded(s@.skip(i + 1)) =~= before + (seq![' '] + percent_decoded(
                s@.skip(i + 1),
            )));
            i = i + 1;
        } else {
            let ghost before = out@;
            out.push(ch);
            assert(out@ + percent_decoded(s@.skip(i + 1)) =~= before + (seq![ch] + percent_decoded(
                s@.skip(i + 1),
            )));
            i = i + 1;
        }
    }
    assert(s@.skip(s.len() as int) =~= Seq::<char>::empty());
    assert(out@ + Seq::<char>::empty() =~= out@);
    string_from_chars(&out)
}

/// `a + (b + c)`, the shape in which decoded text is accumulated.
spec fn nested_concat(a: Seq<char>, b: Seq<char>, c: Seq<char>) -> Seq<char> {
    a + (b + c)
}

/// The key and value of one `key=value` pair (value empty when there is no
/// `=`), percent-decoded.
pub open spec fn query_pair(p: Seq<char>) -> (Seq<char>, Seq<char>) {
    let i = find_char(p, '=') as int;
    if i < p.len() {
        (percent_decoded(p.take(i)), percent_decoded(p.skip(i + 1)))
    } else {
        (percent_decoded(p), Seq::<char>::empty())
    }
}

/// The pairs of a query string: its non-empty `&`-separated parts, each split
/// at its first `=`.
pub open spec fn query_pairs(q: Seq<char>) -> Seq<(Seq<char>, Seq<char>)> {
    split_on(q, '&').filter(nonempty_part()).map_values(pair_of_part())
}

/// Selects the non-empty parts of a query string.
pub open spec fn nonempty_part() -> spec_fn(Seq<char>) -> bool {
    |p: Seq<char>| p.len() > 0
}

/// The pair of a part of a query string.
pub open spec fn pair_of_part() -> spec_fn(Seq<char>) -> (Seq<char>, Seq<char>) {
    |p: Seq<char>| query_pair(p)
}

/// The text of a list of string pairs.
pub open spec fn pairs_view(v: Seq<(String, String)>) -> Seq<(Seq<char>, Seq<char>)> {
    v.map_values(|p: (String, String)| (p.0@, p.1@))
}

fn split_pair(p: &Vec<char>) -> (r: (String, String))
    ensures
        (r.0@, r.1@) == query_pair(p@),
{
    let i = find_char_exec(p, '=');
    if i < p.len() {
        let k = slice_chars(p, 0, i);
        let v = slice_chars(p, i + 1, p.len());
        assert(k@ =~= p@.take(i as int));
        assert(v@ =~= p@.skip(i + 1));
        let ks = string_from_chars(&k);
        let vs = string_from_chars(&v);
        (percent_decode(ks.as_str()), percent_decode(vs.as_str()))
    } else {
        let whole = string_from_chars(p);
        let empty: Vec<char> = Vec::new();
        (percent_decode(whole.as_str()), string_from_chars(&empty))
    }
}

/// Parse query parameters from a URL query string.
pub fn parse_query_params(query: &str) -> (r: Vec<(String, String)>)
    ensures
        pairs_view(r@) == query_pairs(query@),
{
    let q = str_chars(query);
    let parts = split_chars(&q, '&');
    let ghost pv = parts@.map_values(|v: Vec<char>| v@);
    let ghost keep = nonempty_part();
    let mut out: Vec<(String, String)> = Vec::new();
    let mut i: usize = 0;
    while i < parts.len()
        invariant
            i <= parts.len(),
            pv == parts@.map_values(|v: Vec<char>| v@),
            keep == nonempty_part(),
            pairs_view(out@) == pv.take(i as int).filter(keep).map_values(pair_of_part()),
        decreases parts.len() - i,
    {
        proof {
            reveal_with_fuel(Seq::filter, 1);
            assert(pv.take(i + 1).drop_last() =~= pv.take(i as int));
            assert(pv.take(i + 1).last() == parts@[i as int]@);
        }
        let ghost before = pv.take(i as int).filter(keep);
        if parts[i].len() > 0 {
            let pair = split_pair(&parts[i]);
            let ghost old_out = out@;
            out.push(pair);
            proof {
                let target = before.push(parts@[i as int]@).map_values(pair_of_part());
                let pvw = pairs_view(out@);
                assert(pairs_view(old_out) == before.map_values(pair_of_part()));
                assert(pairs_view(old_out).len() == old_out.len());
                assert(old_out.len() == before.len());
                assert(pvw.len() == out@.len());
                assert(target.len() == before.len() + 1);
                assert forall|k: int| 0 <= k < pvw.len() implies #[trigger] pvw[k] == target[k] by {
                    if k < old_out.len() {
                        assert(out@[k] == old_out[k]);
                        assert(pairs_view(old_out)[k] == pvw[k]);
                    } else {
                        assert(out@[k] == pair);
                    }
                }
                assert(pvw =~= target);
            }
        }
        i = i + 1;
    }
    assert(pv.take(parts.len() as int) =~= pv);
    out
}

/// Selects the pairs whose key is `key`.
pub open spec fn key_is(key: Seq<char>) -> spec_fn((String, String)) -> bool {
    |p: (String, String)| p.0@ == key
}

/// Get a query parameter by name: the value of the first pair with that key.
pub fn get_query_param(params: &[(String, String)], key: &str) -> (r: Option<String>)
    ensures
        ({
            let i = first_index(params@, key_is(key@)) as int;
            if i < params@.len() {
                r matches Some(v) && v@ == params@[i].1@
            } else {
                r is None
            }
        }),
{
    let ghost pred = key_is(key@);
    let mut i: usize = 0;
    while i < params.len()
        invariant
            i <= params.len(),
            pred == key_is(key@),
            forall|k: int| 0 <= k < i ==> !pred(#[trigger] params@[k]),
        decreases params.len() - i,
    {
        if str_eq(params[i].0.as_str(), key) {
            proof {
                lemma_first_index_is(params@, pred, i as int);
            }
            return Some(params[i].1.clone());
        }
        i = i + 1;
    }
    proof {
        lemma_first_index_is(params@, pred, i as int);
    }
    None
}

/// The value of a required path parameter (the first pair with that name);
/// without one, the error message `Missing path parameter: {name}`.
pub fn require_path_param(params: &[(String, String)], name: &str) -> (r: Result<String, String>)
    ensures
        ({
            let i = first_index(params@, key_is(name@)) as int;
            if i < params@.len() {
                r matches Ok(v) && v@ == params@[i].1@
            } else {
                r matches Err(m) && m@ == "Missing path parameter: "@ + name@
            }
        }),
{
    match get_query_param(params, name) {
        Some(v) => Ok(v),
        None => {
            let mut m = str_chars("Missing path parameter: ");
            push_str_chars(&mut m, name);
            Err(string_from_chars(&m))
        },
    }
}

} // verus!
