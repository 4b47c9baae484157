//! Query-string arguments of CloudFront control-plane requests (`MaxItems`,
//! `Resource`), percent-decoding of their values, and base64 payloads that
//! may also arrive as plain text.

use vstd::prelude::*;
use vstd::string::StringSliceAdditionalSpecFns;
use vstd::utf8::{decode_utf8, encode_utf8, valid_utf8};
use base64::Engine;
use crate::cloudfront_model::CloudFrontError;
use crate::fields::{split_chars, split_on};
use crate::routing::begins_with;
use crate::seqs::{first_index, lemma_first_index_is};
use crate::text::{own, parse_i32, slice_chars, spec_parse_signed, starts_with_chars, str_chars, string_from_chars};

verus! {

// ---------------------------------------------------------------------------
// Percent-decoding
// ---------------------------------------------------------------------------

/// The value of a hexadecimal digit byte.
pub open spec fn hex_value(b: u8) -> Option<u8> {
    if 48 <= b <= 57 {
        Some((b - 48) as u8)
    } else if 97 <= b <= 102 {
        Some((b - 87) as u8)
    } else if 65 <= b <= 70 {
        Some((b - 55) as u8)
    } else {
        None
    }
}

/// Percent-decoding of bytes: each `%` followed by two hexadecimal digits
/// becomes the byte they spell; every other byte stays.
pub open spec fn percent_decoded(b: Seq<u8>) -> Seq<u8>
    decreases b.len(),
{
    if b.len() == 0 {
        Seq::<u8>::empty()
    } else if b[0] == 37 && b.len() >= 3 && hex_value(b[1]) is Some && hex_value(b[2]) is Some {
        seq![(hex_value(b[1]).unwrap() * 16 + hex_value(b[2]).unwrap()) as u8] + percent_decoded(
            b.skip(3),
        )
    } else {
        seq![b[0]] + percent_decoded(b.drop_first())
    }
}

/// The percent-decoded bytes of a string.
///
/// Trusted: `percent_encoding::percent_decode_str`, collected.  Its source
/// decodes each `%` followed by two hexadecimal digits (either case) into
/// one byte and passes every other byte of the string's UTF-8 encoding
/// through, as `percent_decoded` states.
#[verifier::external_body]
fn percent_decode_bytes(s: &str) -> (r: Vec<u8>)
    ensures
        r@ == percent_decoded(s.spec_bytes()),
{
    percent_encoding::percent_decode_str(s).collect()
}

/// The text of bytes as `String::from_utf8_lossy` reads them.
pub uninterp spec fn lossy_text(b: Seq<u8>) -> Seq<char>;

/// The bytes read as UTF-8, with each invalid sequence replaced by U+FFFD.
///
/// Trusted: `String::from_utf8_lossy`.  Its result is named; of it the
/// documentation shows that valid UTF-8 comes back unchanged.  How invalid
/// sequences are replaced is left unsaid.
#[verifier::external_body]
fn utf8_lossy(b: &[u8]) -> (r: String)
    ensures
        r@ == lossy_text(b@),
        valid_utf8(b@) ==> r@ == decode_utf8(b@),
{
    String::from_utf8_lossy(b).into_owned()
}

/// Percent-decode a query value; bytes that do not form UTF-8 become U+FFFD.
pub fn percent_decode(s: &str) -> (r: String)
    ensures
        r@ == lossy_text(percent_decoded(encode_utf8(s@))),
        valid_utf8(percent_decoded(encode_utf8(s@))) ==> r@ == decode_utf8(
            percent_decoded(encode_utf8(s@)),
        ),
{
    let bytes = percent_decode_bytes(s);
    utf8_lossy(bytes.as_slice())
}

// ---------------------------------------------------------------------------
// Query arguments
// ---------------------------------------------------------------------------

/// Selects the `&`-separated query parts that begin with `key`.
pub open spec fn part_with(key: Seq<char>) -> spec_fn(Seq<char>) -> bool {
    |part: Seq<char>| begins_with(part, key)
}

/// The value after `key` in the first `&`-separated part of the query that
/// begins with `key` (`key` holds the `=`), if any part does.
pub open spec fn query_value(query: Seq<char>, key: Seq<char>) -> Option<Seq<char>> {
    let parts = split_on(query, '&');
    let i = first_index(parts, part_with(key)) as int;
    if i < parts.len() {
        Some(parts[i].skip(key.len() as int))
    } else {
        None
    }
}

/// The value after `key` in the first query part that begins with it.
fn find_query_value(query: &str, key: &str) -> (r: Option<String>)
    ensures
        match query_value(query@, key@) {
            Some(v) => r matches Some(x) && x@ == v,
            None => r is None,
        },
{
    let chars = str_chars(query);
    let k = str_chars(key);
    let parts = split_chars(&chars, '&');
    let ghost ps = parts@.map_values(|v: Vec<char>| v@);
    let ghost pred = part_with(key@);
    assert(ps == split_on(query@, '&'));
    let mut i: usize = 0;
    while i < parts.len()
        invariant
            i <= parts@.len(),
            ps == parts@.map_values(|v: Vec<char>| v@),
            ps == split_on(query@, '&'),
            k@ == key@,
            pred == part_with(key@),
            forall|j: int| 0 <= j < i ==> !pred(#[trigger] ps[j]),
        decreases parts@.len() - i,
    {
        assert(ps[i as int] == parts@[i as int]@);
        if starts_with_chars(&parts[i], &k) {
            proof {
                lemma_first_index_is(ps, pred, i as int);
            }
            let v = slice_chars(&parts[i], k.len(), parts[i].len());
            assert(v@ =~= ps[i as int].skip(key@.len() as int));
            return Some(string_from_chars(&v));
        }
        i = i + 1;
    }
    proof {
        lemma_first_index_is(ps, pred, i as int);
    }
    None
}

/// The `MaxItems` a list request asks for: the value of the first
/// `MaxItems=` argument as an `i32`, else 100 (also when it is no number).
pub open spec fn max_items(query: Option<Seq<char>>) -> int {
    match query {
        Some(q) => match query_value(q, "MaxItems="@) {
            Some(v) => match spec_parse_signed(v, i32::MIN as int, i32::MAX as int) {
                Some(n) => n,
                None => 100,
            },
            None => 100,
        },
        None => 100,
    }
}

/// A list request pages by 100 without a query or a `MaxItems` argument, or
/// when its value is no `i32`; else by the number the argument gives.
pub proof fn lemma_max_items_default(q: Seq<char>)
    ensures
        max_items(None) == 100,
        query_value(q, "MaxItems="@) is None ==> max_items(Some(q)) == 100,
        match query_value(q, "MaxItems="@) {
            Some(v) => match spec_parse_signed(v, i32::MIN as int, i32::MAX as int) {
                Some(n) => max_items(Some(q)) == n,
                None => max_items(Some(q)) == 100,
            },
            None => true,
        },
{
}

/// The `MaxItems` of a list request's query string (`None` without one).
pub fn query_max_items(query: Option<&str>) -> (r: i32)
    ensures
        r as int == max_items(
            match query {
                Some(q) => Some(q@),
                None => None,
            },
        ),
{
    match query {
        Some(q) => match find_query_value(q, "MaxItems=") {
            Some(v) => match parse_i32(v.as_str()) {
                Some(n) => n,
                None => 100,
            },
            None => 100,
        },
        None => 100,
    }
}

/// The resource ARN of a tagging request: the percent-decoded value of the
/// first `Resource=` argument of the query string (`None` without one);
/// without such an argument, `MissingArgument`.
pub fn query_resource(query: Option<&str>) -> (r: Result<String, CloudFrontError>)
    ensures
        match query_value(
            match query {
                Some(q) => q@,
                None => Seq::<char>::empty(),
            },
            "Resource="@,
        ) {
            Some(v) => r matches Ok(x) && x@ == lossy_text(percent_decoded(encode_utf8(v))),
            None => r matches Err(CloudFrontError::MissingArgument(m)) && m@
                == "Resource query parameter is required"@,
        },
{
    let q = match query {
        Some(q) => q,
        None => {
            proof {
                reveal_strlit("");
                assert(""@ =~= Seq::<char>::empty());
            }
            ""
        },
    };
    match find_query_value(q, "Resource=") {
        Some(v) => {
            Ok(percent_decode(v.as_str()))
        },
        None => Err(CloudFrontError::MissingArgument(own("Resource query parameter is required"))),
    }
}

// ---------------------------------------------------------------------------
// Base64 payloads
// ---------------------------------------------------------------------------

/// The bytes that standard base64 (with padding) decodes the input into,
/// or `None` when the input is not standard base64.
pub uninterp spec fn base64_standard(input: Seq<u8>) -> Option<Seq<u8>>;

/// Decode standard base64.
///
/// Trusted: `base64::engine::general_purpose::STANDARD.decode`, its error
/// taken as `None`.  Its result is named: a function of the input alone.
#[verifier::external_body]
fn base64_decode(s: &str) -> (r: Option<Vec<u8>>)
    ensures
        match base64_standard(encode_utf8(s@)) {
            Some(b) => r matches Some(x) && x@ == b,
            None => r is None,
        },
{
    base64::engine::general_purpose::STANDARD.decode(s).ok()
}

/// The bytes of a payload that is either standard base64 or plain text:
/// the decoded bytes when it decodes, else the text's own UTF-8 bytes.
pub fn base64_decode_or_raw(s: &str) -> (r: Vec<u8>)
    ensures
        r@ == match base64_standard(encode_utf8(s@)) {
            Some(b) => b,
            None => encode_utf8(s@),
        },
{
    match base64_decode(s) {
        Some(b) => b,
        None => vstd::slice::slice_to_vec(s.as_bytes()),
    }
}

} // verus!
