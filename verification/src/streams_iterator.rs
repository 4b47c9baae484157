//! Shard iterator tokens: `{stream_arn}|{shard_id}|{position}`, where the
//! position is the 0-based index into the shard's record log.

use vstd::prelude::*;
use crate::streams_model::{DynamoDBStreamsError, DynamoDBStreamsErrorCode};
use crate::text::{
    decimal, find_char, find_char_exec, is_digit, lemma_decimal_digits, lemma_find_char_after_prefix,
    parse_u64_chars, push_decimal, push_str_chars, slice_chars, spec_parse_u64, str_chars,
    string_from_chars,
};

verus! {

/// The token for a stream ARN, shard ID and position.
pub open spec fn spec_encode_iterator(stream_arn: Seq<char>, shard_id: Seq<char>, position: u64) -> Seq<char> {
    stream_arn + seq!['|'] + shard_id + seq!['|'] + decimal(position as nat)
}

/// The components of a token, split at its first two `|`, when the rest is a `u64`.
pub open spec fn spec_decode_iterator(token: Seq<char>) -> Option<(Seq<char>, Seq<char>, u64)> {
    let i = find_char(token, '|') as int;
    if i >= token.len() {
        None
    } else {
        let rest = token.skip(i + 1);
        let j = find_char(rest, '|') as int;
        if j >= rest.len() {
            None
        } else {
            match spec_parse_u64(rest.skip(j + 1)) {
                Some(p) => Some((token.take(i), rest.take(j), p)),
                None => None,
            }
        }
    }
}

/// The message of every error that decoding reports.
pub open spec fn expired_message() -> Seq<char> {
    "The shard iterator is expired or invalid."@
}

/// Encodes a shard iterator as an opaque token.
pub fn encode_iterator(stream_arn: &str, shard_id: &str, position: u64) -> (r: String)
    ensures
        r@ == spec_encode_iterator(stream_arn@, shard_id@, position),
{
    let mut out: Vec<char> = Vec::new();
    push_str_chars(&mut out, stream_arn);
    out.push('|');
    push_str_chars(&mut out, shard_id);
    out.push('|');
    push_decimal(&mut out, position);
    string_from_chars(&out)
}

/// The error for a malformed or unknown iterator.
pub fn expired_iterator_error() -> (e: DynamoDBStreamsError)
    ensures
        e.code == DynamoDBStreamsErrorCode::ExpiredIteratorException,
        e.message@ == expired_message(),
        e.status_code == 400,
{
    DynamoDBStreamsError::expired_iterator("The shard iterator is expired or invalid.".to_owned())
}

/// Decodes a shard iterator token into `(stream_arn, shard_id, position)`.
///
/// A token without two `|` separators, or whose position is not a `u64`,
/// gives `ExpiredIteratorException`.
pub fn decode_iterator(token: &str) -> (r: Result<(String, String, u64), DynamoDBStreamsError>)
    ensures
        match r {
            Ok((arn, shard, pos)) => spec_decode_iterator(token@) == Some((arn@, shard@, pos)),
            Err(e) => {
                &&& spec_decode_iterator(token@).is_none()
                &&& e.code == DynamoDBStreamsErrorCode::ExpiredIteratorException
                &&& e.message@ == expired_message()
                &&& e.status_code == 400
            },
        },
{
    let cs = str_chars(token);
    let i = find_char_exec(&cs, '|');
    if i >= cs.len() {
        return Err(expired_iterator_error());
    }
    let rest = slice_chars(&cs, i + 1, cs.len());
    assert(rest@ =~= cs@.skip(i + 1));
    let j = find_char_exec(&rest, '|');
    if j >= rest.len() {
        return Err(expired_iterator_error());
    }
    let pos_chars = slice_chars(&rest, j + 1, rest.len());
    assert(pos_chars@ =~= rest@.skip(j + 1));
    match parse_u64_chars(&pos_chars) {
        Some(p) => {
            let arn = slice_chars(&cs, 0, i);
            let shard = slice_chars(&rest, 0, j);
            assert(arn@ =~= cs@.take(i as int));
            assert(shard@ =~= rest@.take(j as int));
            Ok((string_from_chars(&arn), string_from_chars(&shard), p))
        },
        None => Err(expired_iterator_error()),
    }
}

/// Decoding the token of an ARN and shard ID that hold no `|` gives them back
/// with the same position.
pub proof fn lemma_iterator_roundtrip(stream_arn: Seq<char>, shard_id: Seq<char>, position: u64)
    requires
        !stream_arn.contains('|'),
        !shard_id.contains('|'),
    ensures
        spec_decode_iterator(spec_encode_iterator(stream_arn, shard_id, position)) == Some(
            (stream_arn, shard_id, position),
        ),
{
    let d = decimal(position as nat);
    let t = spec_encode_iterator(stream_arn, shard_id, position);
    let rest = shard_id + seq!['|'] + d;
    assert(t =~= stream_arn + seq!['|'] + rest);
    lemma_find_char_after_prefix(stream_arn, '|', rest);
    let i = stream_arn.len() as int;
    assert(t.take(i) =~= stream_arn);
    assert(t.skip(i + 1) =~= rest);
    lemma_find_char_after_prefix(shard_id, '|', d);
    let j = shard_id.len() as int;
    assert(rest.take(j) =~= shard_id);
    assert(rest.skip(j + 1) =~= d);
    lemma_decimal_digits(position as nat);
    assert(is_digit(d[0]));
}

} // verus!
