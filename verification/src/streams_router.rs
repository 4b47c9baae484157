//! DynamoDB Streams request routing.
//!
//! DynamoDB Streams uses the `awsJson1_0` protocol where all requests are
//! `POST /` with the operation named in the `X-Amz-Target` header, as in
//! `X-Amz-Target: DynamoDBStreams_20120810.DescribeStream`.

use vstd::prelude::*;
use crate::streams_model::{DynamoDBStreamsError, DynamoDBStreamsErrorCode, DynamoDBStreamsOperation};
use crate::text::{slice_chars, starts_with_chars, str_chars, string_from_chars};

verus! {

/// The HTTP header map of the `http` crate.
#[verifier::external_type_specification]
#[verifier::external_body]
#[verifier::reject_recursive_types(T)]
pub struct ExHeaderMap<T>(http::HeaderMap<T>);

/// A header value of the `http` crate.
#[verifier::external_type_specification]
#[verifier::external_body]
pub struct ExHeaderValue(http::HeaderValue);

/// What a header map holds: for each (lower-case) header name, its values in
/// insertion order, each as raw bytes.
pub uninterp spec fn header_values(headers: http::HeaderMap) -> Map<Seq<char>, Seq<Seq<u8>>>;

/// A byte that `HeaderValue::to_str` accepts: visible ASCII or a tab.
pub open spec fn visible_ascii(b: u8) -> bool {
    (32 <= b && b < 127) || b == 9
}

/// The characters of ASCII bytes.
pub open spec fn ascii_text(b: Seq<u8>) -> Seq<char> {
    b.map_values(|x: u8| x as char)
}

/// The first value of a header as text: `None` when the header is absent,
/// `Some(None)` when its first value holds a byte that is not visible ASCII.
pub open spec fn header_lookup(values: Map<Seq<char>, Seq<Seq<u8>>>, name: Seq<char>) -> Option<
    Option<Seq<char>>,
> {
    if values.contains_key(name) && values[name].len() > 0 {
        let b = values[name][0];
        if forall|i: int| 0 <= i < b.len() ==> visible_ascii(#[trigger] b[i]) {
            Some(Some(ascii_text(b)))
        } else {
            Some(None)
        }
    } else {
        None
    }
}

/// A header name as `HeaderMap` stores it: non-empty, lower-case letters,
/// digits and `-`.
pub open spec fn lower_header_name(name: Seq<char>) -> bool {
    &&& name.len() > 0
    &&& forall|i: int|
        0 <= i < name.len() ==> {
            let c = #[trigger] name[i];
            ('a' <= c && c <= 'z') || ('0' <= c && c <= '9') || c == '-'
        }
}

/// The first value of the named header, as text when it is visible ASCII.
///
/// Trusted: `HeaderMap::get` followed by `HeaderValue::to_str`.  `get` gives
/// the first value stored under the name; `to_str` succeeds exactly when
/// every byte is visible ASCII or a tab, and then yields those bytes as text.
#[verifier::external_body]
pub(crate) fn header_text(headers: &http::HeaderMap, name: &str) -> (r: Option<Option<String>>)
    requires
        lower_header_name(name@),
    ensures
        match r {
            None => header_lookup(header_values(*headers), name@) == None::<Option<Seq<char>>>,
            Some(None) => header_lookup(header_values(*headers), name@) == Some(
                None::<Seq<char>>,
            ),
            Some(Some(s)) => header_lookup(header_values(*headers), name@) == Some(Some(s@)),
        },
{
    match headers.get(name) {
        None => None,
        Some(v) => match v.to_str() {
            Ok(s) => Some(Some(s.to_owned())),
            Err(_) => Some(None),
        },
    }
}

/// The prefix of every `X-Amz-Target` value of this service.
pub open spec fn target_prefix() -> Seq<char> {
    "DynamoDBStreams_20120810."@
}

/// The operation named by an `X-Amz-Target` value, when it carries the
/// service prefix and a known operation name.
pub open spec fn target_operation(target: Seq<char>) -> Option<DynamoDBStreamsOperation> {
    let p = target_prefix();
    if p.len() <= target.len() && target.take(p.len() as int) == p {
        DynamoDBStreamsOperation::spec_from_name(target.skip(p.len() as int))
    } else {
        None
    }
}

/// A target is the prefix `DynamoDBStreams_20120810.` followed by an
/// operation's name, and names that operation; a target shorter than the
/// prefix names none.
pub proof fn lemma_target_operation(name: Seq<char>, target: Seq<char>)
    ensures
        target_prefix() == "DynamoDBStreams_20120810."@,
        target_operation("DynamoDBStreams_20120810."@ + name)
            == DynamoDBStreamsOperation::spec_from_name(name),
        target.len() < "DynamoDBStreams_20120810."@.len() ==> target_operation(target) is None,
{
    let p = "DynamoDBStreams_20120810."@;
    assert((p + name).take(p.len() as int) =~= p);
    assert((p + name).skip(p.len() as int) =~= name);
}

/// Resolves the operation of a request from its `X-Amz-Target` header.
///
/// A missing header, or one that is not visible ASCII, gives `MissingAction`;
/// a value without the service prefix or with an unknown operation name gives
/// `InvalidAction` naming the whole value.
pub fn resolve_operation(headers: &http::HeaderMap) -> (r: Result<
    DynamoDBStreamsOperation,
    DynamoDBStreamsError,
>)
    ensures
        match header_lookup(header_values(*headers), "x-amz-target"@) {
            Some(Some(target)) => match target_operation(target) {
                Some(op) => r == Ok::<DynamoDBStreamsOperation, DynamoDBStreamsError>(op),
                None => r matches Err(e) && e.code == DynamoDBStreamsErrorCode::InvalidAction
                    && e.message@ == "Operation "@ + target + " is not supported."@
                    && e.status_code == 400,
            },
            _ => r matches Err(e) && e.code == DynamoDBStreamsErrorCode::MissingAction
                && e.message@ == "Missing required header: X-Amz-Target"@ && e.status_code == 400,
        },
{
    proof {
        reveal_strlit("x-amz-target");
        assert("x-amz-target"@.len() == 12);
    }
    let target = match header_text(headers, "x-amz-target") {
        Some(Some(t)) => t,
        _ => {
            return Err(DynamoDBStreamsError::missing_action());
        },
    };
    let chars = str_chars(target.as_str());
    let prefix = str_chars("DynamoDBStreams_20120810.");
    if !starts_with_chars(&chars, &prefix) {
        return Err(DynamoDBStreamsError::unknown_operation(target.as_str()));
    }
    let rest = slice_chars(&chars, prefix.len(), chars.len());
    assert(rest@ =~= chars@.skip(prefix@.len() as int));
    let name = string_from_chars(&rest);
    match DynamoDBStreamsOperation::from_name(name.as_str()) {
        Some(op) => Ok(op),
        None => Err(DynamoDBStreamsError::unknown_operation(target.as_str())),
    }
}

/// The handler used when no provider is configured: every operation is
/// answered with `InvalidAction`.
#[derive(Debug, Clone, Copy, Default)]
pub struct NotImplementedHandler;

impl NotImplementedHandler {
    /// The error that answers `op`.
    pub fn handle_operation(&self, op: DynamoDBStreamsOperation) -> (e: DynamoDBStreamsError)
        ensures
            e.code == DynamoDBStreamsErrorCode::InvalidAction,
            e.message@ == "Operation "@ + op.name() + " is not supported."@,
            e.status_code == 400,
    {
        DynamoDBStreamsError::unknown_operation(op.as_str())
    }
}

} // verus!
