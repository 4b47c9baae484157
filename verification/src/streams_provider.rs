//! The DynamoDB Streams API: DescribeStream, ListStreams, GetShardIterator and
//! GetRecords over the stream store.

use vstd::prelude::*;
use vstd::multiset::Multiset;
use crate::dynamodb_stream::AttributeValue as TableAttributeValue;
use crate::seqs::{first_index, lemma_first_index_is, lemma_first_index_props};
use crate::streams_config::DynamoDBStreamsConfig;
use crate::streams_iterator::{
    decode_iterator, encode_iterator, expired_iterator_error, expired_message,
    lemma_iterator_roundtrip,
    spec_decode_iterator, spec_encode_iterator,
};
use crate::streams_model::{
    AttributeValue, DescribeStreamInput, DescribeStreamOutput, DynamoDBStreamsError,
    DynamoDBStreamsErrorCode, GetRecordsInput, GetRecordsOutput, GetShardIteratorInput,
    GetShardIteratorOutput, KeySchemaElement, ListStreamsInput, ListStreamsOutput, OperationType,
    Record, SequenceNumberRange, Shard, ShardIteratorType, Stream, StreamDescription, StreamRecord,
    StreamStatus,
};
use crate::streams_store::{
    arn_index, copy_opt_string, listed, opt_view, sequence_string, streams_wf, with_arn, ShardRecord, StreamChangeRecord, StreamStore,
    StreamSummary, TableStream,
};
use crate::streams_config::opt_string_view;
use crate::text::{
    lemma_lex_asymmetric, lemma_lex_total, lemma_lex_transitive, lemma_padded_decimal_injective, lex_le, lex_less, lex_lt, own, push_str_chars, str_chars,
    str_eq, string_from_chars,
};

verus! {

/// A copy of a byte vector.
pub fn copy_bytes(v: &Vec<u8>) -> (r: Vec<u8>)
    ensures
        r@ == v@,
{
    let mut out: Vec<u8> = Vec::new();
    let mut i: usize = 0;
    while i < v.len()
        invariant
            i <= v.len(),
            out@ == v@.take(i as int),
        decreases v.len() - i,
    {
        out.push(v[i]);
        assert(v@.take(i + 1) =~= v@.take(i as int).push(v@[i as int]));
        i = i + 1;
    }
    assert(v@.take(v.len() as int) =~= v@);
    out
}

/// A copy of a vector of strings.
pub fn copy_strings(v: &Vec<String>) -> (r: Vec<String>)
    ensures
        r@ == v@,
{
    let mut out: Vec<String> = Vec::new();
    let mut i: usize = 0;
    while i < v.len()
        invariant
            i <= v.len(),
            out@ == v@.take(i as int),
        decreases v.len() - i,
    {
        out.push(v[i].clone());
        assert(v@.take(i + 1) =~= v@.take(i as int).push(v@[i as int]));
        i = i + 1;
    }
    assert(v@.take(v.len() as int) =~= v@);
    out
}

/// A copy of a vector of byte vectors.
pub fn copy_byte_lists(v: &Vec<Vec<u8>>) -> (r: Vec<Vec<u8>>)
    ensures
        r.deep_view() == v.deep_view(),
{
    let mut out: Vec<Vec<u8>> = Vec::new();
    let mut i: usize = 0;
    while i < v.len()
        invariant
            i <= v.len(),
            out@.len() == i,
            forall|k: int| 0 <= k < i ==> (#[trigger] out@[k])@ == v@[k]@,
        decreases v.len() - i,
    {
        out.push(copy_bytes(&v[i]));
        i = i + 1;
    }
    assert(out.deep_view() =~= v.deep_view());
    out
}

/// Every member of `r` other than `f` is unset.
pub open spec fn only_member(r: AttributeValue, f: Seq<char>) -> bool {
    &&& (f != "ns"@ ==> r.ns.is_none())
    &&& (f != "null"@ ==> r.null.is_none())
    &&& (f != "b"@ ==> r.b.is_none())
    &&& (f != "bool"@ ==> r.bool.is_none())
    &&& (f != "l"@ ==> r.l.is_none())
    &&& (f != "bs"@ ==> r.bs.is_none())
    &&& (f != "ss"@ ==> r.ss.is_none())
    &&& (f != "s"@ ==> r.s.is_none())
    &&& (f != "m"@ ==> r.m.is_none())
    &&& (f != "n"@ ==> r.n.is_none())
}

/// `r` is the stream-side form of the table-side value `v`: the member of
/// `v`'s kind is set (lists and maps converted element by element, names kept)
/// and every other member is unset.
pub open spec fn value_converted(v: TableAttributeValue, r: AttributeValue) -> bool
    decreases v,
{
    match v {
        TableAttributeValue::S(x) => r.s == Some(x) && only_member(r, "s"@),
        TableAttributeValue::N(x) => r.n == Some(x) && only_member(r, "n"@),
        TableAttributeValue::B(x) => r.b.is_some() && r.b.unwrap()@ == x@ && only_member(r, "b"@),
        TableAttributeValue::Ss(x) => r.ss.is_some() && r.ss.unwrap()@ == x@ && only_member(r, "ss"@),
        TableAttributeValue::Ns(x) => r.ns.is_some() && r.ns.unwrap()@ == x@ && only_member(r, "ns"@),
        TableAttributeValue::Bs(x) => r.bs.is_some() && r.bs.unwrap().deep_view() == x.deep_view() && only_member(r, "bs"@),
        TableAttributeValue::Bool(x) => r.bool == Some(x) && only_member(r, "bool"@),
        TableAttributeValue::Null(x) => r.null == Some(x) && only_member(r, "null"@),
        TableAttributeValue::L(items) => {
            &&& r.l.is_some()
            &&& r.l.unwrap()@.len() == items@.len()
            &&& forall|i: int|
                0 <= i < items@.len() ==> value_converted(items@[i], #[trigger] r.l.unwrap()@[i])
            &&& only_member(r, "l"@)
        },
        TableAttributeValue::M(members) => {
            &&& r.m.is_some()
            &&& r.m.unwrap()@.len() == members@.len()
            &&& forall|i: int|
                0 <= i < members@.len() ==> {
                    &&& (#[trigger] r.m.unwrap()@[i]).0 == members@[i].0
                    &&& value_converted(members@[i].1, r.m.unwrap()@[i].1)
                }
            &&& only_member(r, "m"@)
        },
    }
}

/// Converts a table-side attribute value to its stream-side form.
pub fn convert_attribute_value(val: &TableAttributeValue) -> (r: AttributeValue)
    ensures
        value_converted(*val, r),
    decreases val,
{
    proof {
        reveal_strlit("ns");
        reveal_strlit("null");
        reveal_strlit("b");
        reveal_strlit("bool");
        reveal_strlit("l");
        reveal_strlit("bs");
        reveal_strlit("ss");
        reveal_strlit("s");
        reveal_strlit("m");
        reveal_strlit("n");
    }
    match val {
        TableAttributeValue::S(x) => AttributeValue {
                ns: None,
                null: None,
                b: None,
                bool: None,
                l: None,
                bs: None,
                ss: None,
                s: Some(x.clone()),
                m: None,
                n: None,
            },
        TableAttributeValue::N(x) => AttributeValue {
                ns: None,
                null: None,
                b: None,
                bool: None,
                l: None,
                bs: None,
                ss: None,
                s: None,
                m: None,
                n: Some(x.clone()),
            },
        TableAttributeValue::B(x) => AttributeValue {
                ns: None,
                null: None,
                b: Some(copy_bytes(x)),
                bool: None,
                l: None,
                bs: None,
                ss: None,
                s: None,
                m: None,
                n: None,
            },
        TableAttributeValue::Ss(x) => AttributeValue {
                ns: None,
                null: None,
                b: None,
                bool: None,
                l: None,
                bs: None,
                ss: Some(copy_strings(x)),
                s: None,
                m: None,
                n: None,
            },
        TableAttributeValue::Ns(x) => AttributeValue {
                ns: Some(copy_strings(x)),
                null: None,
                b: None,
                bool: None,
                l: None,
                bs: None,
                ss: None,
                s: None,
                m: None,
                n: None,
            },
        TableAttributeValue::Bs(x) => AttributeValue {
                ns: None,
                null: None,
                b: None,
                bool: None,
                l: None,
                bs: Some(copy_byte_lists(x)),
                ss: None,
                s: None,
                m: None,
                n: None,
            },
        TableAttributeValue::Bool(x) => AttributeValue {
                ns: None,
                null: None,
                b: None,
                bool: Some(*x),
                l: None,
                bs: None,
                ss: None,
                s: None,
                m: None,
                n: None,
            },
        TableAttributeValue::Null(x) => AttributeValue {
                ns: None,
                null: Some(*x),
                b: None,
                bool: None,
                l: None,
                bs: None,
                ss: None,
                s: None,
                m: None,
                n: None,
            },
        TableAttributeValue::L(items) => {
            let mut out: Vec<AttributeValue> = Vec::new();
            let mut i: usize = 0;
            while i < items.len()
                invariant
                    i <= items.len(),
                    *val is L && val->L_0 == *items,
                    out@.len() == i,
                    forall|k: int| 0 <= k < i ==> value_converted(items@[k], #[trigger] out@[k]),
                decreases items.len() - i,
            {
                proof {
                    assert(decreases_to!(*val => val->L_0));
                    assert(decreases_to!(val->L_0 => val->L_0@));
                    assert(decreases_to!(val->L_0@ => val->L_0@[i as int]));
                }
                let c = convert_attribute_value(&items[i]);
                out.push(c);
                i = i + 1;
            }
            AttributeValue {
                ns: None,
                null: None,
                b: None,
                bool: None,
                l: Some(out),
                bs: None,
                ss: None,
                s: None,
                m: None,
                n: None,
            }
        },
        TableAttributeValue::M(members) => {
            let mut out: Vec<(String, AttributeValue)> = Vec::new();
            let mut i: usize = 0;
            while i < members.len()
                invariant
                    i <= members.len(),
                    *val is M && val->M_0 == *members,
                    out@.len() == i,
                    forall|k: int|
                        0 <= k < i ==> {
                            &&& (#[trigger] out@[k]).0 == members@[k].0
                            &&& value_converted(members@[k].1, out@[k].1)
                        },
                decreases members.len() - i,
            {
                proof {
                    assert(decreases_to!(*val => val->M_0));
                    assert(decreases_to!(val->M_0 => val->M_0@));
                    assert(decreases_to!(val->M_0@ => val->M_0@[i as int]));
                    assert(decreases_to!(val->M_0@[i as int] => val->M_0@[i as int].1));
                }
                let c = convert_attribute_value(&members[i].1);
                out.push((members[i].0.clone(), c));
                i = i + 1;
            }
            AttributeValue {
                ns: None,
                null: None,
                b: None,
                bool: None,
                l: None,
                bs: None,
                ss: None,
                s: None,
                m: Some(out),
                n: None,
            }
        },
    }
}

/// `r` is the stream-side form of the attribute map `m`, member by member.
pub open spec fn map_converted(
    m: Seq<(String, TableAttributeValue)>,
    r: Seq<(String, AttributeValue)>,
) -> bool {
    &&& r.len() == m.len()
    &&& forall|i: int|
        0 <= i < m.len() ==> {
            &&& (#[trigger] r[i]).0 == m[i].0
            &&& value_converted(m[i].1, r[i].1)
        }
}

/// Converts an attribute map to its stream-side form.
pub fn convert_attribute_map(map: &Vec<(String, TableAttributeValue)>) -> (r: Vec<
    (String, AttributeValue),
>)
    ensures
        map_converted(map@, r@),
{
    let mut out: Vec<(String, AttributeValue)> = Vec::new();
    let mut i: usize = 0;
    while i < map.len()
        invariant
            i <= map.len(),
            out@.len() == i,
            forall|k: int|
                0 <= k < i ==> {
                    &&& (#[trigger] out@[k]).0 == map@[k].0
                    &&& value_converted(map@[k].1, out@[k].1)
                },
        decreases map.len() - i,
    {
        let c = convert_attribute_value(&map[i].1);
        out.push((map[i].0.clone(), c));
        i = i + 1;
    }
    out
}

/// The operation type named by a record's event name: `MODIFY` and `REMOVE`
/// name themselves, anything else is an insert.
pub open spec fn operation_of(event_name: Seq<char>) -> OperationType {
    if event_name == "MODIFY"@ {
        OperationType::Modify
    } else if event_name == "REMOVE"@ {
        OperationType::Remove
    } else {
        OperationType::Insert
    }
}

/// `r` is the stream-side form of an optional image: converted when present,
/// empty when absent.
pub open spec fn image_converted(
    image: Option<Vec<(String, TableAttributeValue)>>,
    r: Seq<(String, AttributeValue)>,
) -> bool {
    match image {
        Some(m) => map_converted(m@, r),
        None => r.len() == 0,
    }
}

/// `out` is the API form of the stored change record `rec`.
pub open spec fn record_converted(out: Record, rec: StreamChangeRecord) -> bool {
    &&& out.event_id == Some(rec.event_id)
    &&& out.event_name == Some(operation_of(rec.event_name@))
    &&& out.event_version == Some(rec.event_version)
    &&& out.event_source == Some(rec.event_source)
    &&& out.aws_region == Some(rec.aws_region)
    &&& out.user_identity.is_none()
    &&& out.dynamodb.is_some()
    &&& {
        let d = out.dynamodb.unwrap();
        &&& map_converted(rec.dynamodb.keys@, d.keys@)
        &&& image_converted(rec.dynamodb.new_image, d.new_image@)
        &&& image_converted(rec.dynamodb.old_image, d.old_image@)
        &&& d.sequence_number == rec.dynamodb.sequence_number
        &&& d.size_bytes == Some(rec.dynamodb.size_bytes as i64)
        &&& d.stream_view_type == Some(rec.dynamodb.stream_view_type)
        &&& d.approximate_creation_date_time == Some(
            rec.dynamodb.approximate_creation_date_time,
        )
    }
}

fn convert_image(image: &Option<Vec<(String, TableAttributeValue)>>) -> (r: Vec<
    (String, AttributeValue),
>)
    ensures
        image_converted(*image, r@),
{
    match image {
        Some(m) => convert_attribute_map(m),
        None => Vec::new(),
    }
}

fn size_as_i64(size: u64) -> (r: i64)
    ensures
        r == size as i64,
{
    #[verifier::truncate]
    (size as i64)
}

/// The event name of a returned record is the operation its stored event
/// name names: `INSERT`, `MODIFY` and `REMOVE` give `Insert`, `Modify` and
/// `Remove`.
pub proof fn lemma_event_names_give_operations(out: Record, rec: StreamChangeRecord)
    requires
        record_converted(out, rec),
    ensures
        rec.event_name@ == "INSERT"@ ==> out.event_name == Some(OperationType::Insert),
        rec.event_name@ == "MODIFY"@ ==> out.event_name == Some(OperationType::Modify),
        rec.event_name@ == "REMOVE"@ ==> out.event_name == Some(OperationType::Remove),
{
    reveal_strlit("INSERT");
    reveal_strlit("MODIFY");
    reveal_strlit("REMOVE");
    assert("INSERT"@ != "MODIFY"@ && "INSERT"@ != "REMOVE"@) by {
        assert("INSERT"@[0] != "MODIFY"@[0] && "INSERT"@[0] != "REMOVE"@[0]);
    }
    assert("REMOVE"@ != "MODIFY"@) by {
        assert("REMOVE"@[0] != "MODIFY"@[0]);
    }
}

/// Converts a stored change record to the API `Record` type.
pub fn record_to_output(record: &StreamChangeRecord) -> (r: Record)
    ensures
        record_converted(r, *record),
{
    let event_name = if str_eq(record.event_name.as_str(), "MODIFY") {
        OperationType::Modify
    } else if str_eq(record.event_name.as_str(), "REMOVE") {
        OperationType::Remove
    } else {
        OperationType::Insert
    };
    Record {
        event_id: Some(record.event_id.clone()),
        event_name: Some(event_name),
        event_version: Some(record.event_version.clone()),
        event_source: Some(record.event_source.clone()),
        aws_region: Some(record.aws_region.clone()),
        dynamodb: Some(
            StreamRecord {
                keys: convert_attribute_map(&record.dynamodb.keys),
                new_image: convert_image(&record.dynamodb.new_image),
                old_image: convert_image(&record.dynamodb.old_image),
                sequence_number: copy_opt_string(&record.dynamodb.sequence_number),
                size_bytes: Some(size_as_i64(record.dynamodb.size_bytes)),
                stream_view_type: Some(record.dynamodb.stream_view_type),
                approximate_creation_date_time: Some(
                    record.dynamodb.approximate_creation_date_time,
                ),
            },
        ),
        user_identity: None,
    }
}

// ---------------------------------------------------------------------------
// The provider
// ---------------------------------------------------------------------------

/// The message of `ResourceNotFoundException` for an unknown stream.
pub open spec fn stream_not_found_message(stream_arn: Seq<char>) -> Seq<char> {
    "Requested resource not found: Stream: "@ + stream_arn + " not found"@
}

/// The message of `ResourceNotFoundException` for an unknown shard.
pub open spec fn shard_not_found_message(shard_id: Seq<char>, stream_arn: Seq<char>) -> Seq<char> {
    "Requested resource not found: Shard: "@ + shard_id + " in Stream: "@ + stream_arn
        + " not found"@
}

/// The message of `TrimmedDataAccessException` for an unknown sequence number.
pub open spec fn trimmed_message() -> Seq<char> {
    "The requested sequence number is beyond the trim horizon."@
}

/// `e` is the error with this code and message.
pub open spec fn is_error(e: DynamoDBStreamsError, code: DynamoDBStreamsErrorCode, message: Seq<char>) -> bool {
    &&& e.code == code
    &&& e.message@ == message
    &&& e.status_code == code.status()
}

/// `d` describes the shard `s`.
pub open spec fn shard_described(d: Shard, s: ShardRecord) -> bool {
    &&& d.shard_id == Some(s.shard_id)
    &&& d.parent_shard_id == s.parent_shard_id
    &&& d.sequence_number_range == Some(
        SequenceNumberRange {
            starting_sequence_number: s.starting_sequence_number,
            ending_sequence_number: s.ending_sequence_number,
        },
    )
}

/// `d` describes the stream `t`; its shard is listed unless it is the shard to
/// start after.
pub open spec fn stream_described(
    d: StreamDescription,
    t: TableStream,
    exclusive_start_shard_id: Option<String>,
) -> bool {
    &&& d.stream_arn == Some(t.stream_arn)
    &&& d.stream_label == Some(t.stream_label)
    &&& d.stream_status == Some(t.stream_status)
    &&& d.stream_view_type == Some(t.stream_view_type)
    &&& d.table_name == Some(t.table_name)
    &&& d.key_schema@ == t.key_schema@
    &&& d.creation_request_date_time.is_none()
    &&& d.last_evaluated_shard_id.is_none()
    &&& if exclusive_start_shard_id matches Some(id) && id@ == t.shard.shard_id@ {
        d.shards@.len() == 0
    } else {
        d.shards@.len() == 1 && shard_described(d.shards@[0], t.shard)
    }
}

/// Selects the records that carry the given sequence number.
pub open spec fn has_sequence(sequence_number: Seq<char>) -> spec_fn(StreamChangeRecord) -> bool {
    |r: StreamChangeRecord|
        r.dynamodb.sequence_number.is_some() && r.dynamodb.sequence_number.unwrap()@
            == sequence_number
}

/// Position of the first record with the given sequence number (or the count of records).
pub open spec fn sequence_position(records: Seq<StreamChangeRecord>, sequence_number: Seq<char>) -> int {
    first_index(records, has_sequence(sequence_number)) as int
}

/// The outcome of GetShardIterator on the streams `s`: the iterator token's
/// text, or the error's code and message.
pub open spec fn shard_iterator_outcome(
    s: Seq<TableStream>,
    input: GetShardIteratorInput,
) -> Result<Seq<char>, (DynamoDBStreamsErrorCode, Seq<char>)> {
    let arn = input.stream_arn@;
    let sid = input.shard_id@;
    let k = arn_index(s, arn);
    if k >= s.len() {
        Err((DynamoDBStreamsErrorCode::ResourceNotFoundException, stream_not_found_message(arn)))
    } else if s[k].shard.shard_id@ != sid {
        Err(
            (
                DynamoDBStreamsErrorCode::ResourceNotFoundException,
                shard_not_found_message(sid, arn),
            ),
        )
    } else {
        let records = s[k].shard.records@;
        match input.shard_iterator_type {
            ShardIteratorType::TrimHorizon => Ok(spec_encode_iterator(arn, sid, 0)),
            ShardIteratorType::Latest => Ok(spec_encode_iterator(arn, sid, records.len() as u64)),
            ShardIteratorType::AtSequenceNumber => match input.sequence_number {
                None => Err(
                    (
                        DynamoDBStreamsErrorCode::ValidationException,
                        "SequenceNumber is required for AT_SEQUENCE_NUMBER"@,
                    ),
                ),
                Some(q) => {
                    let p = sequence_position(records, q@);
                    if p >= records.len() {
                        Err((DynamoDBStreamsErrorCode::TrimmedDataAccessException, trimmed_message()))
                    } else {
                        Ok(spec_encode_iterator(arn, sid, p as u64))
                    }
                },
            },
            ShardIteratorType::AfterSequenceNumber => match input.sequence_number {
                None => Err(
                    (
                        DynamoDBStreamsErrorCode::ValidationException,
                        "SequenceNumber is required for AFTER_SEQUENCE_NUMBER"@,
                    ),
                ),
                Some(q) => {
                    let p = sequence_position(records, q@);
                    if p >= records.len() {
                        Err((DynamoDBStreamsErrorCode::TrimmedDataAccessException, trimmed_message()))
                    } else {
                        Ok(spec_encode_iterator(arn, sid, (p + 1) as u64))
                    }
                },
            },
        }
    }
}

/// The number of records GetRecords reads at most: 1000 when no limit is
/// given, else the limit taken as a `usize` and clamped to `1..=1000` (so a
/// negative limit, which wraps to a huge `usize`, reads 1000).
pub open spec fn records_limit(limit: Option<i32>) -> int {
    match limit {
        None => 1000,
        Some(l) => if l < 0 {
            1000
        } else if l < 1 {
            1
        } else if l > 1000 {
            1000
        } else {
            l as int
        },
    }
}

/// The stream and shard a token points into, when it decodes and both exist.
pub open spec fn token_target(s: Seq<TableStream>, token: Seq<char>) -> Option<(int, u64)> {
    match spec_decode_iterator(token) {
        Some((arn, sid, pos)) => {
            let k = arn_index(s, arn);
            if k < s.len() && s[k].shard.shard_id@ == sid {
                Some((k, pos))
            } else {
                None
            }
        },
        None => None,
    }
}

/// A token that points into a shard points at or before its end (GetRecords
/// answers a token past the end as expired).
pub open spec fn token_in_range(s: Seq<TableStream>, token: Seq<char>) -> bool {
    match token_target(s, token) {
        Some((k, pos)) => pos <= s[k].shard.records@.len(),
        None => true,
    }
}

/// `out` is the GetRecords answer on the streams `s` for a token pointing at
/// position `pos` of the shard of stream `k`, reading at most `limit` records.
pub open spec fn records_read(out: GetRecordsOutput, s: Seq<TableStream>, k: int, pos: int, limit: int) -> bool {
    let t = s[k];
    let n = t.shard.records@.len() as int;
    let end = if pos + limit < n {
        pos + limit
    } else {
        n
    };
    &&& out.records@.len() == end - pos
    &&& forall|i: int|
        0 <= i < end - pos ==> record_converted(
            #[trigger] out.records@[i],
            t.shard.records@[pos + i],
        )
    &&& if t.stream_status == StreamStatus::Disabled && end >= n {
        out.next_shard_iterator.is_none()
    } else {
        &&& out.next_shard_iterator.is_some()
        &&& out.next_shard_iterator.unwrap()@ == spec_encode_iterator(
            t.stream_arn@,
            t.shard.shard_id@,
            end as u64,
        )
    }
}

/// The main DynamoDB Streams provider implementing all four operations.
#[derive(Debug)]
pub struct RustackDynamoDBStreams {
    /// Stream storage.
    pub store: StreamStore,
    /// Configuration.
    pub config: DynamoDBStreamsConfig,
}

/// A copy of a key schema.
pub fn copy_key_schema(key_schema: &Vec<KeySchemaElement>) -> (r: Vec<KeySchemaElement>)
    ensures
        r@ == key_schema@,
{
    let mut out: Vec<KeySchemaElement> = Vec::new();
    let mut i: usize = 0;
    while i < key_schema.len()
        invariant
            i <= key_schema.len(),
            out@ == key_schema@.take(i as int),
        decreases key_schema.len() - i,
    {
        let e = &key_schema[i];
        out.push(
            KeySchemaElement { attribute_name: e.attribute_name.clone(), key_type: e.key_type },
        );
        assert(key_schema@.take(i + 1) =~= key_schema@.take(i as int).push(key_schema@[i as int]));
        i = i + 1;
    }
    assert(key_schema@.take(key_schema.len() as int) =~= key_schema@);
    out
}

fn message_of(parts: &Vec<char>) -> (r: String)
    ensures
        r@ == parts@,
{
    string_from_chars(parts)
}

/// Position of the first record carrying the sequence number; the error is
/// `TrimmedDataAccessException` when none does.
pub fn find_sequence_position(records: &Vec<StreamChangeRecord>, sequence_number: &str) -> (r: Result<u64, DynamoDBStreamsError>)
    ensures
        match r {
            Ok(p) => p == sequence_position(records@, sequence_number@) && p < records@.len(),
            Err(e) => {
                &&& sequence_position(records@, sequence_number@) == records@.len()
                &&& is_error(e, DynamoDBStreamsErrorCode::TrimmedDataAccessException, trimmed_message())
            },
        },
{
    let ghost pred = has_sequence(sequence_number@);
    let mut i: usize = 0;
    while i < records.len()
        invariant
            i <= records.len(),
            pred == has_sequence(sequence_number@),
            forall|k: int| 0 <= k < i ==> !pred(#[trigger] records@[k]),
        decreases records.len() - i,
    {
        let hit = match &records[i].dynamodb.sequence_number {
            Some(sn) => str_eq(sn.as_str(), sequence_number),
            None => false,
        };
        if hit {
            proof {
                lemma_first_index_is(records@, pred, i as int);
            }
            return Ok(i as u64);
        }
        i = i + 1;
    }
    proof {
        lemma_first_index_is(records@, pred, i as int);
    }
    Err(
        DynamoDBStreamsError::trimmed_data_access(
            own("The requested sequence number is beyond the trim horizon."),
        ),
    )
}

impl RustackDynamoDBStreams {
    /// Create a new DynamoDB Streams provider.
    pub fn new(store: StreamStore, config: DynamoDBStreamsConfig) -> (r: Self)
        ensures
            r.store == store,
            r.config == config,
    {
        RustackDynamoDBStreams { store, config }
    }

    /// Handle `DescribeStream`: the stream with the given ARN and its shard.
    ///
    /// Returns `ResourceNotFoundException` if the stream ARN is not found.
    pub fn handle_describe_stream(&self, input: DescribeStreamInput) -> (r: Result<
        DescribeStreamOutput,
        DynamoDBStreamsError,
    >)
        ensures
            ({
                let s = self.store@;
                let k = arn_index(s, input.stream_arn@);
                match r {
                    Ok(out) => {
                        &&& k < s.len()
                        &&& out.stream_description.is_some()
                        &&& stream_described(
                            out.stream_description.unwrap(),
                            s[k],
                            input.exclusive_start_shard_id,
                        )
                    },
                    Err(e) => {
                        &&& k >= s.len()
                        &&& is_error(
                            e,
                            DynamoDBStreamsErrorCode::ResourceNotFoundException,
                            stream_not_found_message(input.stream_arn@),
                        )
                    },
                }
            }),
    {
        let stream = match self.store.get_stream_by_arn(input.stream_arn.as_str()) {
            Some(t) => t,
            None => {
                let mut m: Vec<char> = Vec::new();
                push_str_chars(&mut m, "Requested resource not found: Stream: ");
                push_str_chars(&mut m, input.stream_arn.as_str());
                push_str_chars(&mut m, " not found");
                return Err(DynamoDBStreamsError::resource_not_found(message_of(&m)));
            },
        };
        let shard = &stream.shard;
        let skip = match &input.exclusive_start_shard_id {
            Some(id) => str_eq(id.as_str(), shard.shard_id.as_str()),
            None => false,
        };
        let mut shards: Vec<Shard> = Vec::new();
        if !skip {
            shards.push(
                Shard {
                    shard_id: Some(shard.shard_id.clone()),
                    parent_shard_id: copy_opt_string(&shard.parent_shard_id),
                    sequence_number_range: Some(
                        SequenceNumberRange {
                            starting_sequence_number: copy_opt_string(
                                &shard.starting_sequence_number,
                            ),
                            ending_sequence_number: copy_opt_string(&shard.ending_sequence_number),
                        },
                    ),
                },
            );
        }
        let description = StreamDescription {
            stream_arn: Some(stream.stream_arn.clone()),
            stream_label: Some(stream.stream_label.clone()),
            stream_status: Some(stream.stream_status),
            stream_view_type: Some(stream.stream_view_type),
            table_name: Some(stream.table_name.clone()),
            key_schema: copy_key_schema(&stream.key_schema),
            shards,
            creation_request_date_time: None,
            last_evaluated_shard_id: None,
        };
        Ok(DescribeStreamOutput { stream_description: Some(description) })
    }

    /// Handle `GetShardIterator`: a token for a position in the stream's shard.
    ///
    /// Returns `ResourceNotFoundException` if the stream or shard is not found,
    /// `ValidationException` if a sequence number is needed and missing, and
    /// `TrimmedDataAccessException` if no record carries the sequence number.
    pub fn handle_get_shard_iterator(&self, input: GetShardIteratorInput) -> (r: Result<
        GetShardIteratorOutput,
        DynamoDBStreamsError,
    >)
        ensures
            match shard_iterator_outcome(self.store@, input) {
                Ok(token) => r matches Ok(out) && out.shard_iterator.is_some()
                    && out.shard_iterator.unwrap()@ == token,
                Err((code, message)) => r matches Err(e) && is_error(e, code, message),
            },
    {
        let ghost s = self.store@;
        let stream_arn = input.stream_arn.as_str();
        let shard_id = input.shard_id.as_str();
        let stream = match self.store.get_stream_by_arn(stream_arn) {
            Some(t) => t,
            None => {
                let mut m: Vec<char> = Vec::new();
                push_str_chars(&mut m, "Requested resource not found: Stream: ");
                push_str_chars(&mut m, stream_arn);
                push_str_chars(&mut m, " not found");
                return Err(DynamoDBStreamsError::resource_not_found(message_of(&m)));
            },
        };
        let shard = &stream.shard;
        if !str_eq(shard.shard_id.as_str(), shard_id) {
            let mut m: Vec<char> = Vec::new();
            push_str_chars(&mut m, "Requested resource not found: Shard: ");
            push_str_chars(&mut m, shard_id);
            push_str_chars(&mut m, " in Stream: ");
            push_str_chars(&mut m, stream_arn);
            push_str_chars(&mut m, " not found");
            return Err(DynamoDBStreamsError::resource_not_found(message_of(&m)));
        }
        let record_count = shard.records.len();
        let position: u64 = match input.shard_iterator_type {
            ShardIteratorType::TrimHorizon => 0,
            ShardIteratorType::Latest => shard.records.len() as u64,
            ShardIteratorType::AtSequenceNumber => match &input.sequence_number {
                None => {
                    return Err(
                        DynamoDBStreamsError::validation(
                            own("SequenceNumber is required for AT_SEQUENCE_NUMBER"),
                        ),
                    );
                },
                Some(q) => match find_sequence_position(&shard.records, q.as_str()) {
                    Ok(p) => p,
                    Err(e) => {
                        return Err(e);
                    },
                },
            },
            ShardIteratorType::AfterSequenceNumber => match &input.sequence_number {
                None => {
                    return Err(
                        DynamoDBStreamsError::validation(
                            own("SequenceNumber is required for AFTER_SEQUENCE_NUMBER"),
                        ),
                    );
                },
                Some(q) => match find_sequence_position(&shard.records, q.as_str()) {
                    Ok(p) => {
                        assert(p < record_count);
                        p + 1
                    },
                    Err(e) => {
                        return Err(e);
                    },
                },
            },
        };
        let token = encode_iterator(stream_arn, shard_id, position);
        Ok(GetShardIteratorOutput { shard_iterator: Some(token) })
    }

    /// Handle `GetRecords`: up to `limit` records from the token's position,
    /// and the token for the position after them (none once a disabled
    /// stream's shard is read to its end).
    ///
    /// Returns `ExpiredIteratorException` if the shard iterator is malformed,
    /// points to an unknown stream or shard, or points past the shard's end.
    pub fn handle_get_records(&self, input: GetRecordsInput) -> (r: Result<
        GetRecordsOutput,
        DynamoDBStreamsError,
    >)
        ensures
            match token_target(self.store@, input.shard_iterator@) {
                Some((k, pos)) => if pos <= self.store@[k].shard.records@.len() {
                    r matches Ok(out) && records_read(
                        out,
                        self.store@,
                        k,
                        pos as int,
                        records_limit(input.limit),
                    )
                } else {
                    r matches Err(e) && is_error(
                        e,
                        DynamoDBStreamsErrorCode::ExpiredIteratorException,
                        expired_message(),
                    )
                },
                None => r matches Err(e) && is_error(
                    e,
                    DynamoDBStreamsErrorCode::ExpiredIteratorException,
                    expired_message(),
                ),
            },
    {
        let ghost s = self.store@;
        let (stream_arn, shard_id, position) = match decode_iterator(input.shard_iterator.as_str()) {
            Ok(d) => d,
            Err(e) => {
                return Err(e);
            },
        };
        let stream = match self.store.get_stream_by_arn(stream_arn.as_str()) {
            Some(t) => t,
            None => {
                return Err(expired_iterator_error());
            },
        };
        let shard = &stream.shard;
        if !str_eq(shard.shard_id.as_str(), shard_id.as_str()) {
            return Err(expired_iterator_error());
        }
        let limit: usize = match input.limit {
            None => 1000,
            Some(l) => if l < 0 {
                1000
            } else if l < 1 {
                1
            } else if l > 1000 {
                1000
            } else {
                l as usize
            },
        };
        let n = shard.records.len();
        if position > n as u64 {
            return Err(expired_iterator_error());
        }
        let start = position as usize;
        let end: usize = if n - start > limit {
            start + limit
        } else {
            n
        };
        let mut records: Vec<Record> = Vec::new();
        let mut i: usize = start;
        while i < end
            invariant
                start <= i <= end <= n,
                n == shard.records@.len(),
                records@.len() == i - start,
                forall|j: int|
                    0 <= j < i - start ==> record_converted(
                        #[trigger] records@[j],
                        shard.records@[start + j],
                    ),
            decreases end - i,
        {
            records.push(record_to_output(&shard.records[i]));
            i = i + 1;
        }
        let disabled = match stream.stream_status {
            StreamStatus::Disabled => true,
            _ => false,
        };
        let next = if disabled && end >= n {
            None
        } else {
            Some(encode_iterator(stream.stream_arn.as_str(), shard.shard_id.as_str(), end as u64))
        };
        Ok(GetRecordsOutput { records, next_shard_iterator: next })
    }
}

// ---------------------------------------------------------------------------
// ListStreams
// ---------------------------------------------------------------------------

/// The summary of a stream.
pub open spec fn summary_of(t: TableStream) -> StreamSummary {
    StreamSummary {
        stream_arn: t.stream_arn,
        table_name: t.table_name,
        stream_label: t.stream_label,
    }
}

/// The summaries of streams, in order.
pub open spec fn summaries(s: Seq<TableStream>) -> Seq<StreamSummary> {
    s.map_values(|t: TableStream| summary_of(t))
}

/// The summaries are in lexicographic order of stream ARN.
pub open spec fn arn_sorted(s: Seq<StreamSummary>) -> bool {
    forall|i: int, j: int|
        0 <= i < j < s.len() ==> lex_le((#[trigger] s[i]).stream_arn@, (#[trigger] s[j]).stream_arn@)
}

/// `srt` holds the summaries of `s`, ordered by stream ARN.
pub open spec fn arn_sort_of(srt: Seq<StreamSummary>, s: Seq<StreamSummary>) -> bool {
    &&& srt.to_multiset() == s.to_multiset()
    &&& arn_sorted(srt)
}

/// The page size of ListStreams: 100 when no limit is given, else the limit
/// clamped to `1..=100`.
pub open spec fn list_limit(limit: Option<i32>) -> int {
    match limit {
        None => 100,
        Some(l) => if l < 1 {
            1
        } else if l > 100 {
            100
        } else {
            l as int
        },
    }
}

/// Selects the summaries with the given stream ARN.
pub open spec fn arn_is(arn: Seq<char>) -> spec_fn(StreamSummary) -> bool {
    |x: StreamSummary| x.stream_arn@ == arn
}

/// Where a page of the sorted summaries starts: just after the first one with
/// the exclusive start ARN, or at the beginning when there is none or no
/// summary has it.
pub open spec fn page_start(srt: Seq<StreamSummary>, exclusive_start_stream_arn: Option<String>) -> int {
    match exclusive_start_stream_arn {
        Some(a) => {
            let p = first_index(srt, arn_is(a@)) as int;
            if p < srt.len() {
                p + 1
            } else {
                0
            }
        },
        None => 0,
    }
}

/// `out` is the page of the sorted summaries `srt` that the input asks for:
/// at most `list_limit` summaries from `page_start`, and the ARN of the last
/// one when more follow.
pub open spec fn listed_page(out: ListStreamsOutput, srt: Seq<StreamSummary>, input: ListStreamsInput) -> bool {
    let start = page_start(srt, input.exclusive_start_stream_arn);
    let rest = srt.len() - start;
    let lim = list_limit(input.limit);
    let count = if rest < lim {
        rest
    } else {
        lim
    };
    &&& out.streams@.len() == count
    &&& forall|i: int|
        0 <= i < count ==> {
            &&& (#[trigger] out.streams@[i]).stream_arn == Some(srt[start + i].stream_arn)
            &&& out.streams@[i].table_name == Some(srt[start + i].table_name)
            &&& out.streams@[i].stream_label == Some(srt[start + i].stream_label)
        }
    &&& out.last_evaluated_stream_arn == if rest > lim {
        Some(srt[start + lim - 1].stream_arn)
    } else {
        None
    }
}

/// Inserting a summary where nothing before it has a greater ARN and the one
/// at its place (if any) has a greater ARN keeps the order.
pub proof fn lemma_insert_keeps_sorted(s: Seq<StreamSummary>, p: int, x: StreamSummary)
    requires
        arn_sorted(s),
        0 <= p <= s.len(),
        forall|k: int| 0 <= k < p ==> !lex_lt(x.stream_arn@, (#[trigger] s[k]).stream_arn@),
        p < s.len() ==> lex_lt(x.stream_arn@, s[p].stream_arn@),
    ensures
        arn_sorted(s.insert(p, x)),
{
    let t = s.insert(p, x);
    assert forall|i: int, j: int| 0 <= i < j < t.len() implies lex_le(
        (#[trigger] t[i]).stream_arn@,
        (#[trigger] t[j]).stream_arn@,
    ) by {
        if i == p {
            assert(t[j] == s[j - 1]);
            if j - 1 > p {
                assert(lex_le(s[p].stream_arn@, s[j - 1].stream_arn@));
                if s[p].stream_arn@ != s[j - 1].stream_arn@ {
                    lemma_lex_transitive(x.stream_arn@, s[p].stream_arn@, s[j - 1].stream_arn@);
                }
            }
        } else if j == p {
            assert(t[i] == s[i]);
            lemma_lex_total(x.stream_arn@, s[i].stream_arn@);
        } else {
            let si = if i < p {
                i
            } else {
                i - 1
            };
            let sj = if j < p {
                j
            } else {
                j - 1
            };
            assert(t[i] == s[si]);
            assert(t[j] == s[sj]);
            assert(si < sj);
        }
    }
}

fn insertion_point(out: &Vec<StreamSummary>, arn: &Vec<char>) -> (p: usize)
    ensures
        p <= out@.len(),
        forall|k: int| 0 <= k < p ==> !lex_lt(arn@, (#[trigger] out@[k]).stream_arn@),
        p < out@.len() ==> lex_lt(arn@, out@[p as int].stream_arn@),
{
    let mut p: usize = 0;
    while p < out.len()
        invariant
            p <= out@.len(),
            forall|k: int| 0 <= k < p ==> !lex_lt(arn@, (#[trigger] out@[k]).stream_arn@),
        decreases out.len() - p,
    {
        let other = str_chars(out[p].stream_arn.as_str());
        if lex_less(arn, &other) {
            return p;
        }
        p = p + 1;
    }
    p
}

/// The summaries ordered by stream ARN; summaries with equal ARNs keep their
/// relative order.
pub fn sort_by_arn(v: Vec<StreamSummary>) -> (r: Vec<StreamSummary>)
    ensures
        arn_sort_of(r@, v@),
{
    broadcast use vstd::multiset::group_multiset_axioms, vstd::seq_lib::group_to_multiset_ensures;

    let ghost orig = v@;
    let mut src = v;
    let mut out: Vec<StreamSummary> = Vec::new();
    assert(out@.to_multiset() =~= Multiset::<StreamSummary>::empty());
    assert(out@.to_multiset().add(src@.to_multiset()) =~= orig.to_multiset());
    while src.len() > 0
        invariant
            out@.to_multiset().add(src@.to_multiset()) == orig.to_multiset(),
            arn_sorted(out@),
        decreases src.len(),
    {
        let ghost before_src = src@;
        let ghost before_out = out@;
        let x = src.remove(0);
        let arn = str_chars(x.stream_arn.as_str());
        let p = insertion_point(&out, &arn);
        proof {
            lemma_insert_keeps_sorted(out@, p as int, x);
        }
        out.insert(p, x);
        proof {
            assert(before_src.remove(0) == src@);
            assert(before_src[0] == x);
            assert(before_src.contains(x));
            vstd::seq_lib::to_multiset_contains(before_src, x);
            vstd::seq_lib::to_multiset_remove(before_src, 0);
            vstd::seq_lib::to_multiset_insert(before_out, p as int, x);
            assert(before_src.to_multiset().count(x) > 0);
            assert(out@.to_multiset().add(src@.to_multiset()) =~= before_out.to_multiset().add(
                before_src.to_multiset(),
            ));
        }
    }
    assert(src@.to_multiset() =~= Multiset::<StreamSummary>::empty());
    assert(out@.to_multiset() =~= orig.to_multiset());
    out
}

/// The position of the first summary with the given ARN (or the count).
fn position_of_arn(v: &Vec<StreamSummary>, arn: &str) -> (r: usize)
    ensures
        r == first_index(v@, arn_is(arn@)),
{
    let ghost pred = arn_is(arn@);
    let mut i: usize = 0;
    while i < v.len()
        invariant
            i <= v.len(),
            pred == arn_is(arn@),
            forall|k: int| 0 <= k < i ==> !pred(#[trigger] v@[k]),
        decreases v.len() - i,
    {
        if str_eq(v[i].stream_arn.as_str(), arn) {
            proof {
                lemma_first_index_is(v@, pred, i as int);
            }
            return i;
        }
        i = i + 1;
    }
    proof {
        lemma_first_index_is(v@, pred, i as int);
    }
    i
}

impl RustackDynamoDBStreams {
    /// Handle `ListStreams`: the streams (of one table, when a table name is
    /// given) ordered by ARN, one page at a time.
    pub fn handle_list_streams(&self, input: ListStreamsInput) -> (r: Result<
        ListStreamsOutput,
        DynamoDBStreamsError,
    >)
        ensures
            r matches Ok(out) && exists|srt: Seq<StreamSummary>|
                arn_sort_of(
                    srt,
                    summaries(listed(self.store@, opt_string_view(input.table_name))),
                ) && #[trigger] listed_page(out, srt, input),
    {
        let ghost ls = listed(self.store@, opt_string_view(input.table_name));
        let found = match &input.table_name {
            Some(t) => {
                let ts = t.as_str();
                let f = self.store.list_streams(Some(ts));
                assert(opt_view(Some(ts)) == opt_string_view(input.table_name));
                f
            },
            None => self.store.list_streams(None),
        };
        assert(found@ =~= summaries(ls));
        let streams = sort_by_arn(found);
        let start: usize = match &input.exclusive_start_stream_arn {
            Some(a) => {
                let p = position_of_arn(&streams, a.as_str());
                if p < streams.len() {
                    p + 1
                } else {
                    0
                }
            },
            None => 0,
        };
        let limit: usize = match input.limit {
            None => 100,
            Some(l) => if l < 1 {
                1
            } else if l > 100 {
                100
            } else {
                l as usize
            },
        };
        let rest = streams.len() - start;
        let count: usize = if rest < limit {
            rest
        } else {
            limit
        };
        let total = streams.len();
        let mut items: Vec<Stream> = Vec::new();
        let mut i: usize = 0;
        while i < count
            invariant
                i <= count,
                start + count <= total,
                total == streams@.len(),
                items@.len() == i,
                forall|j: int|
                    0 <= j < i ==> {
                        &&& (#[trigger] items@[j]).stream_arn == Some(
                            streams@[start + j].stream_arn,
                        )
                        &&& items@[j].table_name == Some(streams@[start + j].table_name)
                        &&& items@[j].stream_label == Some(streams@[start + j].stream_label)
                    },
            decreases count - i,
        {
            let sm = &streams[start + i];
            items.push(
                Stream {
                    stream_arn: Some(sm.stream_arn.clone()),
                    table_name: Some(sm.table_name.clone()),
                    stream_label: Some(sm.stream_label.clone()),
                },
            );
            i = i + 1;
        }
        let last = if rest > limit {
            Some(streams[start + limit - 1].stream_arn.clone())
        } else {
            None
        };
        let out = ListStreamsOutput { streams: items, last_evaluated_stream_arn: last };
        assert(listed_page(out, streams@, input));
        Ok(out)
    }
}

// ---------------------------------------------------------------------------
// Laws
// ---------------------------------------------------------------------------

/// In a well-formed shard, the record at position `i` is the first to carry
/// the sequence number `i + 1`.
pub proof fn lemma_sequence_position(shard: ShardRecord, i: int)
    requires
        shard.wf(),
        0 <= i < shard.records@.len(),
    ensures
        sequence_position(shard.records@, sequence_string((i + 1) as nat)) == i,
{
    let q = sequence_string((i + 1) as nat);
    let pred = has_sequence(q);
    let records = shard.records@;
    assert forall|k: int| 0 <= k < i implies !pred(#[trigger] records[k]) by {
        if pred(records[k]) {
            lemma_padded_decimal_injective((k + 1) as nat, (i + 1) as nat, 21);
        }
    }
    assert(pred(records[i]));
    lemma_first_index_is(records, pred, i);
}

/// Every iterator that GetShardIterator hands out points into the shard it
/// names, at or before its end, so GetRecords can read from it; a TRIM_HORIZON
/// iterator points at the first record, a LATEST one at the end, an
/// AT_SEQUENCE_NUMBER one at the record with that number and an
/// AFTER_SEQUENCE_NUMBER one just after it.  (ARNs and shard IDs are assumed
/// free of `|`, the token separator.)
pub proof fn lemma_issued_iterator_targets(s: Seq<TableStream>, input: GetShardIteratorInput)
    requires
        streams_wf(s),
        !input.stream_arn@.contains('|'),
        !input.shard_id@.contains('|'),
        arn_index(s, input.stream_arn@) < s.len() ==> s[arn_index(
            s,
            input.stream_arn@,
        )].shard.records@.len() < u64::MAX,
    ensures
        shard_iterator_outcome(s, input) matches Ok(token) ==> {
            let k = arn_index(s, input.stream_arn@);
            let records = s[k].shard.records@;
            &&& token_in_range(s, token)
            &&& token_target(s, token) matches Some((kk, pos)) && kk == k && pos == match input.shard_iterator_type {
                ShardIteratorType::TrimHorizon => 0,
                ShardIteratorType::Latest => records.len() as int,
                ShardIteratorType::AtSequenceNumber => sequence_position(
                    records,
                    input.sequence_number.unwrap()@,
                ),
                ShardIteratorType::AfterSequenceNumber => sequence_position(
                    records,
                    input.sequence_number.unwrap()@,
                ) + 1,
            }
        },
{
    let arn = input.stream_arn@;
    let sid = input.shard_id@;
    let k = arn_index(s, arn);
    if let Ok(token) = shard_iterator_outcome(s, input) {
        let records = s[k].shard.records@;
        let pos: u64 = match input.shard_iterator_type {
            ShardIteratorType::TrimHorizon => 0,
            ShardIteratorType::Latest => records.len() as u64,
            ShardIteratorType::AtSequenceNumber => sequence_position(
                records,
                input.sequence_number.unwrap()@,
            ) as u64,
            ShardIteratorType::AfterSequenceNumber => (sequence_position(
                records,
                input.sequence_number.unwrap()@,
            ) + 1) as u64,
        };
        assert(token == spec_encode_iterator(arn, sid, pos));
        lemma_iterator_roundtrip(arn, sid, pos);
    }
}

/// An AT_SEQUENCE_NUMBER iterator for the sequence number of the record at
/// position `i` points at that record, and one AFTER it at the next position.
pub proof fn lemma_sequence_iterator_targets_record(
    s: Seq<TableStream>,
    input: GetShardIteratorInput,
    i: int,
)
    requires
        streams_wf(s),
        !input.stream_arn@.contains('|'),
        !input.shard_id@.contains('|'),
        arn_index(s, input.stream_arn@) < s.len(),
        s[arn_index(s, input.stream_arn@)].shard.shard_id@ == input.shard_id@,
        0 <= i < s[arn_index(s, input.stream_arn@)].shard.records@.len(),
        s[arn_index(s, input.stream_arn@)].shard.records@.len() < u64::MAX,
        input.sequence_number matches Some(q) && q@ == sequence_string((i + 1) as nat),
        input.shard_iterator_type == ShardIteratorType::AtSequenceNumber
            || input.shard_iterator_type == ShardIteratorType::AfterSequenceNumber,
    ensures
        shard_iterator_outcome(s, input) matches Ok(token) && token_target(s, token) == Some(
            (
                arn_index(s, input.stream_arn@),
                (if input.shard_iterator_type == ShardIteratorType::AtSequenceNumber {
                    i
                } else {
                    i + 1
                }) as u64,
            ),
        ),
{
    let k = arn_index(s, input.stream_arn@);
    lemma_first_index_props(s, with_arn(input.stream_arn@));
    assert(s[k].shard.wf());
    lemma_sequence_position(s[k].shard, i);
    lemma_issued_iterator_targets(s, input);
}

/// GetRecords reads 1000 records at most without a limit, and at least one
/// and at most 1000 records whatever the limit; a limit from 1 to 1000 is
/// used as given.
pub proof fn lemma_records_limit(limit: Option<i32>)
    ensures
        records_limit(None) == 1000,
        1 <= records_limit(limit) <= 1000,
        match limit {
            Some(l) => {
                &&& 1 <= l <= 1000 ==> records_limit(limit) == l
                &&& l > 1000 ==> records_limit(limit) == 1000
                &&& l == 0 ==> records_limit(limit) == 1
            },
            None => true,
        },
{
}

/// ListStreams lists 100 streams a page without a limit, and at least one
/// and at most 100 whatever the limit; a limit from 1 to 100 is used as given.
pub proof fn lemma_list_limit(limit: Option<i32>)
    ensures
        list_limit(None) == 100,
        1 <= list_limit(limit) <= 100,
        match limit {
            Some(l) => {
                &&& 1 <= l <= 100 ==> list_limit(limit) == l
                &&& l > 100 ==> list_limit(limit) == 100
                &&& l < 1 ==> list_limit(limit) == 1
            },
            None => true,
        },
{
}

/// GetRecords from position `pos` returns the shard's records from `pos` on,
/// in order, as many as the limit allows and no more than are left; the next
/// iterator points just past the last one returned, and there is none once a
/// closed stream's shard has been read to its end.
pub proof fn lemma_records_read_window(
    out: GetRecordsOutput,
    s: Seq<TableStream>,
    k: int,
    pos: int,
    limit: int,
)
    requires
        records_read(out, s, k, pos, limit),
        0 <= pos <= s[k].shard.records@.len(),
        limit >= 1,
    ensures
        out.records@.len() <= limit,
        out.records@.len() <= s[k].shard.records@.len() - pos,
        out.records@.len() == limit || out.records@.len() == s[k].shard.records@.len() - pos,
        forall|i: int|
            0 <= i < out.records@.len() ==> record_converted(
                #[trigger] out.records@[i],
                s[k].shard.records@[pos + i],
            ),
        s[k].stream_status != StreamStatus::Disabled ==> out.next_shard_iterator is Some
            && out.next_shard_iterator.unwrap()@ == spec_encode_iterator(
            s[k].stream_arn@,
            s[k].shard.shard_id@,
            (pos + out.records@.len()) as u64,
        ),
        s[k].stream_status == StreamStatus::Disabled && pos + out.records@.len()
            == s[k].shard.records@.len() ==> out.next_shard_iterator is None,
        s[k].stream_status == StreamStatus::Disabled && pos + out.records@.len()
            < s[k].shard.records@.len() ==> out.next_shard_iterator is Some,
{
}

/// The summaries carry distinct stream ARNs.
pub open spec fn arns_distinct(srt: Seq<StreamSummary>) -> bool {
    forall|i: int, j: int|
        0 <= i < j < srt.len() ==> (#[trigger] srt[i]).stream_arn@ != (#[trigger] srt[j]).stream_arn@
}

/// Pages follow each other: when a page reports a last evaluated ARN,
/// asking from that ARN starts the next page right after this page's last
/// stream, so walking the pages skips and repeats nothing.
pub proof fn lemma_next_page_follows(
    srt: Seq<StreamSummary>,
    input: ListStreamsInput,
    out: ListStreamsOutput,
    next: ListStreamsInput,
)
    requires
        arns_distinct(srt),
        listed_page(out, srt, input),
        out.last_evaluated_stream_arn is Some,
        next.exclusive_start_stream_arn == out.last_evaluated_stream_arn,
    ensures
        page_start(srt, next.exclusive_start_stream_arn) == page_start(
            srt,
            input.exclusive_start_stream_arn,
        ) + list_limit(input.limit),
{
    let start = page_start(srt, input.exclusive_start_stream_arn);
    let lim = list_limit(input.limit);
    let last = start + lim - 1;
    let a = out.last_evaluated_stream_arn.unwrap();
    assert(a == srt[last].stream_arn);
    assert(0 <= start) by {
        match input.exclusive_start_stream_arn {
            Some(x) => {},
            None => {},
        }
    }
    assert forall|k: int| 0 <= k < last implies !arn_is(a@)(#[trigger] srt[k]) by {
        assert(srt[k].stream_arn@ != srt[last].stream_arn@);
    }
    lemma_first_index_is(srt, arn_is(a@), last);
}

/// Summaries with the same stream ARN are the same summary.
pub open spec fn arn_determines(s: Seq<StreamSummary>) -> bool {
    forall|i: int, j: int|
        0 <= i < s.len() && 0 <= j < s.len() && (#[trigger] s[i]).stream_arn@ == (
        #[trigger] s[j]).stream_arn@ ==> s[i] == s[j]
}

proof fn lemma_sorted_last_is_greatest(a: Seq<StreamSummary>, k: int)
    requires
        arn_sorted(a),
        0 <= k < a.len(),
    ensures
        lex_le(a[k].stream_arn@, a[a.len() - 1].stream_arn@),
{
    if k < a.len() - 1 {
        assert(lex_le(a[k].stream_arn@, a[a.len() - 1].stream_arn@));
    }
}

/// Sorting by stream ARN is deterministic: when summaries with the same ARN
/// are the same, there is only one order of them by ARN, so every ListStreams
/// call on the same streams pages through the same sequence.
pub proof fn lemma_arn_sort_unique(a: Seq<StreamSummary>, b: Seq<StreamSummary>, s: Seq<StreamSummary>)
    requires
        arn_sort_of(a, s),
        arn_sort_of(b, s),
        arn_determines(s),
    ensures
        a == b,
    decreases a.len(),
{
    broadcast use vstd::seq_lib::group_to_multiset_ensures;

    assert(a.len() == b.len()) by {
        assert(a.to_multiset().len() == b.to_multiset().len());
    }
    if a.len() == 0 {
        assert(a =~= b);
    } else {
        let n = a.len() - 1;
        let x = a[n];
        let y = b[n];
        assert(a.contains(x));
        assert(b.contains(y));
        assert(s.to_multiset().count(x) > 0);
        assert(s.to_multiset().count(y) > 0);
        assert(b.contains(x));
        assert(a.contains(y));
        assert(s.contains(x));
        assert(s.contains(y));
        let kb = choose|k: int| 0 <= k < b.len() && b[k] == x;
        let ka = choose|k: int| 0 <= k < a.len() && a[k] == y;
        lemma_sorted_last_is_greatest(b, kb);
        lemma_sorted_last_is_greatest(a, ka);
        lemma_lex_asymmetric(x.stream_arn@, y.stream_arn@);
        assert(x.stream_arn@ == y.stream_arn@);
        let ix = choose|k: int| 0 <= k < s.len() && s[k] == x;
        let iy = choose|k: int| 0 <= k < s.len() && s[k] == y;
        assert(s[ix].stream_arn@ == s[iy].stream_arn@);
        assert(x == y);
        let a2 = a.remove(n);
        let b2 = b.remove(n);
        assert(a2 =~= a.drop_last());
        assert(b2 =~= b.drop_last());
        assert(a2.to_multiset() == a.to_multiset().remove(x));
        assert(b2.to_multiset() == b.to_multiset().remove(y));
        let s2 = a2;
        assert(arn_sorted(a2)) by {
            assert forall|i: int, j: int| 0 <= i < j < a2.len() implies lex_le(
                (#[trigger] a2[i]).stream_arn@,
                (#[trigger] a2[j]).stream_arn@,
            ) by {
                assert(a2[i] == a[i] && a2[j] == a[j]);
            }
        }
        assert(arn_sorted(b2)) by {
            assert forall|i: int, j: int| 0 <= i < j < b2.len() implies lex_le(
                (#[trigger] b2[i]).stream_arn@,
                (#[trigger] b2[j]).stream_arn@,
            ) by {
                assert(b2[i] == b[i] && b2[j] == b[j]);
            }
        }
        assert(arn_determines(a2)) by {
            assert forall|i: int, j: int|
                0 <= i < a2.len() && 0 <= j < a2.len() && (#[trigger] a2[i]).stream_arn@ == (
                #[trigger] a2[j]).stream_arn@ implies a2[i] == a2[j] by {
                assert(a2[i] == a[i] && a2[j] == a[j]);
                assert(a.contains(a[i]) && a.contains(a[j]));
                assert(s.to_multiset().count(a[i]) > 0 && s.to_multiset().count(a[j]) > 0);
                assert(s.contains(a[i]) && s.contains(a[j]));
                let p = choose|k: int| 0 <= k < s.len() && s[k] == a[i];
                let q = choose|k: int| 0 <= k < s.len() && s[k] == a[j];
                assert(s[p].stream_arn@ == s[q].stream_arn@);
            }
        }
        lemma_arn_sort_unique(a2, b2, s2);
        assert(a =~= a2.push(x));
        assert(b =~= b2.push(y));
    }
}

/// ListStreams is deterministic: two pages listed for the same input from
/// the same streams (summaries with the same ARN being the same) hold the
/// same streams in the same order and report the same last evaluated ARN.
pub proof fn lemma_list_streams_deterministic(
    s: Seq<StreamSummary>,
    srt1: Seq<StreamSummary>,
    srt2: Seq<StreamSummary>,
    input: ListStreamsInput,
    out1: ListStreamsOutput,
    out2: ListStreamsOutput,
)
    requires
        arn_determines(s),
        arn_sort_of(srt1, s),
        arn_sort_of(srt2, s),
        listed_page(out1, srt1, input),
        listed_page(out2, srt2, input),
    ensures
        out1.last_evaluated_stream_arn == out2.last_evaluated_stream_arn,
        out1.streams@.len() == out2.streams@.len(),
        forall|i: int|
            0 <= i < out1.streams@.len() ==> (#[trigger] out1.streams@[i]).stream_arn
                == out2.streams@[i].stream_arn && out1.streams@[i].table_name
                == out2.streams@[i].table_name && out1.streams@[i].stream_label
                == out2.streams@[i].stream_label,
{
    lemma_arn_sort_unique(srt1, srt2, s);
}

} // verus!
