//! DynamoDB Streams storage engine: one stream per table, each with a single
//! append-only shard whose records carry increasing sequence numbers.

use vstd::prelude::*;
use crate::dynamodb_stream::{
    AttributeValue, ChangeEvent, KeySchemaElement as TableKeySchemaElement,
    KeyType as TableKeyType, StreamViewType as TableStreamViewType,
};
use crate::seqs::{first_index, is_first, lemma_first_index_is, lemma_first_index_props};
use crate::streams_model::{KeySchemaElement, KeyType, StreamStatus, StreamViewType};
use crate::text::{
    decimal, decimal_padded, digits_value, is_digit, lemma_decimal_digits, lemma_padded_decimal_order,
    lemma_zero_pad_value, lex_lt, own, pow10, push_str_chars, str_eq,
    string_from_chars, zero_pad,
};

verus! {

// ---------------------------------------------------------------------------
// Records
// ---------------------------------------------------------------------------

/// The `dynamodb` part of a stream record.
#[derive(Debug)]
pub struct StreamRecordData {
    /// The primary key attributes for the affected item.
    pub keys: Vec<(String, AttributeValue)>,
    /// The item after the modification (INSERT/MODIFY), when the view keeps it.
    pub new_image: Option<Vec<(String, AttributeValue)>>,
    /// The item before the modification (MODIFY/REMOVE), when the view keeps it.
    pub old_image: Option<Vec<(String, AttributeValue)>>,
    /// Sequence number within the shard, assigned on append.
    pub sequence_number: Option<String>,
    /// Approximate size of the stream record in bytes.
    pub size_bytes: u64,
    /// The view type of the stream that recorded it.
    pub stream_view_type: StreamViewType,
    /// Approximate creation time in whole epoch seconds.
    pub approximate_creation_date_time: i64,
}

/// A single change record in a stream.
#[derive(Debug)]
pub struct StreamChangeRecord {
    /// Unique identifier for this event.
    pub event_id: String,
    /// Type of change: INSERT, MODIFY, or REMOVE.
    pub event_name: String,
    /// Event version (always "1.1").
    pub event_version: String,
    /// Event source (always "aws:dynamodb").
    pub event_source: String,
    /// AWS region.
    pub aws_region: String,
    /// The DynamoDB-specific portion of the record.
    pub dynamodb: StreamRecordData,
}

/// Summary information about a stream for ListStreams.
#[derive(Debug, Clone)]
pub struct StreamSummary {
    /// Stream ARN.
    pub stream_arn: String,
    /// Table name.
    pub table_name: String,
    /// Stream label.
    pub stream_label: String,
}

/// Width of a formatted sequence number.
pub const SEQUENCE_NUMBER_WIDTH: usize = 21;

/// The sequence number `n` as written in records: decimal, zero-padded to 21 characters.
pub open spec fn sequence_string(n: nat) -> Seq<char> {
    zero_pad(decimal(n), 21)
}

/// Sequence numbers strictly increase, as numbers and as text: for `a < b`
/// (both fitting in a `u64`) the sequence string of `a` has the smaller
/// value and comes first in string order.  `ShardRecord::append` returns
/// `sequence_string(n + 1)` for a shard of `n` records, so each append's
/// result is greater, both ways, than every earlier one's.
pub proof fn lemma_sequence_strings_increase(a: nat, b: nat)
    requires
        a < b <= u64::MAX,
    ensures
        digits_value(sequence_string(a)) == a,
        digits_value(sequence_string(b)) == b,
        lex_lt(sequence_string(a), sequence_string(b)),
{
    lemma_decimal_digits(a);
    lemma_decimal_digits(b);
    lemma_zero_pad_value(decimal(a), 21);
    lemma_zero_pad_value(decimal(b), 21);
    assert(pow10(21) == 1000000000000000000000nat) by {
        reveal_with_fuel(pow10, 22);
    }
    lemma_padded_decimal_order(a, b, 21);
}

/// In a well-formed shard, a later record's sequence number comes after an
/// earlier one's in string order.
pub proof fn lemma_shard_sequence_order(shard: ShardRecord, i: int, j: int)
    requires
        shard.wf(),
        0 <= i < j < shard.records@.len(),
        shard.records@.len() <= u64::MAX,
    ensures
        lex_lt(
            shard.records@[i].dynamodb.sequence_number.unwrap()@,
            shard.records@[j].dynamodb.sequence_number.unwrap()@,
        ),
{
    let ri = shard.records@[i];
    let rj = shard.records@[j];
    lemma_sequence_strings_increase((i + 1) as nat, (j + 1) as nat);
}

/// Two records agree on everything but the sequence number.
pub open spec fn same_but_sequence(a: StreamChangeRecord, b: StreamChangeRecord) -> bool {
    &&& a.event_id == b.event_id
    &&& a.event_name == b.event_name
    &&& a.event_version == b.event_version
    &&& a.event_source == b.event_source
    &&& a.aws_region == b.aws_region
    &&& a.dynamodb.keys == b.dynamodb.keys
    &&& a.dynamodb.new_image == b.dynamodb.new_image
    &&& a.dynamodb.old_image == b.dynamodb.old_image
    &&& a.dynamodb.size_bytes == b.dynamodb.size_bytes
    &&& a.dynamodb.stream_view_type == b.dynamodb.stream_view_type
    &&& a.dynamodb.approximate_creation_date_time == b.dynamodb.approximate_creation_date_time
}

// ---------------------------------------------------------------------------
// Shards
// ---------------------------------------------------------------------------

/// A shard: an append-only log of change records with increasing sequence numbers.
#[derive(Debug)]
pub struct ShardRecord {
    /// Shard ID in DynamoDB Streams format.
    pub shard_id: String,
    /// Parent shard ID (None for the first shard).
    pub parent_shard_id: Option<String>,
    /// Starting sequence number (first record in this shard).
    pub starting_sequence_number: Option<String>,
    /// Ending sequence number (last record; None while the shard is open).
    pub ending_sequence_number: Option<String>,
    /// Change records in chronological order; the next sequence number to
    /// assign is one past their count.
    pub records: Vec<StreamChangeRecord>,
}

/// A copy of an optional string.
pub fn copy_opt_string(o: &Option<String>) -> (r: Option<String>)
    ensures
        r == *o,
{
    match o {
        Some(s) => Some(s.clone()),
        None => None,
    }
}

impl ShardRecord {
    /// Record `i` carries the sequence number `i + 1`, and the starting number is
    /// that of the first record.
    pub open spec fn wf(&self) -> bool {
        &&& forall|i: int|
            0 <= i < self.records@.len() ==> {
                let sn = (#[trigger] self.records@[i]).dynamodb.sequence_number;
                &&& sn.is_some()
                &&& sn.unwrap()@ == sequence_string((i + 1) as nat)
            }
        &&& self.starting_sequence_number.is_some() <==> self.records@.len() > 0
        &&& self.starting_sequence_number.is_some()
            ==> self.starting_sequence_number.unwrap()@ == sequence_string(1)
    }

    /// Create a new open shard with the given ID.
    pub fn new(shard_id: String) -> (r: Self)
        ensures
            r.wf(),
            r.shard_id == shard_id,
            r.parent_shard_id.is_none(),
            r.starting_sequence_number.is_none(),
            r.ending_sequence_number.is_none(),
            r.records@.len() == 0,
    {
        ShardRecord {
            shard_id,
            parent_shard_id: None,
            starting_sequence_number: None,
            ending_sequence_number: None,
            records: Vec::new(),
        }
    }

    /// Appends a change record, assigning it the next sequence number, which is
    /// returned.
    pub fn append(&mut self, record: StreamChangeRecord) -> (r: String)
        requires
            old(self).wf(),
            old(self).records@.len() + 2 <= u64::MAX,
        ensures
            final(self).wf(),
            r@ == sequence_string(old(self).records@.len() + 1),
            final(self).records@.len() == old(self).records@.len() + 1,
            forall|i: int|
                0 <= i < old(self).records@.len() ==> final(self).records@[i] == old(
                    self,
                ).records@[i],
            same_but_sequence(final(self).records@.last(), record),
            final(self).shard_id == old(self).shard_id,
            final(self).parent_shard_id == old(self).parent_shard_id,
            final(self).ending_sequence_number == old(self).ending_sequence_number,
    {
        let seq: u64 = self.records.len() as u64 + 1;
        let digits = decimal_padded(seq, SEQUENCE_NUMBER_WIDTH);
        let seq_str = string_from_chars(&digits);
        let mut record = record;
        record.dynamodb.sequence_number = Some(seq_str.clone());
        if self.starting_sequence_number.is_none() {
            self.starting_sequence_number = Some(seq_str.clone());
        }
        let ghost before = self.records@;
        self.records.push(record);
        assert forall|i: int| 0 <= i < self.records@.len() implies {
            let sn = (#[trigger] self.records@[i]).dynamodb.sequence_number;
            &&& sn.is_some()
            &&& sn.unwrap()@ == sequence_string((i + 1) as nat)
        } by {
            if i < before.len() {
                assert(self.records@[i] == before[i]);
            }
        }
        seq_str
    }

    /// Closes the shard: the ending sequence number becomes that of the last record.
    pub fn close(&mut self)
        requires
            old(self).wf(),
        ensures
            final(self).wf(),
            final(self).records == old(self).records,
            final(self).shard_id == old(self).shard_id,
            final(self).parent_shard_id == old(self).parent_shard_id,
            final(self).starting_sequence_number == old(self).starting_sequence_number,
            final(self).ending_sequence_number == if old(self).records@.len() > 0 {
                old(self).records@.last().dynamodb.sequence_number
            } else {
                old(self).ending_sequence_number
            },
    {
        let n = self.records.len();
        if n > 0 {
            let last = copy_opt_string(&self.records[n - 1].dynamodb.sequence_number);
            self.ending_sequence_number = last;
        }
    }
}

// ---------------------------------------------------------------------------
// Conversions from the table-side model
// ---------------------------------------------------------------------------

/// The stream-side view type for a table-side view type.
pub open spec fn spec_convert_view_type(v: TableStreamViewType) -> StreamViewType {
    match v {
        TableStreamViewType::KeysOnly => StreamViewType::KeysOnly,
        TableStreamViewType::NewImage => StreamViewType::NewImage,
        TableStreamViewType::OldImage => StreamViewType::OldImage,
        TableStreamViewType::NewAndOldImages => StreamViewType::NewAndOldImages,
    }
}

/// Convert a table-side `StreamViewType` to the stream-side one.
pub fn convert_stream_view_type(svt: &TableStreamViewType) -> (r: StreamViewType)
    ensures
        r == spec_convert_view_type(*svt),
{
    match svt {
        TableStreamViewType::KeysOnly => StreamViewType::KeysOnly,
        TableStreamViewType::NewImage => StreamViewType::NewImage,
        TableStreamViewType::OldImage => StreamViewType::OldImage,
        TableStreamViewType::NewAndOldImages => StreamViewType::NewAndOldImages,
    }
}

/// A stream-side key schema element matches a table-side one.
pub open spec fn key_element_matches(s: KeySchemaElement, t: TableKeySchemaElement) -> bool {
    &&& s.attribute_name@ == t.attribute_name@
    &&& s.key_type == match t.key_type {
        TableKeyType::Hash => KeyType::Hash,
        TableKeyType::Range => KeyType::Range,
    }
}

/// A stream-side key schema matches a table-side one element by element.
pub open spec fn key_schema_matches(s: Seq<KeySchemaElement>, t: Seq<TableKeySchemaElement>) -> bool {
    &&& s.len() == t.len()
    &&& forall|i: int| 0 <= i < s.len() ==> key_element_matches(#[trigger] s[i], t[i])
}

/// Convert a table-side key schema to the stream-side model.
pub fn convert_key_schema(key_schema: &Vec<TableKeySchemaElement>) -> (r: Vec<KeySchemaElement>)
    ensures
        key_schema_matches(r@, key_schema@),
{
    let mut out: Vec<KeySchemaElement> = Vec::new();
    let mut i: usize = 0;
    while i < key_schema.len()
        invariant
            i <= key_schema.len(),
            key_schema_matches(out@, key_schema@.take(i as int)),
        decreases key_schema.len() - i,
    {
        let k = &key_schema[i];
        let key_type = match k.key_type {
            TableKeyType::Hash => KeyType::Hash,
            TableKeyType::Range => KeyType::Range,
        };
        out.push(KeySchemaElement { attribute_name: k.attribute_name.clone(), key_type });
        i = i + 1;
    }
    assert(key_schema@.take(key_schema@.len() as int) =~= key_schema@);
    out
}

// ---------------------------------------------------------------------------
// Change records built from table events
// ---------------------------------------------------------------------------

/// The images that a stream of the given view type keeps: (new, old).
pub open spec fn kept_images<T>(view: StreamViewType, new_image: Option<T>, old_image: Option<T>) -> (
    Option<T>,
    Option<T>,
) {
    match view {
        StreamViewType::KeysOnly => (None, None),
        StreamViewType::NewImage => (new_image, None),
        StreamViewType::OldImage => (None, old_image),
        StreamViewType::NewAndOldImages => (new_image, old_image),
    }
}

/// `r` is the record that a stream with view type `view` makes of `event`.
pub open spec fn record_of_event(
    r: StreamChangeRecord,
    event: ChangeEvent,
    view: StreamViewType,
    region: Seq<char>,
    event_id: Seq<char>,
    approx_time: i64,
) -> bool {
    let (new_image, old_image) = kept_images(view, event.new_image, event.old_image);
    &&& r.event_id@ == event_id
    &&& r.event_name@ == event.event_name.wire()
    &&& r.event_version@ == "1.1"@
    &&& r.event_source@ == "aws:dynamodb"@
    &&& r.aws_region@ == region
    &&& r.dynamodb.keys == event.keys
    &&& r.dynamodb.new_image == new_image
    &&& r.dynamodb.old_image == old_image
    &&& r.dynamodb.sequence_number.is_none()
    &&& r.dynamodb.size_bytes == event.size_bytes
    &&& r.dynamodb.stream_view_type == view
    &&& r.dynamodb.approximate_creation_date_time == approx_time
}

/// A record keeps exactly the images its stream's view type names: the new
/// image for `NEW_IMAGE`, the old one for `OLD_IMAGE`, both for
/// `NEW_AND_OLD_IMAGES`, neither for `KEYS_ONLY`; the keys always.
pub proof fn lemma_record_keeps_view_images(
    r: StreamChangeRecord,
    event: ChangeEvent,
    view: StreamViewType,
    region: Seq<char>,
    event_id: Seq<char>,
    approx_time: i64,
)
    requires
        record_of_event(r, event, view, region, event_id, approx_time),
    ensures
        r.dynamodb.keys == event.keys,
        view == StreamViewType::NewImage ==> r.dynamodb.new_image == event.new_image
            && r.dynamodb.old_image is None,
        view == StreamViewType::OldImage ==> r.dynamodb.old_image == event.old_image
            && r.dynamodb.new_image is None,
        view == StreamViewType::NewAndOldImages ==> r.dynamodb.new_image == event.new_image
            && r.dynamodb.old_image == event.old_image,
        view == StreamViewType::KeysOnly ==> r.dynamodb.new_image is None
            && r.dynamodb.old_image is None,
        r.event_id@ == event_id,
        r.event_name@ == event.event_name.wire(),
        r.event_version@ == "1.1"@,
        r.event_source@ == "aws:dynamodb"@,
        r.aws_region@ == region,
        r.dynamodb.sequence_number is None,
        r.dynamodb.size_bytes == event.size_bytes,
        r.dynamodb.stream_view_type == view,
        r.dynamodb.approximate_creation_date_time == approx_time,
{
}

/// Each table-side view type becomes the stream-side one of the same name.
pub proof fn lemma_view_types_convert()
    ensures
        spec_convert_view_type(TableStreamViewType::KeysOnly) == StreamViewType::KeysOnly,
        spec_convert_view_type(TableStreamViewType::NewImage) == StreamViewType::NewImage,
        spec_convert_view_type(TableStreamViewType::OldImage) == StreamViewType::OldImage,
        spec_convert_view_type(TableStreamViewType::NewAndOldImages)
            == StreamViewType::NewAndOldImages,
{
}

/// Converts a change event into a record, keeping the images that the view type asks for.
pub fn create_record(
    view: StreamViewType,
    event: ChangeEvent,
    region: &str,
    event_id: String,
    approx_time: i64,
) -> (r: StreamChangeRecord)
    ensures
        record_of_event(r, event, view, region@, event_id@, approx_time),
{
    let ghost ev = event;
    let ChangeEvent { table_name, event_name, keys, old_image, new_image, size_bytes } = event;
    let (new_image, old_image) = match view {
        StreamViewType::KeysOnly => (None, None),
        StreamViewType::NewImage => (new_image, None),
        StreamViewType::OldImage => (None, old_image),
        StreamViewType::NewAndOldImages => (new_image, old_image),
    };
    StreamChangeRecord {
        event_id,
        event_name: own(event_name.as_str()),
        event_version: own("1.1"),
        event_source: own("aws:dynamodb"),
        aws_region: own(region),
        dynamodb: StreamRecordData {
            keys,
            new_image,
            old_image,
            sequence_number: None,
            size_bytes,
            stream_view_type: view,
            approximate_creation_date_time: approx_time,
        },
    }
}

// ---------------------------------------------------------------------------
// Table streams and the store
// ---------------------------------------------------------------------------

/// A single stream associated with a table: its metadata and its one shard.
#[derive(Debug)]
pub struct TableStream {
    /// Stream ARN.
    pub stream_arn: String,
    /// Table name this stream belongs to.
    pub table_name: String,
    /// Stream label (timestamp of creation).
    pub stream_label: String,
    /// What information is captured in stream records.
    pub stream_view_type: StreamViewType,
    /// Stream status.
    pub stream_status: StreamStatus,
    /// Table's key schema.
    pub key_schema: Vec<KeySchemaElement>,
    /// Table ARN.
    pub table_arn: String,
    /// The single shard of this stream.
    pub shard: ShardRecord,
}

/// The ARN of the stream with the given label on a table.
pub open spec fn spec_stream_arn(
    region: Seq<char>,
    account_id: Seq<char>,
    table_name: Seq<char>,
    stream_label: Seq<char>,
) -> Seq<char> {
    "arn:aws:dynamodb:"@ + region + ":"@ + account_id + ":table/"@ + table_name + "/stream/"@
        + stream_label
}

/// The ARN of the stream with the given label on a table:
/// `arn:aws:dynamodb:{region}:{account_id}:table/{table_name}/stream/{stream_label}`.
fn stream_arn(region: &str, account_id: &str, table_name: &str, stream_label: &str) -> (r: String)
    ensures
        r@ == spec_stream_arn(region@, account_id@, table_name@, stream_label@),
{
    let mut arn_chars: Vec<char> = Vec::new();
    push_str_chars(&mut arn_chars, "arn:aws:dynamodb:");
    push_str_chars(&mut arn_chars, region);
    push_str_chars(&mut arn_chars, ":");
    push_str_chars(&mut arn_chars, account_id);
    push_str_chars(&mut arn_chars, ":table/");
    push_str_chars(&mut arn_chars, table_name);
    push_str_chars(&mut arn_chars, "/stream/");
    push_str_chars(&mut arn_chars, stream_label);
    string_from_chars(&arn_chars)
}

/// The shard ID made from a generated identifier.
pub open spec fn spec_shard_id(uuid: Seq<char>) -> Seq<char> {
    "shardId-"@ + uuid
}

/// `t` is the stream that creating a stream with these arguments makes.
pub open spec fn fresh_stream(
    t: TableStream,
    table_name: Seq<char>,
    table_arn: Seq<char>,
    key_schema: Seq<TableKeySchemaElement>,
    view: TableStreamViewType,
    region: Seq<char>,
    account_id: Seq<char>,
    stream_label: Seq<char>,
    uuid: Seq<char>,
) -> bool {
    &&& t.stream_arn@ == spec_stream_arn(region, account_id, table_name, stream_label)
    &&& t.table_name@ == table_name
    &&& t.stream_label@ == stream_label
    &&& t.stream_view_type == spec_convert_view_type(view)
    &&& t.stream_status == StreamStatus::Enabled
    &&& key_schema_matches(t.key_schema@, key_schema)
    &&& t.table_arn@ == table_arn
    &&& t.shard.wf()
    &&& t.shard.shard_id@ == spec_shard_id(uuid)
    &&& t.shard.parent_shard_id.is_none()
    &&& t.shard.starting_sequence_number.is_none()
    &&& t.shard.ending_sequence_number.is_none()
    &&& t.shard.records@.len() == 0
}

/// Selects the stream of the named table.
pub open spec fn named(name: Seq<char>) -> spec_fn(TableStream) -> bool {
    |t: TableStream| t.table_name@ == name
}

/// Selects the stream with the given ARN.
pub open spec fn with_arn(arn: Seq<char>) -> spec_fn(TableStream) -> bool {
    |t: TableStream| t.stream_arn@ == arn
}

/// Position of the named table's stream in `s` (or `s.len()` when it has none).
pub open spec fn table_index(s: Seq<TableStream>, name: Seq<char>) -> int {
    first_index(s, named(name)) as int
}

/// Position of the first stream with this ARN in `s` (or `s.len()`).
pub open spec fn arn_index(s: Seq<TableStream>, arn: Seq<char>) -> int {
    first_index(s, with_arn(arn)) as int
}

/// Table names are unique and every shard is well formed.
pub open spec fn streams_wf(s: Seq<TableStream>) -> bool {
    &&& forall|i: int, j: int|
        0 <= i < j < s.len() ==> (#[trigger] s[i]).table_name@ != (#[trigger] s[j]).table_name@
    &&& forall|i: int| 0 <= i < s.len() ==> (#[trigger] s[i]).shard.wf()
}

/// `b` is `a` disabled: status DISABLED and shard closed, all else unchanged.
pub open spec fn disabled_version(a: TableStream, b: TableStream) -> bool {
    &&& b.stream_status == StreamStatus::Disabled
    &&& b.stream_arn == a.stream_arn
    &&& b.table_name == a.table_name
    &&& b.stream_label == a.stream_label
    &&& b.stream_view_type == a.stream_view_type
    &&& b.key_schema == a.key_schema
    &&& b.table_arn == a.table_arn
    &&& b.shard.wf()
    &&& b.shard.records == a.shard.records
    &&& b.shard.shard_id == a.shard.shard_id
    &&& b.shard.parent_shard_id == a.shard.parent_shard_id
    &&& b.shard.starting_sequence_number == a.shard.starting_sequence_number
    &&& b.shard.ending_sequence_number == if a.shard.records@.len() > 0 {
        a.shard.records@.last().dynamodb.sequence_number
    } else {
        a.shard.ending_sequence_number
    }
}

/// `b` is `a` with `rec` appended to its shard under the next sequence number.
pub open spec fn appended_version(a: TableStream, b: TableStream, rec: StreamChangeRecord) -> bool {
    &&& b.stream_status == a.stream_status
    &&& b.stream_arn == a.stream_arn
    &&& b.table_name == a.table_name
    &&& b.stream_label == a.stream_label
    &&& b.stream_view_type == a.stream_view_type
    &&& b.key_schema == a.key_schema
    &&& b.table_arn == a.table_arn
    &&& b.shard.wf()
    &&& b.shard.shard_id == a.shard.shard_id
    &&& b.shard.parent_shard_id == a.shard.parent_shard_id
    &&& b.shard.ending_sequence_number == a.shard.ending_sequence_number
    &&& b.shard.records@.len() == a.shard.records@.len() + 1
    &&& forall|i: int|
        0 <= i < a.shard.records@.len() ==> b.shard.records@[i] == a.shard.records@[i]
    &&& same_but_sequence(b.shard.records@.last(), rec)
}

/// The top-level store of all streams, at most one per table.
#[derive(Debug)]
pub struct StreamStore {
    streams: Vec<TableStream>,
}

impl View for StreamStore {
    type V = Seq<TableStream>;

    closed spec fn view(&self) -> Seq<TableStream> {
        self.streams@
    }
}

impl StreamStore {
    /// The store's invariant: table names are unique and every shard is well formed.
    pub open spec fn wf(&self) -> bool {
        streams_wf(self@)
    }

    /// Whether the named table has a stream.
    pub open spec fn has_table(&self, name: Seq<char>) -> bool {
        table_index(self@, name) < self@.len()
    }

    /// The stream of the named table (meaningful when `has_table`).
    pub open spec fn stream_of(&self, name: Seq<char>) -> TableStream {
        self@[table_index(self@, name)]
    }

    /// The named table's shard can take one more record without its sequence
    /// counter overflowing.
    pub open spec fn has_room(&self, name: Seq<char>) -> bool {
        self.has_table(name) ==> self.stream_of(name).shard.records@.len() + 2 <= u64::MAX
    }

    /// Create a new empty stream store.
    pub fn new() -> (r: Self)
        ensures
            r.wf(),
            r@ == Seq::<TableStream>::empty(),
    {
        StreamStore { streams: Vec::new() }
    }

    /// Position of the named table's stream.
    fn find_table(&self, name: &str) -> (r: usize)
        ensures
            r == table_index(self@, name@),
            is_first(self@, named(name@), r as int),
    {
        let mut i: usize = 0;
        while i < self.streams.len()
            invariant
                i <= self.streams.len(),
                forall|k: int| 0 <= k < i ==> !named(name@)(#[trigger] self.streams@[k]),
            decreases self.streams.len() - i,
        {
            if str_eq(self.streams[i].table_name.as_str(), name) {
                proof {
                    lemma_first_index_is(self@, named(name@), i as int);
                }
                return i;
            }
            i = i + 1;
        }
        proof {
            lemma_first_index_is(self@, named(name@), i as int);
        }
        i
    }

    /// Position of the first stream with the given ARN.
    fn find_arn(&self, arn: &str) -> (r: usize)
        ensures
            r == arn_index(self@, arn@),
            is_first(self@, with_arn(arn@), r as int),
    {
        let mut i: usize = 0;
        while i < self.streams.len()
            invariant
                i <= self.streams.len(),
                forall|k: int| 0 <= k < i ==> !with_arn(arn@)(#[trigger] self.streams@[k]),
            decreases self.streams.len() - i,
        {
            if str_eq(self.streams[i].stream_arn.as_str(), arn) {
                proof {
                    lemma_first_index_is(self@, with_arn(arn@), i as int);
                }
                return i;
            }
            i = i + 1;
        }
        proof {
            lemma_first_index_is(self@, with_arn(arn@), i as int);
        }
        i
    }

    /// Replaces the stream at position `i`.
    fn replace_at(&mut self, i: usize, t: TableStream)
        requires
            i < old(self)@.len(),
        ensures
            final(self)@ == old(self)@.update(i as int, t),
    {
        let _old = self.streams.remove(i);
        self.streams.insert(i, t);
        assert(final_view_is(self@, old(self)@, i as int, t));
    }

    /// Creates a stream for a table with the given label and shard identifier,
    /// replacing any stream the table had.  Returns the stream ARN.
    pub fn create_stream_with(
        &mut self,
        table_name: &str,
        table_arn: &str,
        key_schema: Vec<TableKeySchemaElement>,
        stream_view_type: TableStreamViewType,
        region: &str,
        account_id: &str,
        stream_label: String,
        shard_uuid: String,
    ) -> (r: String)
        requires
            old(self).wf(),
        ensures
            final(self).wf(),
            created_stream(
                old(self)@,
                final(self)@,
                r@,
                table_name@,
                table_arn@,
                key_schema@,
                stream_view_type,
                region@,
                account_id@,
                stream_label@,
                shard_uuid@,
            ),
    {
        let arn = stream_arn(region, account_id, table_name, stream_label.as_str());
        let mut shard_chars: Vec<char> = Vec::new();
        push_str_chars(&mut shard_chars, "shardId-");
        push_str_chars(&mut shard_chars, shard_uuid.as_str());
        let shard = ShardRecord::new(string_from_chars(&shard_chars));
        let streams_key_schema = convert_key_schema(&key_schema);
        let converted_view_type = convert_stream_view_type(&stream_view_type);
        let stream = TableStream {
            stream_arn: arn.clone(),
            table_name: own(table_name),
            stream_label,
            stream_view_type: converted_view_type,
            stream_status: StreamStatus::Enabled,
            key_schema: streams_key_schema,
            table_arn: own(table_arn),
            shard,
        };
        let k = self.find_table(table_name);
        if k < self.streams.len() {
            self.replace_at(k, stream);
        } else {
            self.streams.push(stream);
            proof {
                lemma_first_index_props(old(self)@, named(table_name@));
            }
        }
        proof {
            let s = self@;
            assert forall|i: int, j: int| 0 <= i < j < s.len() implies (
            #[trigger] s[i]).table_name@ != (#[trigger] s[j]).table_name@ by {
                if i != k && j != k {
                    assert(s[i] == old(self)@[i]);
                    assert(s[j] == old(self)@[j]);
                } else if i == k {
                    assert(s[j] == old(self)@[j]);
                    if (k as int) < old(self)@.len() {
                        assert(named(table_name@)(old(self)@[k as int]));
                    }
                    assert(!named(table_name@)(old(self)@[j]));
                } else {
                    assert(s[i] == old(self)@[i]);
                    assert(!named(table_name@)(old(self)@[i]));
                }
            }
            assert forall|i: int| 0 <= i < s.len() implies (#[trigger] s[i]).shard.wf() by {
                if i != k {
                    assert(s[i] == old(self)@[i]);
                }
            }
        }
        arn
    }

    /// Disables the named table's stream: it stays readable but takes no new
    /// records, and its shard is closed.
    pub fn disable_stream(&mut self, table_name: &str)
        requires
            old(self).wf(),
        ensures
            final(self).wf(),
            ({
                let k = table_index(old(self)@, table_name@);
                if k < old(self)@.len() {
                    &&& final(self)@.len() == old(self)@.len()
                    &&& forall|i: int|
                        0 <= i < old(self)@.len() && i != k ==> final(self)@[i] == old(self)@[i]
                    &&& disabled_version(old(self)@[k], final(self)@[k])
                } else {
                    final(self)@ == old(self)@
                }
            }),
    {
        let k = self.find_table(table_name);
        if k < self.streams.len() {
            let mut stream = self.streams.remove(k);
            assert(stream == old(self)@[k as int]);
            stream.stream_status = StreamStatus::Disabled;
            stream.shard.close();
            self.streams.insert(k, stream);
            proof {
                assert(final_view_is(self@, old(self)@, k as int, stream));
                let s = self@;
                assert forall|i: int, j: int| 0 <= i < j < s.len() implies (
                #[trigger] s[i]).table_name@ != (#[trigger] s[j]).table_name@ by {
                    assert(s[i].table_name == old(self)@[i].table_name);
                    assert(s[j].table_name == old(self)@[j].table_name);
                    assert(old(self)@[i].table_name@ != old(self)@[j].table_name@);
                }
                assert forall|i: int| 0 <= i < s.len() implies (#[trigger] s[i]).shard.wf() by {
                    if i != k {
                        assert(s[i] == old(self)@[i]);
                    }
                }
            }
        }
    }

    /// Removes the named table's stream entirely.
    pub fn remove_stream(&mut self, table_name: &str)
        requires
            old(self).wf(),
        ensures
            final(self).wf(),
            ({
                let k = table_index(old(self)@, table_name@);
                if k < old(self)@.len() {
                    final(self)@ == old(self)@.remove(k)
                } else {
                    final(self)@ == old(self)@
                }
            }),
    {
        let k = self.find_table(table_name);
        if k < self.streams.len() {
            let _removed = self.streams.remove(k);
            proof {
                let s = self@;
                let o = old(self)@;
                assert forall|i: int, j: int| 0 <= i < j < s.len() implies (
                #[trigger] s[i]).table_name@ != (#[trigger] s[j]).table_name@ by {
                    let oi = if i < k { i } else { i + 1 };
                    let oj = if j < k { j } else { j + 1 };
                    assert(s[i] == o[oi]);
                    assert(s[j] == o[oj]);
                    assert(o[oi].table_name@ != o[oj].table_name@);
                }
                assert forall|i: int| 0 <= i < s.len() implies (#[trigger] s[i]).shard.wf() by {
                    let oi = if i < k { i } else { i + 1 };
                    assert(s[i] == o[oi]);
                }
            }
        }
    }

    /// Appends a change event to its table's stream, under the given event ID
    /// and creation time.  Events for tables without an enabled stream are
    /// discarded.
    pub fn append_change_event_with(
        &mut self,
        event: ChangeEvent,
        region: &str,
        event_id: String,
        approx_time: i64,
    )
        requires
            old(self).wf(),
            old(self).has_room(event.table_name@),
        ensures
            final(self).wf(),
            appended_event(old(self)@, final(self)@, event, region@, event_id@, approx_time),
    {
        let k = self.find_table(event.table_name.as_str());
        if k >= self.streams.len() {
            return;
        }
        if self.streams[k].stream_status != StreamStatus::Enabled {
            return;
        }
        let ghost ev = event;
        let view = self.streams[k].stream_view_type;
        let record = create_record(view, event, region, event_id, approx_time);
        let ghost rec = record;
        let mut stream = self.streams.remove(k);
        assert(stream == old(self)@[k as int]);
        let _seq = stream.shard.append(record);
        self.streams.insert(k, stream);
        proof {
            assert(final_view_is(self@, old(self)@, k as int, stream));
            assert(record_of_event(rec, ev, view, region@, event_id@, approx_time)
                && appended_version(old(self)@[k as int], self@[k as int], rec));
            let s = self@;
            assert forall|i: int, j: int| 0 <= i < j < s.len() implies (
            #[trigger] s[i]).table_name@ != (#[trigger] s[j]).table_name@ by {
                assert(s[i].table_name == old(self)@[i].table_name);
                assert(s[j].table_name == old(self)@[j].table_name);
                assert(old(self)@[i].table_name@ != old(self)@[j].table_name@);
            }
            assert forall|i: int| 0 <= i < s.len() implies (#[trigger] s[i]).shard.wf() by {
                if i != k {
                    assert(s[i] == old(self)@[i]);
                }
            }
        }
    }

    /// The first stream with the given ARN, if any.
    pub fn get_stream_by_arn(&self, stream_arn: &str) -> (r: Option<&TableStream>)
        ensures
            match r {
                Some(t) => arn_index(self@, stream_arn@) < self@.len() && *t == self@[arn_index(
                    self@,
                    stream_arn@,
                )],
                None => arn_index(self@, stream_arn@) == self@.len(),
            },
    {
        let k = self.find_arn(stream_arn);
        if k < self.streams.len() {
            Some(&self.streams[k])
        } else {
            None
        }
    }

    /// Summaries of all streams (in store order), optionally only that of one table.
    pub fn list_streams(&self, table_name: Option<&str>) -> (r: Vec<StreamSummary>)
        ensures
            summaries_of(r@, listed(self@, opt_view(table_name))),
    {
        let mut out: Vec<StreamSummary> = Vec::new();
        let ghost filt = opt_view(table_name);
        let mut i: usize = 0;
        while i < self.streams.len()
            invariant
                i <= self.streams.len(),
                filt == opt_view(table_name),
                summaries_of(out@, listed(self@.take(i as int), filt)),
            decreases self.streams.len() - i,
        {
            let t = &self.streams[i];
            let keep = match table_name {
                None => true,
                Some(tn) => str_eq(t.table_name.as_str(), tn),
            };
            proof {
                reveal_with_fuel(Seq::filter, 1);
                assert(self@.take(i + 1).drop_last() =~= self@.take(i as int));
                assert(self@.take(i + 1).last() == self@[i as int]);
            }
            if keep {
                out.push(
                    StreamSummary {
                        stream_arn: t.stream_arn.clone(),
                        table_name: t.table_name.clone(),
                        stream_label: t.stream_label.clone(),
                    },
                );
            }
            i = i + 1;
        }
        assert(self@.take(self@.len() as int) =~= self@);
        out
    }

    /// The stream ARN of the named table, if it has a stream.
    pub fn get_stream_arn(&self, table_name: &str) -> (r: Option<String>)
        ensures
            match r {
                Some(a) => self.has_table(table_name@) && a == self.stream_of(
                    table_name@,
                ).stream_arn,
                None => !self.has_table(table_name@),
            },
    {
        let k = self.find_table(table_name);
        if k < self.streams.len() {
            Some(self.streams[k].stream_arn.clone())
        } else {
            None
        }
    }

    /// The stream label of the named table, if it has a stream.
    pub fn get_stream_label(&self, table_name: &str) -> (r: Option<String>)
        ensures
            match r {
                Some(a) => self.has_table(table_name@) && a == self.stream_of(
                    table_name@,
                ).stream_label,
                None => !self.has_table(table_name@),
            },
    {
        let k = self.find_table(table_name);
        if k < self.streams.len() {
            Some(self.streams[k].stream_label.clone())
        } else {
            None
        }
    }
}

/// `s` is `o` with position `k` replaced by `t`.
pub open spec fn final_view_is(s: Seq<TableStream>, o: Seq<TableStream>, k: int, t: TableStream) -> bool {
    s =~= o.update(k, t)
}

/// The view of an optional table-name filter.
pub open spec fn opt_view(o: Option<&str>) -> Option<Seq<char>> {
    match o {
        Some(s) => Some(s@),
        None => None,
    }
}

/// Whether a stream passes the optional table-name filter.
pub open spec fn passes(filter: Option<Seq<char>>) -> spec_fn(TableStream) -> bool {
    |t: TableStream| filter.is_none() || t.table_name@ == filter.unwrap()
}

/// The streams that pass the filter, in order.
pub open spec fn listed(s: Seq<TableStream>, filter: Option<Seq<char>>) -> Seq<TableStream> {
    s.filter(passes(filter))
}

/// `r` summarises the streams `s` one for one.
pub open spec fn summaries_of(r: Seq<StreamSummary>, s: Seq<TableStream>) -> bool {
    &&& r.len() == s.len()
    &&& forall|i: int|
        0 <= i < r.len() ==> {
            &&& (#[trigger] r[i]).stream_arn == s[i].stream_arn
            &&& r[i].table_name == s[i].table_name
            &&& r[i].stream_label == s[i].stream_label
        }
}

/// `f` is `o` after creating the stream `arn` for a table with these arguments:
/// the table's stream is replaced in place, or added at the end.
pub open spec fn created_stream(
    o: Seq<TableStream>,
    f: Seq<TableStream>,
    arn: Seq<char>,
    table_name: Seq<char>,
    table_arn: Seq<char>,
    key_schema: Seq<TableKeySchemaElement>,
    view: TableStreamViewType,
    region: Seq<char>,
    account_id: Seq<char>,
    stream_label: Seq<char>,
    uuid: Seq<char>,
) -> bool {
    let k = table_index(o, table_name);
    &&& arn == spec_stream_arn(region, account_id, table_name, stream_label)
    &&& f.len() == if k < o.len() {
        o.len()
    } else {
        o.len() + 1
    }
    &&& forall|i: int| 0 <= i < o.len() && i != k ==> f[i] == o[i]
    &&& fresh_stream(
        f[k],
        table_name,
        table_arn,
        key_schema,
        view,
        region,
        account_id,
        stream_label,
        uuid,
    )
}

/// `f` is `o` after appending `event`: when its table has an enabled stream,
/// that stream's shard gains the record made of the event; otherwise nothing changes.
pub open spec fn appended_event(
    o: Seq<TableStream>,
    f: Seq<TableStream>,
    event: ChangeEvent,
    region: Seq<char>,
    event_id: Seq<char>,
    approx_time: i64,
) -> bool {
    let k = table_index(o, event.table_name@);
    if k < o.len() && o[k].stream_status == StreamStatus::Enabled {
        &&& f.len() == o.len()
        &&& forall|i: int| 0 <= i < o.len() && i != k ==> f[i] == o[i]
        &&& exists|rec: StreamChangeRecord|
            record_of_event(rec, event, o[k].stream_view_type, region, event_id, approx_time)
                && appended_version(o[k], f[k], rec)
    } else {
        f == o
    }
}

/// After a stream is created for a table, looking the table up finds the new
/// stream: enabled, with the returned ARN, and with an empty shard.
pub proof fn lemma_created_stream_is_found(
    o: Seq<TableStream>,
    f: Seq<TableStream>,
    arn: Seq<char>,
    table_name: Seq<char>,
    table_arn: Seq<char>,
    key_schema: Seq<TableKeySchemaElement>,
    view: TableStreamViewType,
    region: Seq<char>,
    account_id: Seq<char>,
    stream_label: Seq<char>,
    uuid: Seq<char>,
)
    requires
        created_stream(
            o,
            f,
            arn,
            table_name,
            table_arn,
            key_schema,
            view,
            region,
            account_id,
            stream_label,
            uuid,
        ),
    ensures
        table_index(f, table_name) < f.len(),
        f[table_index(f, table_name)].stream_arn@ == arn,
        f[table_index(f, table_name)].stream_status == StreamStatus::Enabled,
        f[table_index(f, table_name)].shard.records@.len() == 0,
{
    let k = table_index(o, table_name);
    lemma_first_index_props(o, named(table_name));
    assert forall|i: int| 0 <= i < k implies !named(table_name)(#[trigger] f[i]) by {
        assert(f[i] == o[i]);
    }
    assert(named(table_name)(f[k]));
    lemma_first_index_is(f, named(table_name), k);
}

/// Change events for a table whose stream is disabled (or that has none)
/// leave the store unchanged.
pub proof fn lemma_disabled_stream_discards_events(
    o: Seq<TableStream>,
    f: Seq<TableStream>,
    event: ChangeEvent,
    region: Seq<char>,
    event_id: Seq<char>,
    approx_time: i64,
)
    requires
        appended_event(o, f, event, region, event_id, approx_time),
        table_index(o, event.table_name@) < o.len() ==> o[table_index(
            o,
            event.table_name@,
        )].stream_status == StreamStatus::Disabled,
    ensures
        f == o,
{
}

/// Appending an event to an enabled stream adds one record at the end of its
/// shard, with the next sequence number, and keeps the earlier records.
pub proof fn lemma_appended_record_is_last(
    o: Seq<TableStream>,
    f: Seq<TableStream>,
    event: ChangeEvent,
    region: Seq<char>,
    event_id: Seq<char>,
    approx_time: i64,
)
    requires
        appended_event(o, f, event, region, event_id, approx_time),
        table_index(o, event.table_name@) < o.len(),
        o[table_index(o, event.table_name@)].stream_status == StreamStatus::Enabled,
    ensures
        ({
            let k = table_index(o, event.table_name@);
            let before = o[k].shard.records@;
            let after = f[k].shard.records@;
            &&& after.len() == before.len() + 1
            &&& after.take(before.len() as int) == before
            &&& after.last().dynamodb.sequence_number.unwrap()@ == sequence_string(
                after.len(),
            )
            &&& after.last().event_id@ == event_id
            &&& after.last().event_name@ == event.event_name.wire()
        }),
{
    let k = table_index(o, event.table_name@);
    let before = o[k].shard.records@;
    let after = f[k].shard.records@;
    assert(after.take(before.len() as int) =~= before);
    assert(f[k].shard.wf());
    assert(after[after.len() - 1] == after.last());
}

/// The `strftime`-style pattern of stream labels: ISO 8601 with milliseconds.
pub open spec fn label_pattern() -> Seq<char> {
    "%Y-%m-%dT%H:%M:%S%.3f"@
}

/// The shape of a stream label: a year of at least four characters, then
/// `-MM-DDTHH:MM:SS.mmm` with a digit in every place but the separators.
pub open spec fn label_text(s: Seq<char>) -> bool {
    &&& s.len() >= 23
    &&& forall|i: int|
        #![trigger s[i]]
        s.len() - 19 <= i < s.len() ==> {
            let j = i - (s.len() - 19);
            if j == 0 || j == 3 {
                s[i] == '-'
            } else if j == 6 {
                s[i] == 'T'
            } else if j == 9 || j == 12 {
                s[i] == ':'
            } else if j == 15 {
                s[i] == '.'
            } else {
                is_digit(s[i])
            }
        }
}

/// The current UTC time formatted with the stream-label pattern.
///
/// Trusted: `chrono::Utc::now().format(pattern).to_string()`.  The pattern is
/// held to `label_pattern`, whose items chrono formats without error (an
/// invalid item would make `to_string` panic).  chrono writes the year with
/// at least four characters (a sign and more digits outside 0..=9999), the
/// other fields as two zero-padded digits and `%.3f` as a point and three
/// digits; which time it shows depends on the clock and is not stated.
#[verifier::external_body]
fn format_utc_now(pattern: &str) -> (r: String)
    requires
        pattern@ == label_pattern(),
    ensures
        label_text(r@),
{
    chrono::Utc::now().format(pattern).to_string()
}

/// The current UTC time in whole seconds since the Unix epoch.
///
/// Trusted: `chrono::Utc::now().timestamp()`.  Nothing is stated of the
/// result: it depends on the clock.
#[verifier::external_body]
pub(crate) fn now_epoch_seconds() -> i64 {
    chrono::Utc::now().timestamp()
}

/// A lower-case hexadecimal digit character.
pub open spec fn lower_hex_digit(c: char) -> bool {
    ('0' <= c && c <= '9') || ('a' <= c && c <= 'f')
}

/// The hyphenated lower-case text form of a UUID: 36 characters, hyphens
/// at positions 8, 13, 18 and 23, hexadecimal digits elsewhere.
pub open spec fn uuid_text(s: Seq<char>) -> bool {
    &&& s.len() == 36
    &&& forall|i: int|
        0 <= i < 36 ==> if i == 8 || i == 13 || i == 18 || i == 23 {
            #[trigger] s[i] == '-'
        } else {
            lower_hex_digit(s[i])
        }
}

/// A fresh random (version 4) UUID in its hyphenated text form.
///
/// Trusted: `uuid::Uuid::new_v4().to_string()`.  Which UUID comes out is
/// random; its shape is stated: `Display` writes the hyphenated lower-case
/// form (`fmt.rs`, `format_hyphenated`).
#[verifier::external_body]
pub(crate) fn new_uuid() -> (r: String)
    ensures
        uuid_text(r@),
{
    uuid::Uuid::new_v4().to_string()
}

impl StreamStore {
    /// Creates a stream for a table, labelled with the current time (ISO 8601
    /// with milliseconds) and with a fresh shard ID.  Returns the stream ARN.
    pub fn create_stream(
        &mut self,
        table_name: &str,
        table_arn: &str,
        key_schema: Vec<TableKeySchemaElement>,
        stream_view_type: TableStreamViewType,
        region: &str,
        account_id: &str,
    ) -> (r: String)
        requires
            old(self).wf(),
        ensures
            final(self).wf(),
            exists|label: Seq<char>, uuid: Seq<char>|
                uuid_text(uuid) && label_text(label) && #[trigger] created_stream(
                    old(self)@,
                    final(self)@,
                    r@,
                    table_name@,
                    table_arn@,
                    key_schema@,
                    stream_view_type,
                    region@,
                    account_id@,
                    label,
                    uuid,
                ),
    {
        let stream_label = format_utc_now("%Y-%m-%dT%H:%M:%S%.3f");
        let uuid = new_uuid();
        let ghost l = stream_label@;
        let ghost u = uuid@;
        let r = self.create_stream_with(
            table_name,
            table_arn,
            key_schema,
            stream_view_type,
            region,
            account_id,
            stream_label,
            uuid,
        );
        assert(created_stream(
            old(self)@,
            self@,
            r@,
            table_name@,
            table_arn@,
            key_schema@,
            stream_view_type,
            region@,
            account_id@,
            l,
            u,
        ));
        r
    }

    /// Appends a change event to its table's stream with a fresh event ID and
    /// the current time.  Events for tables without an enabled stream are
    /// discarded.
    pub fn append_change_event(&mut self, event: ChangeEvent, region: &str)
        requires
            old(self).wf(),
            old(self).has_room(event.table_name@),
        ensures
            final(self).wf(),
            exists|event_id: Seq<char>, approx_time: i64|
                uuid_text(event_id) && #[trigger] appended_event(
                    old(self)@,
                    final(self)@,
                    event,
                    region@,
                    event_id,
                    approx_time,
                ),
    {
        let event_id = new_uuid();
        let approx_time = now_epoch_seconds();
        let ghost id = event_id@;
        self.append_change_event_with(event, region, event_id, approx_time);
        assert(appended_event(old(self)@, self@, event, region@, id, approx_time));
    }
}

} // verus!
