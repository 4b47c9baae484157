use rustack::dynamodb_stream::{
    AttributeValue as TableAttributeValue, ChangeEvent, ChangeEventName,
    KeySchemaElement as TableKeySchemaElement, KeyType as TableKeyType,
    StreamViewType as TableStreamViewType,
};
use rustack::streams_config::{env_bool, DynamoDBStreamsConfig};
use rustack::streams_iterator::{decode_iterator, encode_iterator};
use rustack::streams_model::{
    DescribeStreamInput, DynamoDBStreamsErrorCode, DynamoDBStreamsOperation, GetRecordsInput,
    GetShardIteratorInput, ListStreamsInput, OperationType, ShardIteratorType, StreamStatus,
    StreamViewType,
};
use rustack::streams_provider::{convert_attribute_value, RustackDynamoDBStreams};
use rustack::streams_router::{resolve_operation, NotImplementedHandler};
use rustack::streams_store::StreamStore;

fn headers_with_target(target: &str) -> http::HeaderMap {
    let mut map = http::HeaderMap::new();
    map.insert("x-amz-target", http::HeaderValue::from_str(target).unwrap());
    map
}

fn s(v: &str) -> String {
    v.to_string()
}

fn insert_event(table: &str, key: &str) -> ChangeEvent {
    ChangeEvent {
        table_name: s(table),
        event_name: ChangeEventName::Insert,
        keys: vec![(s("pk"), TableAttributeValue::S(s(key)))],
        old_image: None,
        new_image: Some(vec![(s("pk"), TableAttributeValue::S(s(key)))]),
        size_bytes: 10,
    }
}

// ----- iterator -----

#[test]
fn test_should_roundtrip_iterator() {
    let arn = "arn:aws:dynamodb:us-east-1:000000000000:table/Test/stream/2026-01-01T00:00:00.000";
    let shard_id = "shardId-00000000-0000-0000-0000-000000000000";
    let position = 42;

    let token = encode_iterator(arn, shard_id, position);
    let (decoded_arn, decoded_shard, decoded_pos) = decode_iterator(&token).unwrap();

    assert_eq!(decoded_arn, arn);
    assert_eq!(decoded_shard, shard_id);
    assert_eq!(decoded_pos, position);
}

#[test]
fn test_should_error_on_malformed_token() {
    let err = decode_iterator("not-a-valid-token").unwrap_err();
    assert_eq!(err.code, DynamoDBStreamsErrorCode::ExpiredIteratorException);
}

#[test]
fn test_should_error_on_invalid_position() {
    let err = decode_iterator("arn|shard|notanumber").unwrap_err();
    assert_eq!(err.code, DynamoDBStreamsErrorCode::ExpiredIteratorException);
}

#[test]
fn iterator_token_has_three_fields() {
    assert_eq!(encode_iterator("a", "b", 7), "a|b|7");
    let err = decode_iterator("a|b|").unwrap_err();
    assert_eq!(err.message, "The shard iterator is expired or invalid.");
    assert_eq!(decode_iterator("a|b|+5").unwrap().2, 5);
}

// ----- storage -----

#[test]
fn test_should_create_and_list_streams() {
    let mut store = StreamStore::new();
    let arn = store.create_stream(
        "TestTable",
        "arn:aws:dynamodb:us-east-1:000000000000:table/TestTable",
        vec![TableKeySchemaElement { attribute_name: s("pk"), key_type: TableKeyType::Hash }],
        TableStreamViewType::NewAndOldImages,
        "us-east-1",
        "000000000000",
    );

    assert!(arn.contains("TestTable"));
    let streams = store.list_streams(None);
    assert_eq!(streams.len(), 1);
    assert_eq!(streams[0].table_name, "TestTable");
}

#[test]
fn test_should_append_and_read_records() {
    let mut store = StreamStore::new();
    let _ = store.create_stream(
        "TestTable",
        "arn:aws:dynamodb:us-east-1:000000000000:table/TestTable",
        vec![],
        TableStreamViewType::NewAndOldImages,
        "us-east-1",
        "000000000000",
    );

    store.append_change_event(insert_event("TestTable", "val"), "us-east-1");

    let arn = store.list_streams(None)[0].stream_arn.clone();
    let stream = store.get_stream_by_arn(&arn).unwrap();
    let shard = &stream.shard;
    assert_eq!(shard.records.len(), 1);
    assert_eq!(shard.records[0].event_name, "INSERT");
    assert_eq!(shard.records[0].dynamodb.sequence_number, Some("000000000000000000001".to_string()));
}

#[test]
fn test_should_filter_images_keys_only() {
    let mut store = StreamStore::new();
    let _ = store.create_stream(
        "T",
        "arn:aws:dynamodb:us-east-1:0:table/T",
        vec![],
        TableStreamViewType::KeysOnly,
        "us-east-1",
        "0",
    );

    let event = ChangeEvent {
        table_name: s("T"),
        event_name: ChangeEventName::Insert,
        keys: vec![(s("pk"), TableAttributeValue::S(s("v")))],
        old_image: Some(vec![]),
        new_image: Some(vec![(s("pk"), TableAttributeValue::S(s("v")))]),
        size_bytes: 5,
    };

    store.append_change_event(event, "us-east-1");

    let arn = store.list_streams(None)[0].stream_arn.clone();
    let stream = store.get_stream_by_arn(&arn).unwrap();
    assert!(stream.shard.records[0].dynamodb.new_image.is_none());
    assert!(stream.shard.records[0].dynamodb.old_image.is_none());
}

#[test]
fn test_should_disable_stream() {
    let mut store = StreamStore::new();
    let _ = store.create_stream(
        "T",
        "arn:aws:dynamodb:us-east-1:0:table/T",
        vec![],
        TableStreamViewType::NewAndOldImages,
        "us-east-1",
        "0",
    );

    store.disable_stream("T");

    let event = ChangeEvent {
        table_name: s("T"),
        event_name: ChangeEventName::Insert,
        keys: vec![],
        old_image: None,
        new_image: None,
        size_bytes: 0,
    };

    // Should be silently discarded.
    store.append_change_event(event, "us-east-1");

    let arn = store.list_streams(None)[0].stream_arn.clone();
    let stream = store.get_stream_by_arn(&arn).unwrap();
    assert!(stream.shard.records.is_empty());
    assert_eq!(stream.stream_status, StreamStatus::Disabled);
}

#[test]
fn store_assigns_increasing_sequence_numbers() {
    let mut store = StreamStore::new();
    let arn = store.create_stream_with(
        "T",
        "arn:t",
        vec![],
        TableStreamViewType::NewImage,
        "us-east-1",
        "0",
        s("2026-01-01T00:00:00.000"),
        s("abc"),
    );
    assert_eq!(arn, "arn:aws:dynamodb:us-east-1:0:table/T/stream/2026-01-01T00:00:00.000");
    store.append_change_event_with(insert_event("T", "a"), "us-east-1", s("e1"), 100);
    store.append_change_event_with(insert_event("T", "b"), "us-east-1", s("e2"), 101);
    let stream = store.get_stream_by_arn(&arn).unwrap();
    assert_eq!(stream.shard.shard_id, "shardId-abc");
    assert_eq!(stream.shard.records.len(), 2);
    assert_eq!(stream.shard.records[1].dynamodb.sequence_number.as_deref(), Some("000000000000000000002"));
    assert_eq!(stream.shard.starting_sequence_number.as_deref(), Some("000000000000000000001"));
    assert_eq!(stream.shard.records[0].event_id, "e1");
    assert_eq!(store.get_stream_label("T"), Some(s("2026-01-01T00:00:00.000")));
    assert_eq!(store.get_stream_arn("Other"), None);
    store.disable_stream("T");
    let stream = store.get_stream_by_arn(&arn).unwrap();
    assert_eq!(stream.shard.ending_sequence_number.as_deref(), Some("000000000000000000002"));
    store.remove_stream("T");
    assert!(store.list_streams(None).is_empty());
}

// ----- router -----

#[test]
fn test_should_resolve_describe_stream() {
    let headers = headers_with_target("DynamoDBStreams_20120810.DescribeStream");
    let op = resolve_operation(&headers).unwrap();
    assert_eq!(op, DynamoDBStreamsOperation::DescribeStream);
}

#[test]
fn test_should_resolve_all_operations() {
    let ops = [
        ("DynamoDBStreams_20120810.DescribeStream", DynamoDBStreamsOperation::DescribeStream),
        ("DynamoDBStreams_20120810.GetShardIterator", DynamoDBStreamsOperation::GetShardIterator),
        ("DynamoDBStreams_20120810.GetRecords", DynamoDBStreamsOperation::GetRecords),
        ("DynamoDBStreams_20120810.ListStreams", DynamoDBStreamsOperation::ListStreams),
    ];
    for (target, expected) in ops {
        let headers = headers_with_target(target);
        let op = resolve_operation(&headers).unwrap();
        assert_eq!(op, expected, "failed for target: {target}");
    }
}

#[test]
fn test_should_error_on_missing_target() {
    let headers = http::HeaderMap::new();
    let err = resolve_operation(&headers).unwrap_err();
    assert_eq!(err.code, DynamoDBStreamsErrorCode::MissingAction);
}

#[test]
fn test_should_error_on_wrong_prefix() {
    let headers = headers_with_target("DynamoDB_20120810.CreateTable");
    let err = resolve_operation(&headers).unwrap_err();
    assert_eq!(err.code, DynamoDBStreamsErrorCode::InvalidAction);
    assert_eq!(err.message, "Operation DynamoDB_20120810.CreateTable is not supported.");
}

#[test]
fn streams_router_should_error_on_unknown_operation() {
    let headers = headers_with_target("DynamoDBStreams_20120810.NonExistent");
    let err = resolve_operation(&headers).unwrap_err();
    assert_eq!(err.code, DynamoDBStreamsErrorCode::InvalidAction);
}

#[test]
fn not_implemented_handler_rejects_operations() {
    let err = NotImplementedHandler.handle_operation(DynamoDBStreamsOperation::GetRecords);
    assert_eq!(err.code, DynamoDBStreamsErrorCode::InvalidAction);
    assert_eq!(err.message, "Operation GetRecords is not supported.");
    assert_eq!(err.status_code, 400);
}

// ----- config -----

#[test]
fn config_defaults_and_values() {
    let d = DynamoDBStreamsConfig::default();
    assert!(d.skip_signature_validation);
    assert_eq!(d.default_region, "us-east-1");
    assert_eq!(d.default_account_id, "000000000000");
    let c = DynamoDBStreamsConfig::from_values(
        Some(s("no")),
        Some(s("eu-west-1")),
        None,
        Some(s("25")),
        Some(s("x")),
    );
    assert!(!c.skip_signature_validation);
    assert_eq!(c.default_region, "eu-west-1");
    assert_eq!(c.default_account_id, "000000000000");
    assert_eq!(c.max_records_per_shard, 25);
    assert_eq!(c.max_record_age_seconds, 0);
    assert!(env_bool(Some("YES"), false));
    assert!(!env_bool(Some("Yes"), true));
    assert!(env_bool(None, true));
}

// ----- provider -----

fn provider_with_records(n: usize) -> (RustackDynamoDBStreams, String) {
    let mut store = StreamStore::new();
    let arn = store.create_stream_with(
        "T",
        "arn:t",
        vec![],
        TableStreamViewType::NewAndOldImages,
        "us-east-1",
        "0",
        s("L"),
        s("u"),
    );
    for i in 0..n {
        store.append_change_event_with(insert_event("T", &i.to_string()), "us-east-1", format!("e{i}"), 7);
    }
    (RustackDynamoDBStreams::new(store, DynamoDBStreamsConfig::default()), arn)
}

#[test]
fn provider_describes_streams() {
    let (p, arn) = provider_with_records(1);
    let out = p
        .handle_describe_stream(DescribeStreamInput { stream_arn: arn.clone(), ..Default::default() })
        .unwrap();
    let d = out.stream_description.unwrap();
    assert_eq!(d.stream_arn.as_deref(), Some(arn.as_str()));
    assert_eq!(d.stream_status, Some(StreamStatus::Enabled));
    assert_eq!(d.stream_view_type, Some(StreamViewType::NewAndOldImages));
    assert_eq!(d.shards.len(), 1);
    assert_eq!(d.shards[0].shard_id.as_deref(), Some("shardId-u"));
    let out = p
        .handle_describe_stream(DescribeStreamInput {
            stream_arn: arn.clone(),
            exclusive_start_shard_id: Some(s("shardId-u")),
            ..Default::default()
        })
        .unwrap();
    assert!(out.stream_description.unwrap().shards.is_empty());
    let err = p
        .handle_describe_stream(DescribeStreamInput { stream_arn: s("nope"), ..Default::default() })
        .unwrap_err();
    assert_eq!(err.code, DynamoDBStreamsErrorCode::ResourceNotFoundException);
    assert_eq!(err.message, "Requested resource not found: Stream: nope not found");
}

#[test]
fn provider_lists_streams_in_arn_order_with_pages() {
    let mut store = StreamStore::new();
    for name in ["b", "c", "a"] {
        let _ = store.create_stream_with(
            name,
            "arn",
            vec![],
            TableStreamViewType::KeysOnly,
            "r",
            "0",
            s("L"),
            s("u"),
        );
    }
    let p = RustackDynamoDBStreams::new(store, DynamoDBStreamsConfig::default());
    let page = p
        .handle_list_streams(ListStreamsInput { limit: Some(2), ..Default::default() })
        .unwrap();
    let names: Vec<_> = page.streams.iter().map(|s| s.table_name.clone().unwrap()).collect();
    assert_eq!(names, vec!["a", "b"]);
    assert_eq!(page.last_evaluated_stream_arn.as_deref(), Some("arn:aws:dynamodb:r:0:table/b/stream/L"));
    let page = p
        .handle_list_streams(ListStreamsInput {
            limit: Some(2),
            exclusive_start_stream_arn: page.last_evaluated_stream_arn.clone(),
            ..Default::default()
        })
        .unwrap();
    let names: Vec<_> = page.streams.iter().map(|s| s.table_name.clone().unwrap()).collect();
    assert_eq!(names, vec!["c"]);
    assert_eq!(page.last_evaluated_stream_arn, None);
    let one = p
        .handle_list_streams(ListStreamsInput { table_name: Some(s("c")), limit: Some(0), ..Default::default() })
        .unwrap();
    assert_eq!(one.streams.len(), 1);
}

#[test]
fn provider_reads_records_through_iterators() {
    let (p, arn) = provider_with_records(3);
    let it = p
        .handle_get_shard_iterator(GetShardIteratorInput {
            stream_arn: arn.clone(),
            shard_id: s("shardId-u"),
            shard_iterator_type: ShardIteratorType::AtSequenceNumber,
            sequence_number: Some(s("000000000000000000002")),
        })
        .unwrap()
        .shard_iterator
        .unwrap();
    let out = p.handle_get_records(GetRecordsInput { shard_iterator: it, limit: Some(1) }).unwrap();
    assert_eq!(out.records.len(), 1);
    assert_eq!(out.records[0].event_id.as_deref(), Some("e1"));
    assert_eq!(out.records[0].event_name, Some(OperationType::Insert));
    let d = out.records[0].dynamodb.as_ref().unwrap();
    assert_eq!(d.size_bytes, Some(10));
    assert_eq!(d.keys[0].1.s.as_deref(), Some("1"));
    let next = out.next_shard_iterator.unwrap();
    assert!(next.ends_with("|2"));
    let out = p.handle_get_records(GetRecordsInput { shard_iterator: next, limit: None }).unwrap();
    assert_eq!(out.records.len(), 1);
    assert!(out.next_shard_iterator.unwrap().ends_with("|3"));

    let err = p
        .handle_get_shard_iterator(GetShardIteratorInput {
            stream_arn: arn.clone(),
            shard_id: s("shardId-u"),
            shard_iterator_type: ShardIteratorType::AfterSequenceNumber,
            sequence_number: None,
        })
        .unwrap_err();
    assert_eq!(err.code, DynamoDBStreamsErrorCode::ValidationException);
    assert_eq!(err.message, "SequenceNumber is required for AFTER_SEQUENCE_NUMBER");
    let err = p
        .handle_get_shard_iterator(GetShardIteratorInput {
            stream_arn: arn.clone(),
            shard_id: s("shardId-u"),
            shard_iterator_type: ShardIteratorType::AtSequenceNumber,
            sequence_number: Some(s("9")),
        })
        .unwrap_err();
    assert_eq!(err.code, DynamoDBStreamsErrorCode::TrimmedDataAccessException);
    let err = p
        .handle_get_shard_iterator(GetShardIteratorInput {
            stream_arn: arn.clone(),
            shard_id: s("other"),
            shard_iterator_type: ShardIteratorType::Latest,
            sequence_number: None,
        })
        .unwrap_err();
    assert_eq!(err.message, format!("Requested resource not found: Shard: other in Stream: {arn} not found"));
    let latest = p
        .handle_get_shard_iterator(GetShardIteratorInput {
            stream_arn: arn.clone(),
            shard_id: s("shardId-u"),
            shard_iterator_type: ShardIteratorType::Latest,
            sequence_number: None,
        })
        .unwrap();
    assert!(latest.shard_iterator.unwrap().ends_with("|3"));
    let err = p
        .handle_get_records(GetRecordsInput { shard_iterator: s("x|y|0"), limit: None })
        .unwrap_err();
    assert_eq!(err.code, DynamoDBStreamsErrorCode::ExpiredIteratorException);
}

#[test]
fn disabled_stream_read_to_end_has_no_next_iterator() {
    let (mut p, arn) = provider_with_records(2);
    p.store.disable_stream("T");
    let it = p
        .handle_get_shard_iterator(GetShardIteratorInput {
            stream_arn: arn.clone(),
            shard_id: s("shardId-u"),
            shard_iterator_type: ShardIteratorType::TrimHorizon,
            sequence_number: None,
        })
        .unwrap()
        .shard_iterator
        .unwrap();
    let out = p.handle_get_records(GetRecordsInput { shard_iterator: it, limit: Some(-5) }).unwrap();
    assert_eq!(out.records.len(), 2);
    assert!(out.next_shard_iterator.is_none());
}

#[test]
fn attribute_values_convert_member_by_member() {
    let v = TableAttributeValue::M(vec![
        (s("a"), TableAttributeValue::L(vec![TableAttributeValue::N(s("1")), TableAttributeValue::Bool(true)])),
        (s("b"), TableAttributeValue::Bs(vec![vec![1, 2]])),
    ]);
    let c = convert_attribute_value(&v);
    let m = c.m.unwrap();
    assert_eq!(m[0].0, "a");
    let l = m[0].1.l.as_ref().unwrap();
    assert_eq!(l[0].n.as_deref(), Some("1"));
    assert_eq!(l[1].bool, Some(true));
    assert_eq!(m[1].1.bs, Some(vec![vec![1u8, 2u8]]));
    assert!(c.s.is_none());
}

#[test]
fn model_enums_round_trip_wire_names() {
    assert_eq!(ShardIteratorType::from_wire("TRIM_HORIZON"), ShardIteratorType::TrimHorizon);
    assert_eq!(ShardIteratorType::TrimHorizon.as_str(), "TRIM_HORIZON");
    assert_eq!(StreamViewType::from_wire("bogus"), StreamViewType::default());
    assert_eq!(DynamoDBStreamsOperation::from_name("ListStreams"), Some(DynamoDBStreamsOperation::ListStreams));
    assert_eq!(DynamoDBStreamsOperation::from_name("Nope"), None);
    assert_eq!(DynamoDBStreamsErrorCode::TrimmedDataAccessException.as_str(), "TrimmedDataAccessException");
}

#[test]
fn list_streams_walks_every_stream_once_and_repeats_itself() {
    let mut store = StreamStore::new();
    for name in ["d", "b", "e", "a", "c"] {
        let _ = store.create_stream_with(
            name,
            "arn",
            vec![],
            TableStreamViewType::KeysOnly,
            "r",
            "0",
            s("L"),
            s("u"),
        );
    }
    let p = RustackDynamoDBStreams::new(store, DynamoDBStreamsConfig::default());
    let mut seen = Vec::new();
    let mut start = None;
    loop {
        let input = ListStreamsInput { limit: Some(2), exclusive_start_stream_arn: start.clone(), ..Default::default() };
        let page = p.handle_list_streams(input.clone()).unwrap();
        let again = p.handle_list_streams(input).unwrap();
        assert_eq!(page.last_evaluated_stream_arn, again.last_evaluated_stream_arn);
        assert_eq!(page.streams.len(), again.streams.len());
        seen.extend(page.streams.iter().map(|s| s.table_name.clone().unwrap()));
        match page.last_evaluated_stream_arn {
            Some(a) => start = Some(a),
            None => break,
        }
    }
    assert_eq!(seen, vec!["a", "b", "c", "d", "e"]);
}

#[test]
fn get_records_past_the_shard_end_is_expired() {
    let mut store = StreamStore::new();
    let arn = store.create_stream_with(
        "t",
        "arn",
        vec![],
        TableStreamViewType::KeysOnly,
        "r",
        "0",
        s("L"),
        s("u"),
    );
    let p = RustackDynamoDBStreams::new(store, DynamoDBStreamsConfig::default());
    let err = p
        .handle_get_records(GetRecordsInput {
            shard_iterator: format!("{arn}|shardId-u|5"),
            limit: None,
        })
        .unwrap_err();
    assert_eq!(err.code, DynamoDBStreamsErrorCode::ExpiredIteratorException);
    let ok = p
        .handle_get_records(GetRecordsInput { shard_iterator: format!("{arn}|shardId-u|0"), limit: None })
        .unwrap();
    assert!(ok.records.is_empty());
}

#[test]
fn sequence_numbers_increase_as_strings() {
    let mut store = StreamStore::new();
    let arn = store.create_stream_with(
        "T",
        "arn",
        vec![],
        TableStreamViewType::KeysOnly,
        "us-east-1",
        "0",
        s("L"),
        s("abc"),
    );
    for i in 0..12 {
        store.append_change_event_with(insert_event("T", &i.to_string()), "us-east-1", format!("e{i}"), 1);
    }
    let stream = store.get_stream_by_arn(&arn).unwrap();
    let seqs: Vec<String> = stream
        .shard
        .records
        .iter()
        .map(|r| r.dynamodb.sequence_number.clone().unwrap())
        .collect();
    assert_eq!(seqs[9], "000000000000000000010");
    for w in seqs.windows(2) {
        assert!(w[0] < w[1], "{} < {}", w[0], w[1]);
    }
    assert_eq!(stream.shard.starting_sequence_number.as_deref(), Some("000000000000000000001"));
}

#[test]
fn created_streams_get_a_uuid_shard_id() {
    let mut store = StreamStore::new();
    let arn = store.create_stream("T", "arn:t", vec![], TableStreamViewType::KeysOnly, "r", "0");
    let stream = store.get_stream_by_arn(&arn).unwrap();
    let id = stream.shard.shard_id.strip_prefix("shardId-").unwrap();
    assert_eq!(id.len(), 36);
    for (i, c) in id.chars().enumerate() {
        if [8, 13, 18, 23].contains(&i) {
            assert_eq!(c, '-');
        } else {
            assert!(c.is_ascii_hexdigit() && !c.is_ascii_uppercase());
        }
    }
    assert!(arn.starts_with("arn:aws:dynamodb:r:0:table/T/stream/"));
}

#[test]
fn created_streams_are_labelled_with_an_iso_time() {
    let mut store = StreamStore::new();
    store.create_stream("T", "arn:t", vec![], TableStreamViewType::KeysOnly, "r", "0");
    let label = store.get_stream_label("T").unwrap();
    assert_eq!(label.len(), 23);
    for (i, c) in label.chars().enumerate() {
        match i {
            4 | 7 => assert_eq!(c, '-'),
            10 => assert_eq!(c, 'T'),
            13 | 16 => assert_eq!(c, ':'),
            19 => assert_eq!(c, '.'),
            _ => assert!(c.is_ascii_digit()),
        }
    }
}
