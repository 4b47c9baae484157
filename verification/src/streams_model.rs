//! DynamoDB Streams service model: enumerations, errors, operations, and the
//! request and response shapes of its four operations.

use vstd::prelude::*;
use crate::text::{push_str_chars, str_eq, string_from_chars};

verus! {

/// DynamoDB Streams KeyType enum.
#[derive(Debug, Clone, Copy, PartialEq, Eq, Structural, Hash, Default)]
pub enum KeyType {
    #[default]
    Hash,
    Range,
}

impl KeyType {
    /// The wire-format name of this variant.
    pub open spec fn wire(self) -> Seq<char> {
        match self {
            KeyType::Hash => "HASH"@,
            KeyType::Range => "RANGE"@,
        }
    }

    /// The variant named by a wire string; unknown names give the default variant.
    pub open spec fn spec_from_wire(s: Seq<char>) -> KeyType {
        if s == "HASH"@ {
            KeyType::Hash
        } else if s == "RANGE"@ {
            KeyType::Range
        } else {
            KeyType::Hash
        }
    }

    /// Returns the string value of this enum variant.
    pub fn as_str(&self) -> (r: &'static str)
        ensures
            r@ == self.wire(),
    {
        match self {
            KeyType::Hash => "HASH",
            KeyType::Range => "RANGE",
        }
    }

    /// Parses a wire-format name; unknown names give the default variant.
    pub fn from_wire(s: &str) -> (r: KeyType)
        ensures
            r == KeyType::spec_from_wire(s@),
    {
        if str_eq(s, "HASH") {
            KeyType::Hash
        } else if str_eq(s, "RANGE") {
            KeyType::Range
        } else {
            KeyType::Hash
        }
    }

    /// Parsing the wire name of a variant gives that variant back.
    pub proof fn lemma_wire_roundtrip(self)
        ensures
            KeyType::spec_from_wire(self.wire()) == self,
    {
        reveal_strlit("HASH");
        reveal_strlit("RANGE");
        assert("HASH"@.len() == 4);
        assert("RANGE"@.len() == 5);
    }
}

/// DynamoDB Streams OperationType enum.
#[derive(Debug, Clone, Copy, PartialEq, Eq, Structural, Hash, Default)]
pub enum OperationType {
    #[default]
    Insert,
    Modify,
    Remove,
}

impl OperationType {
    /// The wire-format name of this variant.
    pub open spec fn wire(self) -> Seq<char> {
        match self {
            OperationType::Insert => "INSERT"@,
            OperationType::Modify => "MODIFY"@,
            OperationType::Remove => "REMOVE"@,
        }
    }

    /// The variant named by a wire string; unknown names give the default variant.
    pub open spec fn spec_from_wire(s: Seq<char>) -> OperationType {
        if s == "INSERT"@ {
            OperationType::Insert
        } else if s == "MODIFY"@ {
            OperationType::Modify
        } else if s == "REMOVE"@ {
            OperationType::Remove
        } else {
            OperationType::Insert
        }
    }

    /// Returns the string value of this enum variant.
    pub fn as_str(&self) -> (r: &'static str)
        ensures
            r@ == self.wire(),
    {
        match self {
            OperationType::Insert => "INSERT",
            OperationType::Modify => "MODIFY",
            OperationType::Remove => "REMOVE",
        }
    }

    /// Parses a wire-format name; unknown names give the default variant.
    pub fn from_wire(s: &str) -> (r: OperationType)
        ensures
            r == OperationType::spec_from_wire(s@),
    {
        if str_eq(s, "INSERT") {
            OperationType::Insert
        } else if str_eq(s, "MODIFY") {
            OperationType::Modify
        } else if str_eq(s, "REMOVE") {
            OperationType::Remove
        } else {
            OperationType::Insert
        }
    }

    /// Parsing the wire name of a variant gives that variant back.
    pub proof fn lemma_wire_roundtrip(self)
        ensures
            OperationType::spec_from_wire(self.wire()) == self,
    {
        reveal_strlit("INSERT");
        reveal_strlit("MODIFY");
        reveal_strlit("REMOVE");
        assert("INSERT"@.len() == 6);
        assert("MODIFY"@.len() == 6);
        assert("REMOVE"@.len() == 6);
        assert("INSERT"@[0] == 'I' && "MODIFY"@[0] == 'M');
        assert("INSERT"@[0] == 'I' && "REMOVE"@[0] == 'R');
        assert("MODIFY"@[0] == 'M' && "REMOVE"@[0] == 'R');
    }
}

/// DynamoDB Streams ShardFilterType enum.
#[derive(Debug, Clone, Copy, PartialEq, Eq, Structural, Hash, Default)]
pub enum ShardFilterType {
    #[default]
    ChildShards,
}

impl ShardFilterType {
    /// The wire-format name of this variant.
    pub open spec fn wire(self) -> Seq<char> {
        match self {
            ShardFilterType::ChildShards => "CHILD_SHARDS"@,
        }
    }

    /// The variant named by a wire string; unknown names give the default variant.
    pub open spec fn spec_from_wire(s: Seq<char>) -> ShardFilterType {
        if s == "CHILD_SHARDS"@ {
            ShardFilterType::ChildShards
        } else {
            ShardFilterType::ChildShards
        }
    }

    /// Returns the string value of this enum variant.
    pub fn as_str(&self) -> (r: &'static str)
        ensures
            r@ == self.wire(),
    {
        match self {
            ShardFilterType::ChildShards => "CHILD_SHARDS",
        }
    }

    /// Parses a wire-format name; unknown names give the default variant.
    pub fn from_wire(s: &str) -> (r: ShardFilterType)
        ensures
            r == ShardFilterType::spec_from_wire(s@),
    {
        if str_eq(s, "CHILD_SHARDS") {
            ShardFilterType::ChildShards
        } else {
            ShardFilterType::ChildShards
        }
    }

    /// Parsing the wire name of a variant gives that variant back.
    pub proof fn lemma_wire_roundtrip(self)
        ensures
            ShardFilterType::spec_from_wire(self.wire()) == self,
    {
        reveal_strlit("CHILD_SHARDS");
        assert("CHILD_SHARDS"@.len() == 12);
    }
}

/// DynamoDB Streams ShardIteratorType enum.
#[derive(Debug, Clone, Copy, PartialEq, Eq, Structural, Hash, Default)]
pub enum ShardIteratorType {
    #[default]
    AfterSequenceNumber,
    AtSequenceNumber,
    Latest,
    TrimHorizon,
}

impl ShardIteratorType {
    /// The wire-format name of this variant.
    pub open spec fn wire(self) -> Seq<char> {
        match self {
            ShardIteratorType::AfterSequenceNumber => "AFTER_SEQUENCE_NUMBER"@,
            ShardIteratorType::AtSequenceNumber => "AT_SEQUENCE_NUMBER"@,
            ShardIteratorType::Latest => "LATEST"@,
            ShardIteratorType::TrimHorizon => "TRIM_HORIZON"@,
        }
    }

    /// The variant named by a wire string; unknown names give the default variant.
    pub open spec fn spec_from_wire(s: Seq<char>) -> ShardIteratorType {
        if s == "AFTER_SEQUENCE_NUMBER"@ {
            ShardIteratorType::AfterSequenceNumber
        } else if s == "AT_SEQUENCE_NUMBER"@ {
            ShardIteratorType::AtSequenceNumber
        } else if s == "LATEST"@ {
            ShardIteratorType::Latest
        } else if s == "TRIM_HORIZON"@ {
            ShardIteratorType::TrimHorizon
        } else {
            ShardIteratorType::AfterSequenceNumber
        }
    }

    /// Returns the string value of this enum variant.
    pub fn as_str(&self) -> (r: &'static str)
        ensures
            r@ == self.wire(),
    {
        match self {
            ShardIteratorType::AfterSequenceNumber => "AFTER_SEQUENCE_NUMBER",
            ShardIteratorType::AtSequenceNumber => "AT_SEQUENCE_NUMBER",
            ShardIteratorType::Latest => "LATEST",
            ShardIteratorType::TrimHorizon => "TRIM_HORIZON",
        }
    }

    /// Parses a wire-format name; unknown names give the default variant.
    pub fn from_wire(s: &str) -> (r: ShardIteratorType)
        ensures
            r == ShardIteratorType::spec_from_wire(s@),
    {
        if str_eq(s, "AFTER_SEQUENCE_NUMBER") {
            ShardIteratorType::AfterSequenceNumber
        } else if str_eq(s, "AT_SEQUENCE_NUMBER") {
            ShardIteratorType::AtSequenceNumber
        } else if str_eq(s, "LATEST") {
            ShardIteratorType::Latest
        } else if str_eq(s, "TRIM_HORIZON") {
            ShardIteratorType::TrimHorizon
        } else {
            ShardIteratorType::AfterSequenceNumber
        }
    }

    /// Parsing the wire name of a variant gives that variant back.
    pub proof fn lemma_wire_roundtrip(self)
        ensures
            ShardIteratorType::spec_from_wire(self.wire()) == self,
    {
        reveal_strlit("AFTER_SEQUENCE_NUMBER");
        reveal_strlit("AT_SEQUENCE_NUMBER");
        reveal_strlit("LATEST");
        reveal_strlit("TRIM_HORIZON");
        assert("AFTER_SEQUENCE_NUMBER"@.len() == 21);
        assert("AT_SEQUENCE_NUMBER"@.len() == 18);
        assert("LATEST"@.len() == 6);
        assert("TRIM_HORIZON"@.len() == 12);
    }
}

/// DynamoDB Streams StreamStatus enum.
#[derive(Debug, Clone, Copy, PartialEq, Eq, Structural, Hash, Default)]
pub enum StreamStatus {
    #[default]
    Disabled,
    Disabling,
    Enabled,
    Enabling,
}

impl StreamStatus {
    /// The wire-format name of this variant.
    pub open spec fn wire(self) -> Seq<char> {
        match self {
            StreamStatus::Disabled => "DISABLED"@,
            StreamStatus::Disabling => "DISABLING"@,
            StreamStatus::Enabled => "ENABLED"@,
            StreamStatus::Enabling => "ENABLING"@,
        }
    }

    /// The variant named by a wire string; unknown names give the default variant.
    pub open spec fn spec_from_wire(s: Seq<char>) -> StreamStatus {
        if s == "DISABLED"@ {
            StreamStatus::Disabled
        } else if s == "DISABLING"@ {
            StreamStatus::Disabling
        } else if s == "ENABLED"@ {
            StreamStatus::Enabled
        } else if s == "ENABLING"@ {
            StreamStatus::Enabling
        } else {
            StreamStatus::Disabled
        }
    }

    /// Returns the string value of this enum variant.
    pub fn as_str(&self) -> (r: &'static str)
        ensures
            r@ == self.wire(),
    {
        match self {
            StreamStatus::Disabled => "DISABLED",
            StreamStatus::Disabling => "DISABLING",
            StreamStatus::Enabled => "ENABLED",
            StreamStatus::Enabling => "ENABLING",
        }
    }

    /// Parses a wire-format name; unknown names give the default variant.
    pub fn from_wire(s: &str) -> (r: StreamStatus)
        ensures
            r == StreamStatus::spec_from_wire(s@),
    {
        if str_eq(s, "DISABLED") {
            StreamStatus::Disabled
        } else if str_eq(s, "DISABLING") {
            StreamStatus::Disabling
        } else if str_eq(s, "ENABLED") {
            StreamStatus::Enabled
        } else if str_eq(s, "ENABLING") {
            StreamStatus::Enabling
        } else {
            StreamStatus::Disabled
        }
    }

    /// Parsing the wire name of a variant gives that variant back.
    pub proof fn lemma_wire_roundtrip(self)
        ensures
            StreamStatus::spec_from_wire(self.wire()) == self,
    {
        reveal_strlit("DISABLED");
        reveal_strlit("DISABLING");
        reveal_strlit("ENABLED");
        reveal_strlit("ENABLING");
        assert("DISABLED"@.len() == 8);
        assert("DISABLING"@.len() == 9);
        assert("ENABLED"@.len() == 7);
        assert("ENABLING"@.len() == 8);
        assert("DISABLED"@[0] == 'D' && "ENABLING"@[0] == 'E');
    }
}

/// DynamoDB Streams StreamViewType enum.
#[derive(Debug, Clone, Copy, PartialEq, Eq, Structural, Hash, Default)]
pub enum StreamViewType {
    #[default]
    KeysOnly,
    NewAndOldImages,
    NewImage,
    OldImage,
}

impl StreamViewType {
    /// The wire-format name of this variant.
    pub open spec fn wire(self) -> Seq<char> {
        match self {
            StreamViewType::KeysOnly => "KEYS_ONLY"@,
            StreamViewType::NewAndOldImages => "NEW_AND_OLD_IMAGES"@,
            StreamViewType::NewImage => "NEW_IMAGE"@,
            StreamViewType::OldImage => "OLD_IMAGE"@,
        }
    }

    /// The variant named by a wire string; unknown names give the default variant.
    pub open spec fn spec_from_wire(s: Seq<char>) -> StreamViewType {
        if s == "KEYS_ONLY"@ {
            StreamViewType::KeysOnly
        } else if s == "NEW_AND_OLD_IMAGES"@ {
            StreamViewType::NewAndOldImages
        } else if s == "NEW_IMAGE"@ {
            StreamViewType::NewImage
        } else if s == "OLD_IMAGE"@ {
            StreamViewType::OldImage
        } else {
            StreamViewType::KeysOnly
        }
    }

    /// Returns the string value of this enum variant.
    pub fn as_str(&self) -> (r: &'static str)
        ensures
            r@ == self.wire(),
    {
        match self {
            StreamViewType::KeysOnly => "KEYS_ONLY",
            StreamViewType::NewAndOldImages => "NEW_AND_OLD_IMAGES",
            StreamViewType::NewImage => "NEW_IMAGE",
            StreamViewType::OldImage => "OLD_IMAGE",
        }
    }

    /// Parses a wire-format name; unknown names give the default variant.
    pub fn from_wire(s: &str) -> (r: StreamViewType)
        ensures
            r == StreamViewType::spec_from_wire(s@),
    {
        if str_eq(s, "KEYS_ONLY") {
            StreamViewType::KeysOnly
        } else if str_eq(s, "NEW_AND_OLD_IMAGES") {
            StreamViewType::NewAndOldImages
        } else if str_eq(s, "NEW_IMAGE") {
            StreamViewType::NewImage
        } else if str_eq(s, "OLD_IMAGE") {
            StreamViewType::OldImage
        } else {
            StreamViewType::KeysOnly
        }
    }

    /// Parsing the wire name of a variant gives that variant back.
    pub proof fn lemma_wire_roundtrip(self)
        ensures
            StreamViewType::spec_from_wire(self.wire()) == self,
    {
        reveal_strlit("KEYS_ONLY");
        reveal_strlit("NEW_AND_OLD_IMAGES");
        reveal_strlit("NEW_IMAGE");
        reveal_strlit("OLD_IMAGE");
        assert("KEYS_ONLY"@.len() == 9);
        assert("NEW_AND_OLD_IMAGES"@.len() == 18);
        assert("NEW_IMAGE"@.len() == 9);
        assert("OLD_IMAGE"@.len() == 9);
        assert("KEYS_ONLY"@[0] == 'K' && "NEW_IMAGE"@[0] == 'N');
        assert("KEYS_ONLY"@[0] == 'K' && "OLD_IMAGE"@[0] == 'O');
        assert("NEW_IMAGE"@[0] == 'N' && "OLD_IMAGE"@[0] == 'O');
    }
}

/// Well-known DynamoDB Streams error codes.
#[derive(Debug, Clone, Copy, PartialEq, Eq, Structural, Hash, Default)]
pub enum DynamoDBStreamsErrorCode {
    #[default]
    ExpiredIteratorException,
    InternalServerError,
    InvalidAction,
    LimitExceededException,
    MissingAction,
    ResourceNotFoundException,
    TrimmedDataAccessException,
    ValidationException,
}

impl DynamoDBStreamsErrorCode {
    /// The short error code name.
    pub open spec fn name(self) -> Seq<char> {
        match self {
            DynamoDBStreamsErrorCode::ExpiredIteratorException => "ExpiredIteratorException"@,
            DynamoDBStreamsErrorCode::InternalServerError => "InternalServerError"@,
            DynamoDBStreamsErrorCode::InvalidAction => "InvalidAction"@,
            DynamoDBStreamsErrorCode::LimitExceededException => "LimitExceededException"@,
            DynamoDBStreamsErrorCode::MissingAction => "MissingAction"@,
            DynamoDBStreamsErrorCode::ResourceNotFoundException => "ResourceNotFoundException"@,
            DynamoDBStreamsErrorCode::TrimmedDataAccessException => "TrimmedDataAccessException"@,
            DynamoDBStreamsErrorCode::ValidationException => "ValidationException"@,
        }
    }

    /// The HTTP status that goes with the code: 500 for an internal error, 400 otherwise.
    pub open spec fn status(self) -> u16 {
        match self {
            DynamoDBStreamsErrorCode::InternalServerError => 500,
            _ => 400,
        }
    }

    /// Returns the short error type string for the JSON `__type` field.
    pub fn error_type(&self) -> (r: &'static str)
        ensures
            r@ == self.name(),
    {
        self.as_str()
    }

    /// Returns the short error code string.
    pub fn as_str(&self) -> (r: &'static str)
        ensures
            r@ == self.name(),
    {
        match self {
            DynamoDBStreamsErrorCode::ExpiredIteratorException => "ExpiredIteratorException",
            DynamoDBStreamsErrorCode::InternalServerError => "InternalServerError",
            DynamoDBStreamsErrorCode::InvalidAction => "InvalidAction",
            DynamoDBStreamsErrorCode::LimitExceededException => "LimitExceededException",
            DynamoDBStreamsErrorCode::MissingAction => "MissingAction",
            DynamoDBStreamsErrorCode::ResourceNotFoundException => "ResourceNotFoundException",
            DynamoDBStreamsErrorCode::TrimmedDataAccessException => "TrimmedDataAccessException",
            DynamoDBStreamsErrorCode::ValidationException => "ValidationException",
        }
    }

    /// Returns the default HTTP status code for this error.
    pub fn default_status_code(&self) -> (r: u16)
        ensures
            r == self.status(),
    {
        match self {
            DynamoDBStreamsErrorCode::InternalServerError => 500,
            _ => 400,
        }
    }
}

/// A DynamoDB Streams error response.
#[derive(Debug, Clone)]
pub struct DynamoDBStreamsError {
    /// The error code.
    pub code: DynamoDBStreamsErrorCode,
    /// A human-readable error message.
    pub message: String,
    /// The HTTP status code.
    pub status_code: u16,
}

impl DynamoDBStreamsError {
    /// Create a new error from a code; the message is the code's name.
    pub fn new(code: DynamoDBStreamsErrorCode) -> (r: Self)
        ensures
            r.code == code,
            r.message@ == code.name(),
            r.status_code == code.status(),
    {
        let name = code.as_str();
        DynamoDBStreamsError {
            status_code: code.default_status_code(),
            message: name.to_owned(),
            code,
        }
    }

    /// Create a new error with a custom message.
    pub fn with_message(code: DynamoDBStreamsErrorCode, message: String) -> (r: Self)
        ensures
            r.code == code,
            r.message == message,
            r.status_code == code.status(),
    {
        DynamoDBStreamsError { status_code: code.default_status_code(), message, code }
    }

    /// Returns the `__type` string for the JSON error response.
    pub fn error_type(&self) -> (r: &'static str)
        ensures
            r@ == self.code.name(),
    {
        self.code.error_type()
    }

    /// Internal error.
    pub fn internal_error(message: String) -> (r: Self)
        ensures
            r.code == DynamoDBStreamsErrorCode::InternalServerError,
            r.message == message,
            r.status_code == 500,
    {
        Self::with_message(DynamoDBStreamsErrorCode::InternalServerError, message)
    }

    /// Missing action header.
    pub fn missing_action() -> (r: Self)
        ensures
            r.code == DynamoDBStreamsErrorCode::MissingAction,
            r.message@ == "Missing required header: X-Amz-Target"@,
            r.status_code == 400,
    {
        Self::with_message(
            DynamoDBStreamsErrorCode::MissingAction,
            "Missing required header: X-Amz-Target".to_owned(),
        )
    }

    /// Unknown operation: the message is `Operation {target} is not supported.`.
    pub fn unknown_operation(target: &str) -> (r: Self)
        ensures
            r.code == DynamoDBStreamsErrorCode::InvalidAction,
            r.message@ == "Operation "@ + target@ + " is not supported."@,
            r.status_code == 400,
    {
        let mut m: Vec<char> = Vec::new();
        push_str_chars(&mut m, "Operation ");
        push_str_chars(&mut m, target);
        push_str_chars(&mut m, " is not supported.");
        Self::with_message(DynamoDBStreamsErrorCode::InvalidAction, string_from_chars(&m))
    }

    /// Not implemented: the message is `Operation {operation} is not yet implemented`.
    pub fn not_implemented(operation: &str) -> (r: Self)
        ensures
            r.code == DynamoDBStreamsErrorCode::InternalServerError,
            r.message@ == "Operation "@ + operation@ + " is not yet implemented"@,
            r.status_code == 500,
    {
        let mut m: Vec<char> = Vec::new();
        push_str_chars(&mut m, "Operation ");
        push_str_chars(&mut m, operation);
        push_str_chars(&mut m, " is not yet implemented");
        Self::with_message(DynamoDBStreamsErrorCode::InternalServerError, string_from_chars(&m))
    }

    /// Resource not found.
    pub fn resource_not_found(message: String) -> (r: Self)
        ensures
            r.code == DynamoDBStreamsErrorCode::ResourceNotFoundException,
            r.message == message,
            r.status_code == 400,
    {
        Self::with_message(DynamoDBStreamsErrorCode::ResourceNotFoundException, message)
    }

    /// Validation error.
    pub fn validation(message: String) -> (r: Self)
        ensures
            r.code == DynamoDBStreamsErrorCode::ValidationException,
            r.message == message,
            r.status_code == 400,
    {
        Self::with_message(DynamoDBStreamsErrorCode::ValidationException, message)
    }

    /// Expired iterator.
    pub fn expired_iterator(message: String) -> (r: Self)
        ensures
            r.code == DynamoDBStreamsErrorCode::ExpiredIteratorException,
            r.message == message,
            r.status_code == 400,
    {
        Self::with_message(DynamoDBStreamsErrorCode::ExpiredIteratorException, message)
    }

    /// Trimmed data access.
    pub fn trimmed_data_access(message: String) -> (r: Self)
        ensures
            r.code == DynamoDBStreamsErrorCode::TrimmedDataAccessException,
            r.message == message,
            r.status_code == 400,
    {
        Self::with_message(DynamoDBStreamsErrorCode::TrimmedDataAccessException, message)
    }

    /// Serialization error (reported as a validation error).
    pub fn serialization_exception(message: String) -> (r: Self)
        ensures
            r.code == DynamoDBStreamsErrorCode::ValidationException,
            r.message == message,
            r.status_code == 400,
    {
        Self::with_message(DynamoDBStreamsErrorCode::ValidationException, message)
    }
}

/// All supported DynamoDB Streams operations.
#[derive(Debug, Clone, Copy, PartialEq, Eq, Structural, Hash)]
pub enum DynamoDBStreamsOperation {
    DescribeStream,
    GetShardIterator,
    GetRecords,
    ListStreams,
}

impl DynamoDBStreamsOperation {
    /// The AWS operation name.
    pub open spec fn name(self) -> Seq<char> {
        match self {
            DynamoDBStreamsOperation::DescribeStream => "DescribeStream"@,
            DynamoDBStreamsOperation::GetShardIterator => "GetShardIterator"@,
            DynamoDBStreamsOperation::GetRecords => "GetRecords"@,
            DynamoDBStreamsOperation::ListStreams => "ListStreams"@,
        }
    }

    /// The operation whose name is `s`, if any.
    pub open spec fn spec_from_name(s: Seq<char>) -> Option<DynamoDBStreamsOperation> {
        if s == "DescribeStream"@ {
            Some(DynamoDBStreamsOperation::DescribeStream)
        } else if s == "GetShardIterator"@ {
            Some(DynamoDBStreamsOperation::GetShardIterator)
        } else if s == "GetRecords"@ {
            Some(DynamoDBStreamsOperation::GetRecords)
        } else if s == "ListStreams"@ {
            Some(DynamoDBStreamsOperation::ListStreams)
        } else {
            None
        }
    }

    /// Returns the AWS operation name string.
    pub fn as_str(&self) -> (r: &'static str)
        ensures
            r@ == self.name(),
    {
        match self {
            DynamoDBStreamsOperation::DescribeStream => "DescribeStream",
            DynamoDBStreamsOperation::GetShardIterator => "GetShardIterator",
            DynamoDBStreamsOperation::GetRecords => "GetRecords",
            DynamoDBStreamsOperation::ListStreams => "ListStreams",
        }
    }

    /// Parse an operation name string.
    pub fn from_name(name: &str) -> (r: Option<DynamoDBStreamsOperation>)
        ensures
            r == DynamoDBStreamsOperation::spec_from_name(name@),
    {
        if str_eq(name, "DescribeStream") {
            Some(DynamoDBStreamsOperation::DescribeStream)
        } else if str_eq(name, "GetShardIterator") {
            Some(DynamoDBStreamsOperation::GetShardIterator)
        } else if str_eq(name, "GetRecords") {
            Some(DynamoDBStreamsOperation::GetRecords)
        } else if str_eq(name, "ListStreams") {
            Some(DynamoDBStreamsOperation::ListStreams)
        } else {
            None
        }
    }

    /// Parsing the name of an operation gives that operation back.
    pub proof fn lemma_name_roundtrip(self)
        ensures
            DynamoDBStreamsOperation::spec_from_name(self.name()) == Some(self),
    {
        reveal_strlit("DescribeStream");
        reveal_strlit("GetShardIterator");
        reveal_strlit("GetRecords");
        reveal_strlit("ListStreams");
        assert("DescribeStream"@.len() == 14);
        assert("GetShardIterator"@.len() == 16);
        assert("GetRecords"@.len() == 10);
        assert("ListStreams"@.len() == 11);
    }
}

/// DynamoDB Streams AttributeValue (exactly one member is normally set).
#[derive(Debug, Default)]
pub struct AttributeValue {
    pub ns: Option<Vec<String>>,
    pub null: Option<bool>,
    pub b: Option<Vec<u8>>,
    pub bool: Option<bool>,
    pub l: Option<Vec<AttributeValue>>,
    pub bs: Option<Vec<Vec<u8>>>,
    pub ss: Option<Vec<String>>,
    pub s: Option<String>,
    /// Map members, as (name, value) pairs.
    pub m: Option<Vec<(String, AttributeValue)>>,
    pub n: Option<String>,
}

/// DynamoDB Streams Identity.
#[derive(Debug, Clone, Default)]
pub struct Identity {
    pub principal_id: Option<String>,
    /// The identity type (the `Type` member).
    pub identity_type: Option<String>,
}

/// DynamoDB Streams KeySchemaElement.
#[derive(Debug, Clone, Default)]
pub struct KeySchemaElement {
    pub attribute_name: String,
    pub key_type: KeyType,
}

/// DynamoDB Streams Record.
#[derive(Debug, Default)]
pub struct Record {
    pub aws_region: Option<String>,
    pub dynamodb: Option<StreamRecord>,
    pub event_id: Option<String>,
    pub event_name: Option<OperationType>,
    pub event_source: Option<String>,
    pub event_version: Option<String>,
    pub user_identity: Option<Identity>,
}

/// DynamoDB Streams SequenceNumberRange.
#[derive(Debug, Clone, Default)]
pub struct SequenceNumberRange {
    pub ending_sequence_number: Option<String>,
    pub starting_sequence_number: Option<String>,
}

/// DynamoDB Streams Shard.
#[derive(Debug, Clone, Default)]
pub struct Shard {
    pub parent_shard_id: Option<String>,
    pub sequence_number_range: Option<SequenceNumberRange>,
    pub shard_id: Option<String>,
}

/// DynamoDB Streams ShardFilter.
#[derive(Debug, Clone, Default)]
pub struct ShardFilter {
    pub shard_id: Option<String>,
    /// The filter type (the `Type` member).
    pub filter_type: Option<ShardFilterType>,
}

/// DynamoDB Streams Stream.
#[derive(Debug, Clone, Default)]
pub struct Stream {
    pub stream_arn: Option<String>,
    pub stream_label: Option<String>,
    pub table_name: Option<String>,
}

/// DynamoDB Streams StreamDescription.
#[derive(Debug, Clone, Default)]
pub struct StreamDescription {
    /// Creation time in whole epoch seconds.
    pub creation_request_date_time: Option<i64>,
    pub key_schema: Vec<KeySchemaElement>,
    pub last_evaluated_shard_id: Option<String>,
    pub shards: Vec<Shard>,
    pub stream_arn: Option<String>,
    pub stream_label: Option<String>,
    pub stream_status: Option<StreamStatus>,
    pub stream_view_type: Option<StreamViewType>,
    pub table_name: Option<String>,
}

/// DynamoDB Streams StreamRecord.
#[derive(Debug, Default)]
pub struct StreamRecord {
    /// Approximate creation time in whole epoch seconds.
    pub approximate_creation_date_time: Option<i64>,
    pub keys: Vec<(String, AttributeValue)>,
    pub new_image: Vec<(String, AttributeValue)>,
    pub old_image: Vec<(String, AttributeValue)>,
    pub sequence_number: Option<String>,
    pub size_bytes: Option<i64>,
    pub stream_view_type: Option<StreamViewType>,
}

/// DynamoDB Streams DescribeStreamInput.
#[derive(Debug, Clone, Default)]
pub struct DescribeStreamInput {
    pub exclusive_start_shard_id: Option<String>,
    pub limit: Option<i32>,
    pub shard_filter: Option<ShardFilter>,
    pub stream_arn: String,
}

/// DynamoDB Streams GetRecordsInput.
#[derive(Debug, Clone, Default)]
pub struct GetRecordsInput {
    pub limit: Option<i32>,
    pub shard_iterator: String,
}

/// DynamoDB Streams GetShardIteratorInput.
#[derive(Debug, Clone, Default)]
pub struct GetShardIteratorInput {
    pub sequence_number: Option<String>,
    pub shard_id: String,
    pub shard_iterator_type: ShardIteratorType,
    pub stream_arn: String,
}

/// DynamoDB Streams ListStreamsInput.
#[derive(Debug, Clone, Default)]
pub struct ListStreamsInput {
    pub exclusive_start_stream_arn: Option<String>,
    pub limit: Option<i32>,
    pub table_name: Option<String>,
}

/// DynamoDB Streams DescribeStreamOutput.
#[derive(Debug, Clone, Default)]
pub struct DescribeStreamOutput {
    pub stream_description: Option<StreamDescription>,
}

/// DynamoDB Streams GetRecordsOutput.
#[derive(Debug, Default)]
pub struct GetRecordsOutput {
    pub next_shard_iterator: Option<String>,
    pub records: Vec<Record>,
}

/// DynamoDB Streams GetShardIteratorOutput.
#[derive(Debug, Clone, Default)]
pub struct GetShardIteratorOutput {
    pub shard_iterator: Option<String>,
}

/// DynamoDB Streams ListStreamsOutput.
#[derive(Debug, Clone, Default)]
pub struct ListStreamsOutput {
    pub last_evaluated_stream_arn: Option<String>,
    pub streams: Vec<Stream>,
}

/// Each KeyType variant has its wire name (`HASH` for `Hash`, and so on),
/// and reading that wire name gives the variant back.
pub proof fn lemma_key_type_wire_names()
    ensures
        KeyType::Hash.wire() == "HASH"@,
        KeyType::Range.wire() == "RANGE"@,
        KeyType::spec_from_wire("HASH"@) == KeyType::Hash,
        KeyType::spec_from_wire("RANGE"@) == KeyType::Range,
{
    reveal_strlit("HASH");
    reveal_strlit("RANGE");
    assert("RANGE"@ != "HASH"@) by { assert("RANGE"@.len() != "HASH"@.len()); }
}

/// Each OperationType variant has its wire name (`INSERT` for `Insert`, and so on),
/// and reading that wire name gives the variant back.
pub proof fn lemma_operation_type_wire_names()
    ensures
        OperationType::Insert.wire() == "INSERT"@,
        OperationType::Modify.wire() == "MODIFY"@,
        OperationType::Remove.wire() == "REMOVE"@,
        OperationType::spec_from_wire("INSERT"@) == OperationType::Insert,
        OperationType::spec_from_wire("MODIFY"@) == OperationType::Modify,
        OperationType::spec_from_wire("REMOVE"@) == OperationType::Remove,
{
    reveal_strlit("INSERT");
    reveal_strlit("MODIFY");
    reveal_strlit("REMOVE");
    assert("MODIFY"@ != "INSERT"@) by { assert("MODIFY"@[0] != "INSERT"@[0]); }
    assert("REMOVE"@ != "INSERT"@) by { assert("REMOVE"@[0] != "INSERT"@[0]); }
    assert("REMOVE"@ != "MODIFY"@) by { assert("REMOVE"@[0] != "MODIFY"@[0]); }
}

/// Each ShardFilterType variant has its wire name (`CHILD_SHARDS` for `ChildShards`, and so on),
/// and reading that wire name gives the variant back.
pub proof fn lemma_shard_filter_type_wire_names()
    ensures
        ShardFilterType::ChildShards.wire() == "CHILD_SHARDS"@,
        ShardFilterType::spec_from_wire("CHILD_SHARDS"@) == ShardFilterType::ChildShards,
{
    reveal_strlit("CHILD_SHARDS");
}

/// Each ShardIteratorType variant has its wire name (`AFTER_SEQUENCE_NUMBER` for `AfterSequenceNumber`, and so on),
/// and reading that wire name gives the variant back.
pub proof fn lemma_shard_iterator_type_wire_names()
    ensures
        ShardIteratorType::AfterSequenceNumber.wire() == "AFTER_SEQUENCE_NUMBER"@,
        ShardIteratorType::AtSequenceNumber.wire() == "AT_SEQUENCE_NUMBER"@,
        ShardIteratorType::Latest.wire() == "LATEST"@,
        ShardIteratorType::TrimHorizon.wire() == "TRIM_HORIZON"@,
        ShardIteratorType::spec_from_wire("AFTER_SEQUENCE_NUMBER"@) == ShardIteratorType::AfterSequenceNumber,
        ShardIteratorType::spec_from_wire("AT_SEQUENCE_NUMBER"@) == ShardIteratorType::AtSequenceNumber,
        ShardIteratorType::spec_from_wire("LATEST"@) == ShardIteratorType::Latest,
        ShardIteratorType::spec_from_wire("TRIM_HORIZON"@) == ShardIteratorType::TrimHorizon,
{
    reveal_strlit("AFTER_SEQUENCE_NUMBER");
    reveal_strlit("AT_SEQUENCE_NUMBER");
    reveal_strlit("LATEST");
    reveal_strlit("TRIM_HORIZON");
    assert("AT_SEQUENCE_NUMBER"@ != "AFTER_SEQUENCE_NUMBER"@) by { assert("AT_SEQUENCE_NUMBER"@.len() != "AFTER_SEQUENCE_NUMBER"@.len()); }
    assert("LATEST"@ != "AFTER_SEQUENCE_NUMBER"@) by { assert("LATEST"@.len() != "AFTER_SEQUENCE_NUMBER"@.len()); }
    assert("LATEST"@ != "AT_SEQUENCE_NUMBER"@) by { assert("LATEST"@.len() != "AT_SEQUENCE_NUMBER"@.len()); }
    assert("TRIM_HORIZON"@ != "AFTER_SEQUENCE_NUMBER"@) by { assert("TRIM_HORIZON"@.len() != "AFTER_SEQUENCE_NUMBER"@.len()); }
    assert("TRIM_HORIZON"@ != "AT_SEQUENCE_NUMBER"@) by { assert("TRIM_HORIZON"@.len() != "AT_SEQUENCE_NUMBER"@.len()); }
    assert("TRIM_HORIZON"@ != "LATEST"@) by { assert("TRIM_HORIZON"@.len() != "LATEST"@.len()); }
}

/// Each StreamStatus variant has its wire name (`DISABLED` for `Disabled`, and so on),
/// and reading that wire name gives the variant back.
pub proof fn lemma_stream_status_wire_names()
    ensures
        StreamStatus::Disabled.wire() == "DISABLED"@,
        StreamStatus::Disabling.wire() == "DISABLING"@,
        StreamStatus::Enabled.wire() == "ENABLED"@,
        StreamStatus::Enabling.wire() == "ENABLING"@,
        StreamStatus::spec_from_wire("DISABLED"@) == StreamStatus::Disabled,
        StreamStatus::spec_from_wire("DISABLING"@) == StreamStatus::Disabling,
        StreamStatus::spec_from_wire("ENABLED"@) == StreamStatus::Enabled,
        StreamStatus::spec_from_wire("ENABLING"@) == StreamStatus::Enabling,
{
    reveal_strlit("DISABLED");
    reveal_strlit("DISABLING");
    reveal_strlit("ENABLED");
    reveal_strlit("ENABLING");
    assert("DISABLING"@ != "DISABLED"@) by { assert("DISABLING"@.len() != "DISABLED"@.len()); }
    assert("ENABLED"@ != "DISABLED"@) by { assert("ENABLED"@.len() != "DISABLED"@.len()); }
    assert("ENABLED"@ != "DISABLING"@) by { assert("ENABLED"@.len() != "DISABLING"@.len()); }
    assert("ENABLING"@ != "DISABLED"@) by { assert("ENABLING"@[0] != "DISABLED"@[0]); }
    assert("ENABLING"@ != "DISABLING"@) by { assert("ENABLING"@.len() != "DISABLING"@.len()); }
    assert("ENABLING"@ != "ENABLED"@) by { assert("ENABLING"@.len() != "ENABLED"@.len()); }
}

/// Each StreamViewType variant has its wire name (`KEYS_ONLY` for `KeysOnly`, and so on),
/// and reading that wire name gives the variant back.
pub proof fn lemma_stream_view_type_wire_names()
    ensures
        StreamViewType::KeysOnly.wire() == "KEYS_ONLY"@,
        StreamViewType::NewAndOldImages.wire() == "NEW_AND_OLD_IMAGES"@,
        StreamViewType::NewImage.wire() == "NEW_IMAGE"@,
        StreamViewType::OldImage.wire() == "OLD_IMAGE"@,
        StreamViewType::spec_from_wire("KEYS_ONLY"@) == StreamViewType::KeysOnly,
        StreamViewType::spec_from_wire("NEW_AND_OLD_IMAGES"@) == StreamViewType::NewAndOldImages,
        StreamViewType::spec_from_wire("NEW_IMAGE"@) == StreamViewType::NewImage,
        StreamViewType::spec_from_wire("OLD_IMAGE"@) == StreamViewType::OldImage,
{
    reveal_strlit("KEYS_ONLY");
    reveal_strlit("NEW_AND_OLD_IMAGES");
    reveal_strlit("NEW_IMAGE");
    reveal_strlit("OLD_IMAGE");
    assert("NEW_AND_OLD_IMAGES"@ != "KEYS_ONLY"@) by { assert("NEW_AND_OLD_IMAGES"@.len() != "KEYS_ONLY"@.len()); }
    assert("NEW_IMAGE"@ != "KEYS_ONLY"@) by { assert("NEW_IMAGE"@[0] != "KEYS_ONLY"@[0]); }
    assert("NEW_IMAGE"@ != "NEW_AND_OLD_IMAGES"@) by { assert("NEW_IMAGE"@.len() != "NEW_AND_OLD_IMAGES"@.len()); }
    assert("OLD_IMAGE"@ != "KEYS_ONLY"@) by { assert("OLD_IMAGE"@[0] != "KEYS_ONLY"@[0]); }
    assert("OLD_IMAGE"@ != "NEW_AND_OLD_IMAGES"@) by { assert("OLD_IMAGE"@.len() != "NEW_AND_OLD_IMAGES"@.len()); }
    assert("OLD_IMAGE"@ != "NEW_IMAGE"@) by { assert("OLD_IMAGE"@[0] != "NEW_IMAGE"@[0]); }
}

/// An internal error answers with HTTP status 500; every other error is the
/// client's and answers 400.
pub proof fn lemma_streams_error_statuses()
    ensures
        DynamoDBStreamsErrorCode::ExpiredIteratorException.status() == 400,
        DynamoDBStreamsErrorCode::InternalServerError.status() == 500,
        DynamoDBStreamsErrorCode::InvalidAction.status() == 400,
        DynamoDBStreamsErrorCode::LimitExceededException.status() == 400,
        DynamoDBStreamsErrorCode::MissingAction.status() == 400,
        DynamoDBStreamsErrorCode::ResourceNotFoundException.status() == 400,
        DynamoDBStreamsErrorCode::TrimmedDataAccessException.status() == 400,
        DynamoDBStreamsErrorCode::ValidationException.status() == 400,
{
}

/// Each DynamoDBStreamsErrorCode variant has its name (`ExpiredIteratorException` for `ExpiredIteratorException`, and so on).
pub proof fn lemma_streams_error_code_names()
    ensures
        DynamoDBStreamsErrorCode::ExpiredIteratorException.name() == "ExpiredIteratorException"@,
        DynamoDBStreamsErrorCode::InternalServerError.name() == "InternalServerError"@,
        DynamoDBStreamsErrorCode::InvalidAction.name() == "InvalidAction"@,
        DynamoDBStreamsErrorCode::LimitExceededException.name() == "LimitExceededException"@,
        DynamoDBStreamsErrorCode::MissingAction.name() == "MissingAction"@,
        DynamoDBStreamsErrorCode::ResourceNotFoundException.name() == "ResourceNotFoundException"@,
        DynamoDBStreamsErrorCode::TrimmedDataAccessException.name() == "TrimmedDataAccessException"@,
        DynamoDBStreamsErrorCode::ValidationException.name() == "ValidationException"@,
{
    reveal_strlit("ExpiredIteratorException");
    reveal_strlit("InternalServerError");
    reveal_strlit("InvalidAction");
    reveal_strlit("LimitExceededException");
    reveal_strlit("MissingAction");
    reveal_strlit("ResourceNotFoundException");
    reveal_strlit("TrimmedDataAccessException");
    reveal_strlit("ValidationException");
}

/// Each DynamoDBStreamsOperation variant has its name (`DescribeStream` for `DescribeStream`, and so on),
/// and reading that name gives the variant back.
pub proof fn lemma_streams_operation_names()
    ensures
        DynamoDBStreamsOperation::DescribeStream.name() == "DescribeStream"@,
        DynamoDBStreamsOperation::GetShardIterator.name() == "GetShardIterator"@,
        DynamoDBStreamsOperation::GetRecords.name() == "GetRecords"@,
        DynamoDBStreamsOperation::ListStreams.name() == "ListStreams"@,
        DynamoDBStreamsOperation::spec_from_name("DescribeStream"@) == Some(DynamoDBStreamsOperation::DescribeStream),
        DynamoDBStreamsOperation::spec_from_name("GetShardIterator"@) == Some(DynamoDBStreamsOperation::GetShardIterator),
        DynamoDBStreamsOperation::spec_from_name("GetRecords"@) == Some(DynamoDBStreamsOperation::GetRecords),
        DynamoDBStreamsOperation::spec_from_name("ListStreams"@) == Some(DynamoDBStreamsOperation::ListStreams),
{
    reveal_strlit("DescribeStream");
    reveal_strlit("GetShardIterator");
    reveal_strlit("GetRecords");
    reveal_strlit("ListStreams");
    assert("GetShardIterator"@ != "DescribeStream"@) by { assert("GetShardIterator"@.len() != "DescribeStream"@.len()); }
    assert("GetRecords"@ != "DescribeStream"@) by { assert("GetRecords"@.len() != "DescribeStream"@.len()); }
    assert("GetRecords"@ != "GetShardIterator"@) by { assert("GetRecords"@.len() != "GetShardIterator"@.len()); }
    assert("ListStreams"@ != "DescribeStream"@) by { assert("ListStreams"@.len() != "DescribeStream"@.len()); }
    assert("ListStreams"@ != "GetShardIterator"@) by { assert("ListStreams"@.len() != "GetShardIterator"@.len()); }
    assert("ListStreams"@ != "GetRecords"@) by { assert("ListStreams"@.len() != "GetRecords"@.len()); }
}

} // verus!
