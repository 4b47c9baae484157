//! Change events that the DynamoDB table engine emits after each successful
//! write, the table-side types they carry, and the hooks through which a
//! stream consumer observes them.

use vstd::prelude::*;

verus! {

/// Event name for a stream change record.
#[derive(Debug, Clone, Copy, PartialEq, Eq, Structural)]
pub enum ChangeEventName {
    /// A new item was inserted.
    Insert,
    /// An existing item was modified.
    Modify,
    /// An item was removed.
    Remove,
}

impl ChangeEventName {
    /// The DynamoDB Streams wire-format name.
    pub open spec fn wire(self) -> Seq<char> {
        match self {
            ChangeEventName::Insert => "INSERT"@,
            ChangeEventName::Modify => "MODIFY"@,
            ChangeEventName::Remove => "REMOVE"@,
        }
    }

    /// Returns the DynamoDB Streams wire-format string.
    pub fn as_str(&self) -> (r: &'static str)
        ensures
            r@ == self.wire(),
    {
        match self {
            ChangeEventName::Insert => "INSERT",
            ChangeEventName::Modify => "MODIFY",
            ChangeEventName::Remove => "REMOVE",
        }
    }
}

/// A DynamoDB item attribute value, as the table engine stores it.
#[derive(Debug)]
pub enum AttributeValue {
    S(String),
    N(String),
    B(Vec<u8>),
    Ss(Vec<String>),
    Ns(Vec<String>),
    Bs(Vec<Vec<u8>>),
    Bool(bool),
    Null(bool),
    L(Vec<AttributeValue>),
    /// Map members, as (name, value) pairs.
    M(Vec<(String, AttributeValue)>),
}

/// Key role of a table key attribute.
#[derive(Debug, Clone, Copy, PartialEq, Eq, Structural, Default)]
pub enum KeyType {
    #[default]
    Hash,
    Range,
}

/// One attribute of a table's key schema.
#[derive(Debug, Clone, Default)]
pub struct KeySchemaElement {
    pub attribute_name: String,
    pub key_type: KeyType,
}

/// What a table's stream captures for each change.
#[derive(Debug, Clone, Copy, PartialEq, Eq, Structural, Default)]
pub enum StreamViewType {
    #[default]
    KeysOnly,
    NewImage,
    OldImage,
    NewAndOldImages,
}

/// A change event emitted by the table engine after a successful write.
#[derive(Debug)]
pub struct ChangeEvent {
    /// The table name.
    pub table_name: String,
    /// The event type.
    pub event_name: ChangeEventName,
    /// The primary key attributes of the affected item.
    pub keys: Vec<(String, AttributeValue)>,
    /// The item as it appeared before the write (None for INSERT).
    pub old_image: Option<Vec<(String, AttributeValue)>>,
    /// The item as it appeared after the write (None for REMOVE).
    pub new_image: Option<Vec<(String, AttributeValue)>>,
    /// Approximate size of the affected item in bytes.
    pub size_bytes: u64,
}

/// Receives change events from the table engine.
pub trait StreamEmitter {
    /// Emit a change event for a successful write operation.
    fn emit(&mut self, event: ChangeEvent);
}

/// An emitter that discards all events.
#[derive(Debug)]
pub struct NoopStreamEmitter;

impl StreamEmitter for NoopStreamEmitter {
    fn emit(&mut self, event: ChangeEvent) {
    }
}

/// Observes table creation, update and deletion to manage the table's stream.
pub trait StreamLifecycle {
    /// Called when a table enables its stream; returns the stream ARN.
    fn on_stream_enabled(
        &mut self,
        table_name: &str,
        table_arn: &str,
        key_schema: Vec<KeySchemaElement>,
        stream_view_type: StreamViewType,
    ) -> String;

    /// Called when a table disables its stream.
    fn on_stream_disabled(&mut self, table_name: &str);

    /// Called after a table is deleted.
    fn on_table_deleted(&mut self, table_name: &str);

    /// The stream ARN for a table, if one exists.
    fn get_stream_arn(&self, table_name: &str) -> Option<String>;

    /// The stream label for a table, if one exists.
    fn get_stream_label(&self, table_name: &str) -> Option<String>;
}

/// A lifecycle manager that does nothing.
#[derive(Debug)]
pub struct NoopStreamLifecycle;

impl StreamLifecycle for NoopStreamLifecycle {
    fn on_stream_enabled(
        &mut self,
        table_name: &str,
        table_arn: &str,
        key_schema: Vec<KeySchemaElement>,
        stream_view_type: StreamViewType,
    ) -> (r: String)
        ensures
            r@ == Seq::<char>::empty(),
    {
        String::new()
    }

    fn on_stream_disabled(&mut self, table_name: &str) {
    }

    fn on_table_deleted(&mut self, table_name: &str) {
    }

    fn get_stream_arn(&self, table_name: &str) -> (r: Option<String>)
        ensures
            r.is_none(),
    {
        None
    }

    fn get_stream_label(&self, table_name: &str) -> (r: Option<String>)
        ensures
            r.is_none(),
    {
        None
    }
}

/// Each ChangeEventName variant has its wire name (`INSERT` for `Insert`, and so on).
pub proof fn lemma_change_event_name_wire_names()
    ensures
        ChangeEventName::Insert.wire() == "INSERT"@,
        ChangeEventName::Modify.wire() == "MODIFY"@,
        ChangeEventName::Remove.wire() == "REMOVE"@,
{
    reveal_strlit("INSERT");
    reveal_strlit("MODIFY");
    reveal_strlit("REMOVE");
}

} // verus!
