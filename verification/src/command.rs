//! Database commands that travel from the cache to the background writer.

use vstd::prelude::*;
use std::sync::mpsc::SyncSender;
use bytes::Bytes;
use crate::payload::{bytes_contents, payload_contents, payload_debug, payload_text};
use crate::text::{concat, concat3};

verus! {

/// The sending half of a bounded channel.
#[verifier::external_type_specification]
#[verifier::external_body]
#[verifier::reject_recursive_types(T)]
pub struct ExSyncSender<T>(std::sync::mpsc::SyncSender<T>);

/// `SyncSender::clone`: another handle to the channel, of which nothing is claimed.
pub assume_specification<T>[ <SyncSender<T> as Clone>::clone ](
    sender: &SyncSender<T>,
) -> SyncSender<T>;

/// A type of database operation.
#[derive(Clone, Debug)]
pub enum DatabaseOperation {
    Insert,
    Update,
    Delete,
    /// Empties the database, then answers on the channel.
    Flush(SyncSender<()>),
    Close,
}

/// The kind of a database operation.
pub enum OperationKind {
    Insert,
    Update,
    Delete,
    Flush,
    Close,
}

impl View for DatabaseOperation {
    type V = OperationKind;

    open spec fn view(&self) -> OperationKind {
        match self {
            DatabaseOperation::Insert => OperationKind::Insert,
            DatabaseOperation::Update => OperationKind::Update,
            DatabaseOperation::Delete => OperationKind::Delete,
            DatabaseOperation::Flush(_) => OperationKind::Flush,
            DatabaseOperation::Close => OperationKind::Close,
        }
    }
}

/// A database command to be performed, which may be executed in a task.
#[derive(Clone, Debug)]
pub struct DatabaseCommand {
    /// The database operation type.
    pub op_type: DatabaseOperation,
    /// The primary key for the operation.
    pub key: Option<String>,
    /// The data payload for the operation.
    pub payload: Option<Vec<Bytes>>,
}

/// What a database command says, without the channel that a flush answers on.
#[verifier::ext_equal]
pub struct CommandView {
    pub op: OperationKind,
    pub key: Option<Seq<char>>,
    pub payload: Option<Seq<Seq<u8>>>,
}

impl CommandView {
    /// An insert of `values` under `key`.
    pub open spec fn insert(key: Seq<char>, values: Seq<Seq<u8>>) -> Self {
        CommandView { op: OperationKind::Insert, key: Some(key), payload: Some(values) }
    }

    /// An update of `key` with `values`.
    pub open spec fn update(key: Seq<char>, values: Seq<Seq<u8>>) -> Self {
        CommandView { op: OperationKind::Update, key: Some(key), payload: Some(values) }
    }

    /// A removal of `values` from what stands under `key`.
    pub open spec fn remove(key: Seq<char>, values: Seq<Seq<u8>>) -> Self {
        CommandView { op: OperationKind::Delete, key: Some(key), payload: Some(values) }
    }

    /// A removal of everything under `key`.
    pub open spec fn delete(key: Seq<char>) -> Self {
        CommandView { op: OperationKind::Delete, key: Some(key), payload: None }
    }
}

/// The text that an optional string holds.
pub open spec fn optional_text(s: Option<String>) -> Option<Seq<char>> {
    match s {
        Some(s) => Some(s@),
        None => None,
    }
}

impl View for DatabaseCommand {
    type V = CommandView;

    open spec fn view(&self) -> CommandView {
        CommandView {
            op: self.op_type@,
            key: optional_text(self.key),
            payload: payload_contents(self.payload),
        }
    }
}

/// What several commands say, in their order.
pub open spec fn command_views(commands: Seq<DatabaseCommand>) -> Seq<CommandView> {
    commands.map_values(|c: DatabaseCommand| c@)
}

/// The debug text of an operation.
pub open spec fn operation_text(op: OperationKind) -> Seq<char> {
    match op {
        OperationKind::Insert => "Insert"@,
        OperationKind::Update => "Update"@,
        OperationKind::Delete => "Delete"@,
        OperationKind::Flush => "Flush(SyncSender { .. })"@,
        OperationKind::Close => "Close"@,
    }
}

/// The debug text of a command without a key.
pub open spec fn keyless_text(op: OperationKind, payload: Option<Seq<Seq<u8>>>) -> Seq<char> {
    "DatabaseCommand { op_type: "@ + operation_text(op) + ", key: None, payload: "@ + (payload_text(
        payload,
    ) + " }"@)
}

/// Returns the debug text of a command without a key.
pub(crate) fn keyless_debug(op_type: &DatabaseOperation, payload: &Option<Vec<Bytes>>) -> (r:
    String)
    ensures
        r@ == keyless_text(op_type@, payload_contents(*payload)),
{
    let op = match op_type {
        DatabaseOperation::Insert => "Insert",
        DatabaseOperation::Update => "Update",
        DatabaseOperation::Delete => "Delete",
        DatabaseOperation::Flush(_) => "Flush(SyncSender { .. })",
        DatabaseOperation::Close => "Close",
    };
    let head = concat3("DatabaseCommand { op_type: ", op, ", key: None, payload: ");
    let tail = concat(&payload_debug(payload), " }");
    concat(&head, &tail)
}

impl DatabaseCommand {
    /// Creates a new [`DatabaseCommand`] instance.
    #[must_use]
    pub fn new(op_type: DatabaseOperation, key: String, payload: Option<Vec<Bytes>>) -> (r: Self)
        ensures
            r.op_type == op_type,
            r.key == Some(key),
            r.payload == payload,
    {
        DatabaseCommand { op_type, key: Some(key), payload }
    }

    /// Initialize a `Close` database command, this is meant to close the database cache channel.
    #[must_use]
    pub fn close() -> (r: Self)
        ensures
            r.op_type == DatabaseOperation::Close,
            r.key is None,
            r.payload is None,
    {
        DatabaseCommand { op_type: DatabaseOperation::Close, key: None, payload: None }
    }

    /// Initialize a `Flush` database command, which answers on `reply` when it is done.
    #[must_use]
    pub fn flush(reply: SyncSender<()>) -> (r: Self)
        ensures
            r.op_type == DatabaseOperation::Flush(reply),
            r.key is None,
            r.payload is None,
    {
        DatabaseCommand { op_type: DatabaseOperation::Flush(reply), key: None, payload: None }
    }
}

/// What a command says is its operation, its key and the bytes of its payload.
pub proof fn law_command_says_its_parts(
    command: DatabaseCommand,
    commands: Seq<DatabaseCommand>,
    i: int,
)
    ensures
        command.op_type is Insert <==> command@.op is Insert,
        command.op_type is Update <==> command@.op is Update,
        command.op_type is Delete <==> command@.op is Delete,
        command.op_type is Flush <==> command@.op is Flush,
        command.op_type is Close <==> command@.op is Close,
        command.key is Some <==> command@.key is Some,
        command.key is Some ==> command@.key->0 == command.key->0@,
        command.payload is Some <==> command@.payload is Some,
        command.payload is Some ==> command@.payload->0.len() == command.payload->0@.len(),
        command.payload is Some && 0 <= i < command.payload->0@.len() ==> command@.payload->0[i]
            == bytes_contents(command.payload->0@[i]),
        command_views(commands).len() == commands.len(),
        0 <= i < commands.len() ==> command_views(commands)[i] == commands[i]@,
{
}

/// The text of a command without a key gives its operation and its payload.
pub proof fn law_keyless_text_gives_operation(payload: Option<Seq<Seq<u8>>>)
    ensures
        keyless_text(OperationKind::Insert, payload)
            == "DatabaseCommand { op_type: "@ + "Insert"@ + ", key: None, payload: "@ + (
        payload_text(payload) + " }"@),
        keyless_text(OperationKind::Update, payload)
            == "DatabaseCommand { op_type: "@ + "Update"@ + ", key: None, payload: "@ + (
        payload_text(payload) + " }"@),
        keyless_text(OperationKind::Delete, payload)
            == "DatabaseCommand { op_type: "@ + "Delete"@ + ", key: None, payload: "@ + (
        payload_text(payload) + " }"@),
        keyless_text(OperationKind::Flush, payload)
            == "DatabaseCommand { op_type: "@ + "Flush(SyncSender { .. })"@
            + ", key: None, payload: "@ + (payload_text(payload) + " }"@),
        keyless_text(OperationKind::Close, payload)
            == "DatabaseCommand { op_type: "@ + "Close"@ + ", key: None, payload: "@ + (
        payload_text(payload) + " }"@),
{
}

} // verus!
