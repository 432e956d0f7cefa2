//! Errors of the cache database.

use vstd::prelude::*;
use crate::text::{concat, concat3};

verus! {

/// The operations that change stored data.
#[derive(Clone, Copy, Debug, PartialEq, Eq, Structural)]
pub enum DataOperation {
    Insert,
    Update,
    Delete,
}

impl DataOperation {
    /// The name of the operation as messages give it.
    pub open spec fn spec_name(self) -> Seq<char> {
        match self {
            DataOperation::Insert => "insert"@,
            DataOperation::Update => "update"@,
            DataOperation::Delete => "delete"@,
        }
    }

    /// The name of the operation as messages give it.
    pub fn name(self) -> (r: &'static str)
        ensures
            r@ == self.spec_name(),
    {
        match self {
            DataOperation::Insert => "insert",
            DataOperation::Update => "update",
            DataOperation::Delete => "delete",
        }
    }
}

/// What can go wrong in the cache database, over text of type `S`.
#[derive(Debug, PartialEq, Eq)]
pub enum CacheFault<S> {
    /// The configuration names no database.
    NoDatabaseConfig,
    /// A command without a key, of which `message` is the debug text.
    NullKey { message: S },
    /// A key without a delimiter, so without a collection.
    MissingDelimiter { key: S },
    /// An insert or update without a payload.
    NullPayload { operation: DataOperation },
    /// An insert or update with a payload that holds no value.
    EmptyPayload,
    /// A collection that the operation does not support.
    UnsupportedOperation { operation: DataOperation, collection: S },
    /// A key in which no index segment stands.
    InvalidIndexKey { key: S },
    /// An insert into an index that does not exist.
    UnknownIndex { index: S },
    /// A removal from an index that does not exist.
    UnsupportedRemoval { index: S },
    /// A removal from an index that does not say what to remove.
    MissingDeletePayload { key: S },
    /// A payload that could not be serialized.
    Serialization { cause: S },
    /// A stored value that could not be deserialized.
    Deserialization { cause: S },
    /// An account without events.
    AccountWithoutEvents { account_id: S },
    /// A position without events.
    PositionWithoutEvents { position_id: S },
    /// A command that the channel did not take.
    SendFailed { context: S, cause: S },
    /// A flush whose answer was lost.
    FlushReplyLost { cause: S },
    /// A list that could not be read.
    ListRead { key: S, cause: S },
    /// A read that the database refused.
    Query { cause: S },
    /// A read whose answer was lost.
    ReadReplyLost { cause: S },
    /// A read of the general state whose answer was lost.
    GeneralReplyLost { cause: S },
    /// One of the loads of all cached data failed.
    LoadAll { cause: S },
}

/// An error of the cache database.
pub type CacheError = CacheFault<String>;

impl View for CacheFault<String> {
    type V = CacheFault<Seq<char>>;

    open spec fn view(&self) -> CacheFault<Seq<char>> {
        match *self {
            CacheFault::NoDatabaseConfig => CacheFault::NoDatabaseConfig,
            CacheFault::NullKey { message } => CacheFault::NullKey { message: message@ },
            CacheFault::MissingDelimiter { key } => CacheFault::MissingDelimiter { key: key@ },
            CacheFault::NullPayload { operation } => CacheFault::NullPayload { operation },
            CacheFault::EmptyPayload => CacheFault::EmptyPayload,
            CacheFault::UnsupportedOperation { operation, collection } =>
                CacheFault::UnsupportedOperation { operation, collection: collection@ },
            CacheFault::InvalidIndexKey { key } => CacheFault::InvalidIndexKey { key: key@ },
            CacheFault::UnknownIndex { index } => CacheFault::UnknownIndex { index: index@ },
            CacheFault::UnsupportedRemoval { index } => CacheFault::UnsupportedRemoval {
                index: index@,
            },
            CacheFault::MissingDeletePayload { key } => CacheFault::MissingDeletePayload {
                key: key@,
            },
            CacheFault::Serialization { cause } => CacheFault::Serialization { cause: cause@ },
            CacheFault::Deserialization { cause } => CacheFault::Deserialization { cause: cause@ },
            CacheFault::AccountWithoutEvents { account_id } => CacheFault::AccountWithoutEvents {
                account_id: account_id@,
            },
            CacheFault::PositionWithoutEvents { position_id } =>
                CacheFault::PositionWithoutEvents { position_id: position_id@ },
            CacheFault::SendFailed { context, cause } => CacheFault::SendFailed {
                context: context@,
                cause: cause@,
            },
            CacheFault::FlushReplyLost { cause } => CacheFault::FlushReplyLost { cause: cause@ },
            CacheFault::ListRead { key, cause } => CacheFault::ListRead {
                key: key@,
                cause: cause@,
            },
            CacheFault::Query { cause } => CacheFault::Query { cause: cause@ },
            CacheFault::ReadReplyLost { cause } => CacheFault::ReadReplyLost { cause: cause@ },
            CacheFault::GeneralReplyLost { cause } => CacheFault::GeneralReplyLost {
                cause: cause@,
            },
            CacheFault::LoadAll { cause } => CacheFault::LoadAll { cause: cause@ },
        }
    }
}

impl CacheFault<Seq<char>> {
    /// The message of the error.
    pub open spec fn text(self) -> Seq<char> {
        match self {
            CacheFault::NoDatabaseConfig => "No database config"@,
            CacheFault::NullKey { message } => "Null key found for message: "@ + message,
            CacheFault::MissingDelimiter { key } =>
                "Invalid `key`, missing a ':' delimiter, was "@ + key,
            CacheFault::NullPayload { operation } =>
                "Null `payload` for `"@ + operation.spec_name() + "`"@,
            CacheFault::EmptyPayload => "the 'value' slice was empty"@,
            CacheFault::UnsupportedOperation { operation, collection } =>
                "Unsupported operation: `"@ + operation.spec_name() + ("` for collection '"@
                    + collection + "'"@),
            CacheFault::InvalidIndexKey { key } => "Invalid index key format: "@ + key,
            CacheFault::UnknownIndex { index } => "Index unknown '"@ + index + "' on insert"@,
            CacheFault::UnsupportedRemoval { index } =>
                "Unsupported index operation: remove from '"@ + index + "'"@,
            CacheFault::MissingDeletePayload { key } =>
                "Empty `payload` for `delete` '"@ + key + "'"@,
            CacheFault::Serialization { cause } => cause,
            CacheFault::Deserialization { cause } => cause,
            CacheFault::AccountWithoutEvents { account_id } =>
                "Account "@ + account_id + " has no events"@,
            CacheFault::PositionWithoutEvents { position_id } =>
                "Position "@ + position_id + " has no events"@,
            CacheFault::SendFailed { context, cause } => context + ": "@ + cause,
            CacheFault::FlushReplyLost { cause } => "Failed to flush database: "@ + cause,
            CacheFault::ListRead { key, cause } => "LRANGE failed for "@ + key + (": "@ + cause),
            CacheFault::Query { cause } => cause,
            CacheFault::ReadReplyLost { cause } => "Channel closed: "@ + cause,
            CacheFault::GeneralReplyLost { cause } =>
                "Failed to receive load() result: "@ + cause,
            CacheFault::LoadAll { cause } => "Error loading cache data: "@ + cause,
        }
    }
}

impl CacheFault<String> {
    /// The message of the error.
    pub fn message(&self) -> (r: String)
        ensures
            r@ == self@.text(),
    {
        match self {
            CacheFault::NoDatabaseConfig => "No database config".to_owned(),
            CacheFault::NullKey { message } => concat("Null key found for message: ", message),
            CacheFault::MissingDelimiter { key } => concat(
                "Invalid `key`, missing a ':' delimiter, was ",
                key,
            ),
            CacheFault::NullPayload { operation } => concat3(
                "Null `payload` for `",
                operation.name(),
                "`",
            ),
            CacheFault::EmptyPayload => "the 'value' slice was empty".to_owned(),
            CacheFault::UnsupportedOperation { operation, collection } => {
                let tail = concat3("` for collection '", collection, "'");
                concat3("Unsupported operation: `", operation.name(), &tail)
            },
            CacheFault::InvalidIndexKey { key } => concat("Invalid index key format: ", key),
            CacheFault::UnknownIndex { index } => concat3("Index unknown '", index, "' on insert"),
            CacheFault::UnsupportedRemoval { index } => concat3(
                "Unsupported index operation: remove from '",
                index,
                "'",
            ),
            CacheFault::MissingDeletePayload { key } => concat3(
                "Empty `payload` for `delete` '",
                key,
                "'",
            ),
            CacheFault::Serialization { cause } => cause.clone(),
            CacheFault::Deserialization { cause } => cause.clone(),
            CacheFault::AccountWithoutEvents { account_id } => concat3(
                "Account ",
                account_id,
                " has no events",
            ),
            CacheFault::PositionWithoutEvents { position_id } => concat3(
                "Position ",
                position_id,
                " has no events",
            ),
            CacheFault::SendFailed { context, cause } => concat3(context, ": ", cause),
            CacheFault::FlushReplyLost { cause } => concat("Failed to flush database: ", cause),
            CacheFault::ListRead { key, cause } => {
                let tail = concat(": ", cause);
                concat3("LRANGE failed for ", key, &tail)
            },
            CacheFault::Query { cause } => cause.clone(),
            CacheFault::ReadReplyLost { cause } => concat("Channel closed: ", cause),
            CacheFault::GeneralReplyLost { cause } => concat(
                "Failed to receive load() result: ",
                cause,
            ),
            CacheFault::LoadAll { cause } => concat("Error loading cache data: ", cause),
        }
    }
}

impl Clone for CacheFault<String> {
    fn clone(&self) -> (r: Self)
        ensures
            r@ == self@,
    {
        match self {
            CacheFault::NoDatabaseConfig => CacheFault::NoDatabaseConfig,
            CacheFault::NullKey { message } => CacheFault::NullKey { message: message.clone() },
            CacheFault::MissingDelimiter { key } => CacheFault::MissingDelimiter {
                key: key.clone(),
            },
            CacheFault::NullPayload { operation } => CacheFault::NullPayload {
                operation: *operation,
            },
            CacheFault::EmptyPayload => CacheFault::EmptyPayload,
            CacheFault::UnsupportedOperation { operation, collection } =>
                CacheFault::UnsupportedOperation {
                    operation: *operation,
                    collection: collection.clone(),
                },
            CacheFault::InvalidIndexKey { key } => CacheFault::InvalidIndexKey { key: key.clone() },
            CacheFault::UnknownIndex { index } => CacheFault::UnknownIndex { index: index.clone() },
            CacheFault::UnsupportedRemoval { index } => CacheFault::UnsupportedRemoval {
                index: index.clone(),
            },
            CacheFault::MissingDeletePayload { key } => CacheFault::MissingDeletePayload {
                key: key.clone(),
            },
            CacheFault::Serialization { cause } => CacheFault::Serialization {
                cause: cause.clone(),
            },
            CacheFault::Deserialization { cause } => CacheFault::Deserialization {
                cause: cause.clone(),
            },
            CacheFault::AccountWithoutEvents { account_id } => CacheFault::AccountWithoutEvents {
                account_id: account_id.clone(),
            },
            CacheFault::PositionWithoutEvents { position_id } =>
                CacheFault::PositionWithoutEvents { position_id: position_id.clone() },
            CacheFault::SendFailed { context, cause } => CacheFault::SendFailed {
                context: context.clone(),
                cause: cause.clone(),
            },
            CacheFault::FlushReplyLost { cause } => CacheFault::FlushReplyLost {
                cause: cause.clone(),
            },
            CacheFault::ListRead { key, cause } => CacheFault::ListRead {
                key: key.clone(),
                cause: cause.clone(),
            },
            CacheFault::Query { cause } => CacheFault::Query { cause: cause.clone() },
            CacheFault::ReadReplyLost { cause } => CacheFault::ReadReplyLost {
                cause: cause.clone(),
            },
            CacheFault::GeneralReplyLost { cause } => CacheFault::GeneralReplyLost {
                cause: cause.clone(),
            },
            CacheFault::LoadAll { cause } => CacheFault::LoadAll { cause: cause.clone() },
        }
    }
}

/// What each error says, for every text that it quotes.
pub proof fn law_errors_quote_their_causes(a: Seq<char>, b: Seq<char>, operation: DataOperation)
    ensures
        (CacheFault::<Seq<char>>::NoDatabaseConfig).text() == "No database config"@,
        (CacheFault::<Seq<char>>::EmptyPayload).text() == "the 'value' slice was empty"@,
        (CacheFault::NullKey { message: a }).text() == "Null key found for message: "@ + a,
        (CacheFault::MissingDelimiter { key: a }).text()
            == "Invalid `key`, missing a ':' delimiter, was "@ + a,
        (CacheFault::<Seq<char>>::NullPayload { operation }).text() == "Null `payload` for `"@
            + operation.spec_name() + "`"@,
        (CacheFault::UnsupportedOperation { operation, collection: a }).text()
            == "Unsupported operation: `"@ + operation.spec_name() + ("` for collection '"@ + a
            + "'"@),
        (CacheFault::InvalidIndexKey { key: a }).text() == "Invalid index key format: "@ + a,
        (CacheFault::UnknownIndex { index: a }).text() == "Index unknown '"@ + a + "' on insert"@,
        (CacheFault::UnsupportedRemoval { index: a }).text()
            == "Unsupported index operation: remove from '"@ + a + "'"@,
        (CacheFault::MissingDeletePayload { key: a }).text() == "Empty `payload` for `delete` '"@
            + a + "'"@,
        (CacheFault::Serialization { cause: a }).text() == a,
        (CacheFault::Deserialization { cause: a }).text() == a,
        (CacheFault::AccountWithoutEvents { account_id: a }).text() == "Account "@ + a
            + " has no events"@,
        (CacheFault::PositionWithoutEvents { position_id: a }).text() == "Position "@ + a
            + " has no events"@,
        (CacheFault::SendFailed { context: a, cause: b }).text() == a + ": "@ + b,
        (CacheFault::FlushReplyLost { cause: a }).text() == "Failed to flush database: "@ + a,
        (CacheFault::ListRead { key: a, cause: b }).text() == "LRANGE failed for "@ + a + (": "@
            + b),
        (CacheFault::Query { cause: a }).text() == a,
        (CacheFault::ReadReplyLost { cause: a }).text() == "Channel closed: "@ + a,
        (CacheFault::GeneralReplyLost { cause: a }).text() == "Failed to receive load() result: "@
            + a,
        (CacheFault::LoadAll { cause: a }).text() == "Error loading cache data: "@ + a,
        operation is Insert ==> operation.spec_name() == "insert"@,
        operation is Update ==> operation.spec_name() == "update"@,
        operation is Delete ==> operation.spec_name() == "delete"@,
{
}

/// What an error says is its kind and the texts that it holds.
pub proof fn law_error_says_its_parts(e: CacheError)
    ensures
        e is NoDatabaseConfig <==> e@ is NoDatabaseConfig,
        e is NullKey <==> e@ is NullKey,
        e is NullKey ==> e@->NullKey_message == e->NullKey_message@,
        e is MissingDelimiter <==> e@ is MissingDelimiter,
        e is MissingDelimiter ==> e@->MissingDelimiter_key == e->MissingDelimiter_key@,
        e is NullPayload <==> e@ is NullPayload,
        e is NullPayload ==> e@->NullPayload_operation == e->NullPayload_operation,
        e is EmptyPayload <==> e@ is EmptyPayload,
        e is UnsupportedOperation <==> e@ is UnsupportedOperation,
        e is UnsupportedOperation ==> e@->UnsupportedOperation_operation == e->UnsupportedOperation_operation,
        e is UnsupportedOperation ==> e@->UnsupportedOperation_collection == e->UnsupportedOperation_collection@,
        e is InvalidIndexKey <==> e@ is InvalidIndexKey,
        e is InvalidIndexKey ==> e@->InvalidIndexKey_key == e->InvalidIndexKey_key@,
        e is UnknownIndex <==> e@ is UnknownIndex,
        e is UnknownIndex ==> e@->UnknownIndex_index == e->UnknownIndex_index@,
        e is UnsupportedRemoval <==> e@ is UnsupportedRemoval,
        e is UnsupportedRemoval ==> e@->UnsupportedRemoval_index == e->UnsupportedRemoval_index@,
        e is MissingDeletePayload <==> e@ is MissingDeletePayload,
        e is MissingDeletePayload ==> e@->MissingDeletePayload_key == e->MissingDeletePayload_key@,
        e is Serialization <==> e@ is Serialization,
        e is Serialization ==> e@->Serialization_cause == e->Serialization_cause@,
        e is Deserialization <==> e@ is Deserialization,
        e is Deserialization ==> e@->Deserialization_cause == e->Deserialization_cause@,
        e is AccountWithoutEvents <==> e@ is AccountWithoutEvents,
        e is AccountWithoutEvents ==> e@->AccountWithoutEvents_account_id == e->AccountWithoutEvents_account_id@,
        e is PositionWithoutEvents <==> e@ is PositionWithoutEvents,
        e is PositionWithoutEvents ==> e@->PositionWithoutEvents_position_id == e->PositionWithoutEvents_position_id@,
        e is SendFailed <==> e@ is SendFailed,
        e is SendFailed ==> e@->SendFailed_context == e->SendFailed_context@,
        e is SendFailed ==> e@->SendFailed_cause == e->SendFailed_cause@,
        e is FlushReplyLost <==> e@ is FlushReplyLost,
        e is FlushReplyLost ==> e@->FlushReplyLost_cause == e->FlushReplyLost_cause@,
        e is ListRead <==> e@ is ListRead,
        e is ListRead ==> e@->ListRead_key == e->ListRead_key@,
        e is ListRead ==> e@->ListRead_cause == e->ListRead_cause@,
        e is Query <==> e@ is Query,
        e is Query ==> e@->Query_cause == e->Query_cause@,
        e is ReadReplyLost <==> e@ is ReadReplyLost,
        e is ReadReplyLost ==> e@->ReadReplyLost_cause == e->ReadReplyLost_cause@,
        e is GeneralReplyLost <==> e@ is GeneralReplyLost,
        e is GeneralReplyLost ==> e@->GeneralReplyLost_cause == e->GeneralReplyLost_cause@,
        e is LoadAll <==> e@ is LoadAll,
        e is LoadAll ==> e@->LoadAll_cause == e->LoadAll_cause@,
{
}

} // verus!
