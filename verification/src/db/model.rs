//! The row that is written for one audited user action.

use crate::json::{is_empty_text, json_clone, json_of, JsonValue};
use crate::messaging::handlers::user_action::{UserActionFields, UserActionMessage};
use crate::messaging::model::{EnvelopeWithPayload, PayloadFields};
use crate::misc::time::{datetime_from_seconds, utc_datetime};
use chrono::NaiveDateTime;
use serde_json::Value;
use vstd::prelude::*;

verus! {

/// A row as it is inserted: everything but the key that the table assigns.
/// `message_id` is the key by which the table ignores a row it already has.
#[derive(Debug)]
pub struct AuditRecordsSelfserviceInsert {
    pub message_id: String,
    pub created_at: NaiveDateTime,
    pub timestamp: NaiveDateTime,
    pub record_type: String,
    pub principal: String,
    pub action: String,
    pub method: String,
    pub path: String,
    pub service: String,
    pub request_data: Option<Value>,
}

/// The content of a row.
pub ghost struct RecordFields {
    pub message_id: Seq<char>,
    pub created_at: NaiveDateTime,
    pub timestamp: NaiveDateTime,
    pub record_type: Seq<char>,
    pub principal: Seq<char>,
    pub action: Seq<char>,
    pub method: Seq<char>,
    pub path: Seq<char>,
    pub service: Seq<char>,
    pub request_data: Option<JsonValue>,
}

impl View for AuditRecordsSelfserviceInsert {
    type V = RecordFields;

    open spec fn view(&self) -> RecordFields {
        RecordFields {
            message_id: self.message_id@,
            created_at: self.created_at,
            timestamp: self.timestamp,
            record_type: self.record_type@,
            principal: self.principal@,
            action: self.action@,
            method: self.method@,
            path: self.path@,
            service: self.service@,
            request_data: match self.request_data {
                Some(value) => Some(json_of(value)),
                None => None,
            },
        }
    }
}

/// The row for a message whose own time is the instant `timestamp`, taken in
/// at `created_at`. Request data that is the empty string is stored as
/// absent; the user becomes the principal and the event type the record type.
pub open spec fn row_of(
    message: PayloadFields<UserActionFields>,
    created_at: NaiveDateTime,
    timestamp: NaiveDateTime,
) -> RecordFields {
    RecordFields {
        message_id: message.message_id,
        created_at,
        timestamp,
        record_type: message.event_type,
        principal: message.data.username,
        action: message.data.action,
        method: message.data.method,
        path: message.data.path,
        service: message.data.service,
        request_data: if message.data.request_data == JsonValue::Text(Seq::empty()) {
            None
        } else {
            Some(message.data.request_data)
        },
    }
}

/// The row for a message taken in at `created_at`; `None` where the
/// message's timestamp, in seconds since 1970, is beyond what a date can hold.
pub open spec fn project(
    message: PayloadFields<UserActionFields>,
    created_at: NaiveDateTime,
) -> Option<RecordFields> {
    match utc_datetime(message.data.timestamp) {
        Some(timestamp) => Some(row_of(message, created_at, timestamp)),
        None => None,
    }
}

impl AuditRecordsSelfserviceInsert {
    /// Builds the row of `message` from the instant of its timestamp.
    pub fn with_timestamp(
        message: &EnvelopeWithPayload<UserActionMessage>,
        created_at: NaiveDateTime,
        timestamp: NaiveDateTime,
    ) -> (row: AuditRecordsSelfserviceInsert)
        ensures
            row@ == row_of(message@, created_at, timestamp),
    {
        let request_data = if is_empty_text(&message.data.request_data) {
            None
        } else {
            Some(json_clone(&message.data.request_data))
        };
        AuditRecordsSelfserviceInsert {
            message_id: message.message_id.clone(),
            created_at,
            timestamp,
            record_type: message._type.clone(),
            principal: message.data.username.clone(),
            action: message.data.action.clone(),
            method: message.data.method.clone(),
            path: message.data.path.clone(),
            service: message.data.service.clone(),
            request_data,
        }
    }

    /// Builds the row of `message`, or nothing where its timestamp cannot be
    /// turned into a date.
    pub fn from_message(
        message: &EnvelopeWithPayload<UserActionMessage>,
        created_at: NaiveDateTime,
    ) -> (row: Option<AuditRecordsSelfserviceInsert>)
        ensures
            project(message@, created_at) == (match row {
                Some(r) => Some(r@),
                None => None,
            }),
    {
        match datetime_from_seconds(message.data.timestamp) {
            Some(timestamp) => Some(
                AuditRecordsSelfserviceInsert::with_timestamp(message, created_at, timestamp),
            ),
            None => None,
        }
    }
}

} // verus!
