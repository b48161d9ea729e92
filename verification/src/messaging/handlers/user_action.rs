//! The handler of `user-action` events: one audited action of a user.

use crate::json::{
    integer_member, json_clone, json_document, json_member, json_of, parse_json, text_member,
    JsonValue,
};
use crate::messaging::model::{envelope_fields, Context, Envelope, EnvelopeWithPayload, PayloadFields};
use crate::misc::error::{Error, SsuResult};
use crate::service::bg::{Message, MessageView};
use serde_json::Value;
use vstd::prelude::*;

verus! {

/// The payload of a `user-action` event.
#[derive(Debug)]
pub struct UserActionMessage {
    pub action: String,
    pub method: String,
    pub path: String,
    pub request_data: Value,
    pub service: String,
    pub timestamp: i64,
    pub username: String,
}

/// The content of a [`UserActionMessage`].
pub ghost struct UserActionFields {
    pub action: Seq<char>,
    pub method: Seq<char>,
    pub path: Seq<char>,
    pub request_data: JsonValue,
    pub service: Seq<char>,
    pub timestamp: i64,
    pub username: Seq<char>,
}

impl View for UserActionMessage {
    type V = UserActionFields;

    open spec fn view(&self) -> UserActionFields {
        UserActionFields {
            action: self.action@,
            method: self.method@,
            path: self.path@,
            request_data: json_of(self.request_data),
            service: self.service@,
            timestamp: self.timestamp,
            username: self.username@,
        }
    }
}

/// The payload that the object `data` holds: the strings `action`, `method`,
/// `path`, `service` and `username`, the integer `timestamp` and any value
/// under `requestData`. `None` where one of them is missing or of another
/// kind; members beyond these are ignored.
pub open spec fn user_action_fields(data: JsonValue) -> Option<UserActionFields> {
    match (
        data.text_member("action"@),
        data.text_member("method"@),
        data.text_member("path"@),
        data.member("requestData"@),
        data.text_member("service"@),
        data.integer_member("timestamp"@),
        data.text_member("username"@),
    ) {
        (
            Some(action),
            Some(method),
            Some(path),
            Some(request_data),
            Some(service),
            Some(timestamp),
            Some(username),
        ) => Some(
            UserActionFields { action, method, path, request_data, service, timestamp, username },
        ),
        _ => None,
    }
}

/// The typed message that a document holds: its header, and under `data`
/// the payload of a user action.
pub open spec fn user_action_of(doc: JsonValue) -> Option<PayloadFields<UserActionFields>> {
    match (envelope_fields(doc), doc.member("data"@)) {
        (Some(header), Some(data)) => match user_action_fields(data) {
            Some(fields) => Some(
                PayloadFields { event_type: header.0, message_id: header.1, data: fields },
            ),
            None => None,
        },
        _ => None,
    }
}

/// What decoding `text` as a `user-action` message yields.
///
/// As with the header, the message and its payload are read from JSON
/// objects only, the last of a repeated member counts, and a fault anywhere
/// in the text makes the whole text malformed.
pub open spec fn decode_user_action(text: Seq<char>) -> Result<
    PayloadFields<UserActionFields>,
    Error,
> {
    match json_document(text) {
        None => Err(Error::MalformedJson),
        Some(doc) => match user_action_of(doc) {
            None => Err(Error::UnexpectedShape),
            Some(message) => Ok(message),
        },
    }
}

impl UserActionMessage {
    /// Reads the payload from the parsed value of `data`.
    pub fn from_json(data: &Value) -> (payload: Option<UserActionMessage>)
        ensures
            user_action_fields(json_of(*data)) == (match payload {
                Some(p) => Some(p@),
                None => None,
            }),
    {
        let action = text_member(data, "action");
        let method = text_member(data, "method");
        let path = text_member(data, "path");
        let request_data = json_member(data, "requestData");
        let service = text_member(data, "service");
        let timestamp = integer_member(data, "timestamp");
        let username = text_member(data, "username");
        match (action, method, path, request_data, service, timestamp, username) {
            (
                Some(action),
                Some(method),
                Some(path),
                Some(request_data),
                Some(service),
                Some(timestamp),
                Some(username),
            ) => Some(
                UserActionMessage {
                    action,
                    method,
                    path,
                    request_data: json_clone(request_data),
                    service,
                    timestamp,
                    username,
                },
            ),
            _ => None,
        }
    }

    /// Reads a whole `user-action` message from a parsed document.
    pub fn message_from_json(doc: &Value) -> (message: Option<
        EnvelopeWithPayload<UserActionMessage>,
    >)
        ensures
            user_action_of(json_of(*doc)) == (match message {
                Some(m) => Some(m@),
                None => None,
            }),
    {
        match (Envelope::from_json(doc), json_member(doc, "data")) {
            (Some(header), Some(data)) => match UserActionMessage::from_json(data) {
                Some(payload) => Some(
                    EnvelopeWithPayload {
                        _type: header._type,
                        message_id: header.message_id,
                        data: payload,
                    },
                ),
                None => None,
            },
            _ => None,
        }
    }

    /// Decodes a `user-action` message from its JSON text.
    pub fn decode(text: &str) -> (decoded: SsuResult<EnvelopeWithPayload<UserActionMessage>>)
        ensures
            decode_user_action(text@) == (match decoded {
                Ok(m) => Ok(m@),
                Err(error) => Err(error),
            }),
    {
        match parse_json(text) {
            None => Err(Error::MalformedJson),
            Some(doc) => match UserActionMessage::message_from_json(&doc) {
                None => Err(Error::UnexpectedShape),
                Some(message) => Ok(message),
            },
        }
    }
}

/// Decodes the message text as a user action and returns the message that
/// is to go to the batch sink. The handler itself touches nothing: sending
/// what it returns is the dispatcher's part, see
/// [`process_message`](crate::messaging::process_message).
pub fn user_action_handler(context: Context) -> (handled: SsuResult<Message>)
    ensures
        match decode_user_action(context.msg@) {
            Ok(message) => handled is Ok && handled->Ok_0@ == MessageView::UserAction(message),
            Err(error) => handled == Err::<Message, Error>(error),
        },
{
    match UserActionMessage::decode(context.msg.as_str()) {
        Err(error) => Err(error),
        Ok(message) => Ok(Message::UserAction(message)),
    }
}

} // verus!
