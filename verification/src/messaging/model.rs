//! The untyped header of a stream message and its typed form.

use crate::json::{json_document, json_of, parse_json, text_member, JsonValue};
use crate::misc::error::{Error, SsuResult};
use serde_json::Value;
use vstd::prelude::*;

verus! {

/// The header of every inbound message: `type` selects the handler,
/// `messageId` is the key under which the message is stored at most once.
#[derive(Debug)]
pub struct Envelope {
    pub _type: String,
    pub message_id: String,
}

/// An envelope together with the payload that a handler expects under `data`.
#[derive(Debug)]
pub struct EnvelopeWithPayload<T> {
    pub _type: String,
    pub message_id: String,
    pub data: T,
}

/// The content of an [`EnvelopeWithPayload`] whose payload has the view `V`.
pub ghost struct PayloadFields<V> {
    pub event_type: Seq<char>,
    pub message_id: Seq<char>,
    pub data: V,
}

impl<T: View> View for EnvelopeWithPayload<T> {
    type V = PayloadFields<T::V>;

    open spec fn view(&self) -> PayloadFields<T::V> {
        PayloadFields { event_type: self._type@, message_id: self.message_id@, data: self.data@ }
    }
}

/// What a handler is called with: the decoded header, the message text as it
/// arrived, and the shared context.
pub struct Context<'a> {
    pub event: Envelope,
    pub msg: String,
    pub context: &'a crate::misc::context::Context,
}

/// The two header members of a document: the texts of `type` and `messageId`.
/// `None` unless the document is an object in which both are JSON strings.
pub open spec fn envelope_fields(doc: JsonValue) -> Option<(Seq<char>, Seq<char>)> {
    match (doc.text_member("type"@), doc.text_member("messageId"@)) {
        (Some(event_type), Some(message_id)) => Some((event_type, message_id)),
        _ => None,
    }
}

/// What decoding `text` as an envelope yields.
///
/// The header is read from a JSON object and from nothing else: a JSON array
/// that lists the two texts is not a header. Where the object gives `type` or
/// `messageId` twice, the last one counts. The text is parsed as a whole, so
/// that a number which cannot be represented, or nesting that goes too deep,
/// makes it malformed even inside a member that the header does not read.
pub open spec fn decode_envelope(text: Seq<char>) -> Result<(Seq<char>, Seq<char>), Error> {
    match json_document(text) {
        None => Err(Error::MalformedJson),
        Some(doc) => match envelope_fields(doc) {
            None => Err(Error::UnexpectedShape),
            Some(fields) => Ok(fields),
        },
    }
}

impl Envelope {
    /// The header as a pair of texts.
    pub open spec fn fields(&self) -> (Seq<char>, Seq<char>) {
        (self._type@, self.message_id@)
    }

    /// Reads the header from a parsed document. Members other than `type`
    /// and `messageId` are ignored.
    pub fn from_json(doc: &Value) -> (envelope: Option<Envelope>)
        ensures
            envelope_fields(json_of(*doc)) == (match envelope {
                Some(e) => Some(e.fields()),
                None => None,
            }),
    {
        match text_member(doc, "type") {
            None => None,
            Some(event_type) => match text_member(doc, "messageId") {
                None => None,
                Some(message_id) => Some(Envelope { _type: event_type, message_id }),
            },
        }
    }

    /// Decodes the header of a message from its JSON text.
    ///
    /// Only a JSON object is a header; of a member given twice the last one
    /// counts; a fault anywhere in the text, also inside a member that the
    /// header does not read, makes the whole text malformed. See
    /// [`decode_envelope`].
    pub fn decode(text: &str) -> (decoded: SsuResult<Envelope>)
        ensures
            decode_envelope(text@) == (match decoded {
                Ok(e) => Ok(e.fields()),
                Err(error) => Err(error),
            }),
    {
        match parse_json(text) {
            None => Err(Error::MalformedJson),
            Some(doc) => match Envelope::from_json(&doc) {
                None => Err(Error::UnexpectedShape),
                Some(envelope) => Ok(envelope),
            },
        }
    }
}

impl Clone for Envelope {
    fn clone(&self) -> (copy: Envelope)
        ensures
            copy == *self,
    {
        Envelope { _type: self._type.clone(), message_id: self.message_id.clone() }
    }
}

} // verus!
