//! Envelopes and the message dispatcher: a JSON value is read as a generic
//! envelope, then its content is decoded by the schema that the header's
//! message type selects. Types outside the known set pass through whole.

use vstd::prelude::*;
use crate::content::{
    display_data_from, error_from, execute_input_from, execute_result_from, is_error_of,
    is_stream_of, status_from, stream_from, update_display_data_from, DisplayData, Error,
    ExecuteInput, ExecuteResult, Status, Stream, UpdateDisplayData,
};
use crate::field::{field_value, take_value, Field, FieldError};
use crate::header::{header_from, Header};
use crate::json::{text_is, JsonValue};

verus! {

/// Metadata of an envelope, kept as it came.
#[derive(Debug, PartialEq)]
pub struct Metadata(pub JsonValue);

/// A message with a known content schema; its parent header is required.
#[derive(Debug, PartialEq)]
pub struct IoPubEnvelope<T> {
    pub header: Header,
    pub parent_header: Header,
    pub metadata: Option<Metadata>,
    pub content: T,
}

/// A message whose content is not decoded yet, or never will be.
#[derive(Debug, PartialEq)]
pub struct DynamicEnvelope {
    pub header: Header,
    pub parent_header: Option<Header>,
    pub metadata: Option<Metadata>,
    pub content: JsonValue,
}

/// A message with typed content whose parent header may be absent.
#[derive(Debug, PartialEq)]
pub struct Envelope<T> {
    pub header: Header,
    pub parent_header: Option<Header>,
    pub metadata: Option<Metadata>,
    pub content: T,
}

/// The message types that have a content schema.
#[derive(Clone, Copy, Debug, PartialEq, Eq)]
pub enum MessageKind {
    DisplayData,
    UpdateDisplayData,
    ExecuteResult,
    Status,
    Stream,
    ExecuteInput,
    Error,
}

/// A decoded IOPub message.
#[derive(Debug, PartialEq)]
pub enum Message {
    DisplayData(IoPubEnvelope<DisplayData>),
    UpdateDisplayData(IoPubEnvelope<UpdateDisplayData>),
    ExecuteResult(IoPubEnvelope<ExecuteResult>),
    Status(IoPubEnvelope<Status>),
    Stream(IoPubEnvelope<Stream>),
    ExecuteInput(IoPubEnvelope<ExecuteInput>),
    Error(IoPubEnvelope<Error>),
    UnknownType(DynamicEnvelope),
}

/// Why a JSON value is not a message.
#[derive(Clone, Copy, Debug, PartialEq, Eq)]
pub enum DecodeError {
    /// The value is not a JSON object.
    NotAnObject,
    /// A field of the envelope itself is missing or of the wrong kind.
    MalformedEnvelope(FieldError),
    /// The header is not a valid header.
    MalformedHeader(FieldError),
    /// The parent header is present and not a valid header.
    MalformedParentHeader(FieldError),
    /// The message type is known and its content, or its parent header,
    /// does not fit it.
    MalformedContent { kind: MessageKind, cause: FieldError },
}

/// The known message type that a type string names, by exact match.
pub open spec fn message_kind(t: Seq<char>) -> Option<MessageKind> {
    if t == "display_data"@ {
        Some(MessageKind::DisplayData)
    } else if t == "update_display_data"@ {
        Some(MessageKind::UpdateDisplayData)
    } else if t == "execute_result"@ {
        Some(MessageKind::ExecuteResult)
    } else if t == "status"@ {
        Some(MessageKind::Status)
    } else if t == "stream"@ {
        Some(MessageKind::Stream)
    } else if t == "execute_input"@ {
        Some(MessageKind::ExecuteInput)
    } else if t == "error"@ {
        Some(MessageKind::Error)
    } else {
        None
    }
}

/// Finds the known message type that a type string names.
pub fn kind_of(t: &String) -> (r: Option<MessageKind>)
    ensures
        r == message_kind(t@),
{
    if text_is(t, "display_data") {
        Some(MessageKind::DisplayData)
    } else if text_is(t, "update_display_data") {
        Some(MessageKind::UpdateDisplayData)
    } else if text_is(t, "execute_result") {
        Some(MessageKind::ExecuteResult)
    } else if text_is(t, "status") {
        Some(MessageKind::Status)
    } else if text_is(t, "stream") {
        Some(MessageKind::Stream)
    } else if text_is(t, "execute_input") {
        Some(MessageKind::ExecuteInput)
    } else if text_is(t, "error") {
        Some(MessageKind::Error)
    } else {
        None
    }
}

/// The parent header: absent, `null` and `{}` all mean none; any other
/// object must be a valid header.
pub open spec fn parent_header_from(v: Option<JsonValue>) -> Result<Option<Header>, DecodeError> {
    match v {
        None => Ok(None),
        Some(x) => match x {
            JsonValue::Null => Ok(None),
            JsonValue::Object(entries) => if entries@.len() == 0 {
                Ok(None)
            } else {
                match header_from(x) {
                    Ok(h) => Ok(Some(h)),
                    Err(e) => Err(DecodeError::MalformedParentHeader(e)),
                }
            },
            _ => Err(DecodeError::MalformedEnvelope(FieldError::WrongType(Field::ParentHeader))),
        },
    }
}

/// The metadata: absent and `null` mean none, anything else is kept.
pub open spec fn metadata_from(v: Option<JsonValue>) -> Option<Metadata> {
    match v {
        None => None,
        Some(JsonValue::Null) => None,
        Some(x) => Some(Metadata(x)),
    }
}

/// The generic envelope read from a JSON value: a required header, an
/// optional parent header and metadata, and the content kept as it came.
pub open spec fn dynamic_envelope_from(v: JsonValue) -> Result<DynamicEnvelope, DecodeError> {
    match v {
        JsonValue::Object(entries) => match field_value(entries@, Field::Header) {
            None => Err(DecodeError::MalformedEnvelope(FieldError::Missing(Field::Header))),
            Some(h) => match header_from(h) {
                Err(e) => Err(DecodeError::MalformedHeader(e)),
                Ok(header) => match parent_header_from(field_value(entries@, Field::ParentHeader)) {
                    Err(e) => Err(e),
                    Ok(parent_header) => match field_value(entries@, Field::Content) {
                        None => Err(DecodeError::MalformedEnvelope(FieldError::Missing(Field::Content))),
                        Some(content) => Ok(
                            DynamicEnvelope {
                                header,
                                parent_header,
                                metadata: metadata_from(field_value(entries@, Field::Metadata)),
                                content,
                            },
                        ),
                    },
                },
            },
        },
        _ => Err(DecodeError::NotAnObject),
    }
}

/// The typed envelope that carries `content` in place of the dynamic one's.
pub open spec fn typed<T>(d: DynamicEnvelope, parent: Header, content: T) -> IoPubEnvelope<T> {
    IoPubEnvelope { header: d.header, parent_header: parent, metadata: d.metadata, content }
}

/// A content error of a known message type.
pub open spec fn content_error(kind: MessageKind, cause: FieldError) -> Result<Message, DecodeError> {
    Err(DecodeError::MalformedContent { kind, cause })
}

/// `r` is what a dynamic envelope of the known type `kind` becomes: an error
/// without a parent header, else the variant of `kind` with the content that
/// its schema reads, or that schema's error.
pub open spec fn known_message(d: DynamicEnvelope, kind: MessageKind, r: Result<Message, DecodeError>) -> bool {
    match d.parent_header {
        None => r == content_error(kind, FieldError::Missing(Field::ParentHeader)),
        Some(p) => match kind {
            MessageKind::DisplayData => match display_data_from(d.content) {
                Ok(c) => r == Ok::<Message, DecodeError>(Message::DisplayData(typed(d, p, c))),
                Err(e) => r == content_error(kind, e),
            },
            MessageKind::UpdateDisplayData => match update_display_data_from(d.content) {
                Ok(c) => r == Ok::<Message, DecodeError>(Message::UpdateDisplayData(typed(d, p, c))),
                Err(e) => r == content_error(kind, e),
            },
            MessageKind::ExecuteResult => match execute_result_from(d.content) {
                Ok(c) => r == Ok::<Message, DecodeError>(Message::ExecuteResult(typed(d, p, c))),
                Err(e) => r == content_error(kind, e),
            },
            MessageKind::Status => match status_from(d.content) {
                Ok(c) => r == Ok::<Message, DecodeError>(Message::Status(typed(d, p, c))),
                Err(e) => r == content_error(kind, e),
            },
            MessageKind::ExecuteInput => match execute_input_from(d.content) {
                Ok(c) => r == Ok::<Message, DecodeError>(Message::ExecuteInput(typed(d, p, c))),
                Err(e) => r == content_error(kind, e),
            },
            MessageKind::Stream => match stream_from(d.content) {
                Ok(s) => r matches Ok(Message::Stream(env)) && env.header == d.header && env.parent_header == p
                    && env.metadata == d.metadata && is_stream_of(env.content, s),
                Err(e) => r == content_error(kind, e),
            },
            MessageKind::Error => match error_from(d.content) {
                Ok(x) => r matches Ok(Message::Error(env)) && env.header == d.header && env.parent_header == p
                    && env.metadata == d.metadata && is_error_of(env.content, x),
                Err(e) => r == content_error(kind, e),
            },
        },
    }
}

/// `r` is what decoding the JSON value `v` gives: the envelope's error, the
/// whole envelope for a type outside the known set, or the known message.
pub open spec fn decoded_as(v: JsonValue, r: Result<Message, DecodeError>) -> bool {
    match dynamic_envelope_from(v) {
        Err(e) => r == Err::<Message, DecodeError>(e),
        Ok(d) => match message_kind(d.header.msg_type@) {
            None => r == Ok::<Message, DecodeError>(Message::UnknownType(d)),
            Some(kind) => known_message(d, kind, r),
        },
    }
}

/// The known type of a decoded message; none for a passed-through one.
pub open spec fn kind_of_message(m: Message) -> Option<MessageKind> {
    match m {
        Message::DisplayData(_) => Some(MessageKind::DisplayData),
        Message::UpdateDisplayData(_) => Some(MessageKind::UpdateDisplayData),
        Message::ExecuteResult(_) => Some(MessageKind::ExecuteResult),
        Message::Status(_) => Some(MessageKind::Status),
        Message::Stream(_) => Some(MessageKind::Stream),
        Message::ExecuteInput(_) => Some(MessageKind::ExecuteInput),
        Message::Error(_) => Some(MessageKind::Error),
        Message::UnknownType(_) => None,
    }
}

/// The content of `m` is what decoding `content` by the schema of its type gives.
pub open spec fn content_read_from(m: Message, content: JsonValue) -> bool {
    match m {
        Message::DisplayData(e) => display_data_from(content) == Ok::<DisplayData, FieldError>(e.content),
        Message::UpdateDisplayData(e) => update_display_data_from(content)
            == Ok::<UpdateDisplayData, FieldError>(e.content),
        Message::ExecuteResult(e) => execute_result_from(content) == Ok::<ExecuteResult, FieldError>(e.content),
        Message::Status(e) => status_from(content) == Ok::<Status, FieldError>(e.content),
        Message::Stream(e) => stream_from(content) matches Ok(s) && is_stream_of(e.content, s),
        Message::ExecuteInput(e) => execute_input_from(content) == Ok::<ExecuteInput, FieldError>(e.content),
        Message::Error(e) => error_from(content) matches Ok(x) && is_error_of(e.content, x),
        Message::UnknownType(_) => false,
    }
}

/// The schema of `kind` accepts `content`.
pub open spec fn schema_accepts(kind: MessageKind, content: JsonValue) -> bool {
    match kind {
        MessageKind::DisplayData => display_data_from(content) is Ok,
        MessageKind::UpdateDisplayData => update_display_data_from(content) is Ok,
        MessageKind::ExecuteResult => execute_result_from(content) is Ok,
        MessageKind::Status => status_from(content) is Ok,
        MessageKind::Stream => stream_from(content) is Ok,
        MessageKind::ExecuteInput => execute_input_from(content) is Ok,
        MessageKind::Error => error_from(content) is Ok,
    }
}

/// A valid envelope of a known type with a parent header decodes to the
/// variant of that type, whose content is what decoding the envelope's
/// content directly by that type's schema gives; where the schema refuses
/// the content, the error is the schema's, tagged with the type.
pub proof fn lemma_known_type_reads_content_by_its_schema(v: JsonValue, r: Result<Message, DecodeError>)
    requires
        decoded_as(v, r),
        dynamic_envelope_from(v) is Ok,
        message_kind(dynamic_envelope_from(v)->Ok_0.header.msg_type@) is Some,
        dynamic_envelope_from(v)->Ok_0.parent_header is Some,
    ensures
        ({
            let d = dynamic_envelope_from(v)->Ok_0;
            let kind = message_kind(d.header.msg_type@)->Some_0;
            if schema_accepts(kind, d.content) {
                &&& r is Ok
                &&& kind_of_message(r->Ok_0) == Some(kind)
                &&& content_read_from(r->Ok_0, d.content)
            } else {
                r matches Err(DecodeError::MalformedContent { kind: k, cause: _ }) && k == kind
            }
        }),
{
}

/// A valid envelope whose type is outside the known set is never an error:
/// it decodes to the whole envelope, with its content as it came.
pub proof fn lemma_unknown_type_passes_through(v: JsonValue, r: Result<Message, DecodeError>)
    requires
        decoded_as(v, r),
        dynamic_envelope_from(v) is Ok,
        message_kind(dynamic_envelope_from(v)->Ok_0.header.msg_type@) is None,
    ensures
        r == Ok::<Message, DecodeError>(Message::UnknownType(dynamic_envelope_from(v)->Ok_0)),
        Some(dynamic_envelope_from(v)->Ok_0.content) == field_value(v->Object_0@, Field::Content),
{
}

/// A message of a known type without a parent header is an error, never a
/// message with a made-up parent: with its content present, the error says
/// that the parent header is missing.
pub proof fn lemma_known_type_needs_parent_header(v: JsonValue, r: Result<Message, DecodeError>)
    requires
        decoded_as(v, r),
        v is Object,
        field_value(v->Object_0@, Field::ParentHeader) is None,
        field_value(v->Object_0@, Field::Header) matches Some(h) && header_from(h) matches Ok(header)
            && message_kind(header.msg_type@) is Some,
    ensures
        r is Err,
        field_value(v->Object_0@, Field::Content) is Some ==> r == content_error(
            message_kind(header_from(field_value(v->Object_0@, Field::Header)->Some_0)->Ok_0.msg_type@)->Some_0,
            FieldError::Missing(Field::ParentHeader),
        ),
{
}

impl DynamicEnvelope {
    /// Reads the generic envelope of a message.
    pub fn from_json(v: JsonValue) -> (r: Result<DynamicEnvelope, DecodeError>)
        ensures
            r == dynamic_envelope_from(v),
    {
        match v {
            JsonValue::Object(mut entries) => {
                let header = match take_value(&mut entries, Field::Header) {
                    None => return Err(DecodeError::MalformedEnvelope(FieldError::Missing(Field::Header))),
                    Some(h) => match Header::from_json(h) {
                        Ok(h) => h,
                        Err(e) => return Err(DecodeError::MalformedHeader(e)),
                    },
                };
                let parent_header = match take_value(&mut entries, Field::ParentHeader) {
                    None => None,
                    Some(JsonValue::Null) => None,
                    Some(JsonValue::Object(fields)) => {
                        if fields.len() == 0 {
                            None
                        } else {
                            match Header::from_json(JsonValue::Object(fields)) {
                                Ok(h) => Some(h),
                                Err(e) => return Err(DecodeError::MalformedParentHeader(e)),
                            }
                        }
                    },
                    Some(_) => return Err(
                        DecodeError::MalformedEnvelope(FieldError::WrongType(Field::ParentHeader)),
                    ),
                };
                let metadata = match take_value(&mut entries, Field::Metadata) {
                    None => None,
                    Some(JsonValue::Null) => None,
                    Some(m) => Some(Metadata(m)),
                };
                match take_value(&mut entries, Field::Content) {
                    None => Err(DecodeError::MalformedEnvelope(FieldError::Missing(Field::Content))),
                    Some(content) => Ok(DynamicEnvelope { header, parent_header, metadata, content }),
                }
            },
            _ => Err(DecodeError::NotAnObject),
        }
    }
}

/// Turns a dynamic envelope of the known type `kind` into its message:
/// the parent header must be there, and the content must fit the schema.
pub fn unwrap_dynamic_envelope(d: DynamicEnvelope, kind: MessageKind) -> (r: Result<Message, DecodeError>)
    ensures
        known_message(d, kind, r),
{
    let DynamicEnvelope { header, parent_header, metadata, content } = d;
    let parent_header = match parent_header {
        Some(p) => p,
        None => return Err(DecodeError::MalformedContent { kind, cause: FieldError::Missing(Field::ParentHeader) }),
    };
    match kind {
        MessageKind::DisplayData => match DisplayData::from_json(content) {
            Ok(c) => Ok(Message::DisplayData(IoPubEnvelope { header, parent_header, metadata, content: c })),
            Err(cause) => Err(DecodeError::MalformedContent { kind, cause }),
        },
        MessageKind::UpdateDisplayData => match UpdateDisplayData::from_json(content) {
            Ok(c) => Ok(Message::UpdateDisplayData(IoPubEnvelope { header, parent_header, metadata, content: c })),
            Err(cause) => Err(DecodeError::MalformedContent { kind, cause }),
        },
        MessageKind::ExecuteResult => match ExecuteResult::from_json(content) {
            Ok(c) => Ok(Message::ExecuteResult(IoPubEnvelope { header, parent_header, metadata, content: c })),
            Err(cause) => Err(DecodeError::MalformedContent { kind, cause }),
        },
        MessageKind::Status => match Status::from_json(content) {
            Ok(c) => Ok(Message::Status(IoPubEnvelope { header, parent_header, metadata, content: c })),
            Err(cause) => Err(DecodeError::MalformedContent { kind, cause }),
        },
        MessageKind::Stream => match Stream::from_json(content) {
            Ok(c) => Ok(Message::Stream(IoPubEnvelope { header, parent_header, metadata, content: c })),
            Err(cause) => Err(DecodeError::MalformedContent { kind, cause }),
        },
        MessageKind::ExecuteInput => match ExecuteInput::from_json(content) {
            Ok(c) => Ok(Message::ExecuteInput(IoPubEnvelope { header, parent_header, metadata, content: c })),
            Err(cause) => Err(DecodeError::MalformedContent { kind, cause }),
        },
        MessageKind::Error => match Error::from_json(content) {
            Ok(c) => Ok(Message::Error(IoPubEnvelope { header, parent_header, metadata, content: c })),
            Err(cause) => Err(DecodeError::MalformedContent { kind, cause }),
        },
    }
}

impl Message {
    /// Decodes one message from a JSON value.
    pub fn deserialize(v: JsonValue) -> (r: Result<Message, DecodeError>)
        ensures
            decoded_as(v, r),
    {
        let d = match DynamicEnvelope::from_json(v) {
            Ok(d) => d,
            Err(e) => return Err(e),
        };
        match kind_of(&d.header.msg_type) {
            None => Ok(Message::UnknownType(d)),
            Some(kind) => unwrap_dynamic_envelope(d, kind),
        }
    }
}

} // verus!
