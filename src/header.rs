//! The header that identifies one message, and the time it carries.

use vstd::prelude::*;
use crate::field::{field_value, string_from, take_string, Field, FieldError};
use crate::json::JsonValue;

verus! {

/// A point in time: whole seconds since the Unix epoch, and nanoseconds
/// past that second.
#[derive(Clone, Copy, Debug, PartialEq, Eq)]
pub struct Timestamp {
    pub seconds: i64,
    pub nanos: u32,
}

/// The time that a date text names, as seconds and nanoseconds since the
/// epoch in UTC, if the text is a date at all.
pub uninterp spec fn utc_time_of(text: Seq<char>) -> Option<(i64, u32)>;

/// The time that a date text names, if it names one.
pub open spec fn timestamp_of(text: Seq<char>) -> Option<Timestamp> {
    match utc_time_of(text) {
        Some(t) => Some(Timestamp { seconds: t.0, nanos: t.1 }),
        None => None,
    }
}

/// Relies on chrono's `FromStr for DateTime<Utc>`, which reads an RFC 3339
/// date (a space may stand for the `T`) and converts it to UTC, and on
/// `DateTime::timestamp` and `DateTime::timestamp_subsec_nanos`; the result
/// depends on the text alone.
#[verifier::external_body]
fn parse_utc(text: &str) -> (r: Option<Timestamp>)
    ensures
        match utc_time_of(text@) {
            Some(t) => r == Some((Timestamp { seconds: t.0, nanos: t.1 })),
            None => r is None,
        },
{
    match text.parse::<chrono::DateTime<chrono::Utc>>() {
        Ok(d) => Some(Timestamp { seconds: d.timestamp(), nanos: d.timestamp_subsec_nanos() }),
        Err(_) => None,
    }
}

/// Relies on chrono's `Utc::now`: the current time, of which nothing more is
/// known.
#[verifier::external_body]
fn utc_now() -> (r: Timestamp) {
    let d = chrono::Utc::now();
    Timestamp { seconds: d.timestamp(), nanos: d.timestamp_subsec_nanos() }
}

/// Relies on uuid's `Uuid::new_v4`, a random identifier, and on its
/// `Display`, which writes the hyphenated form of 36 characters.
#[verifier::external_body]
fn new_v4_text() -> (r: String)
    ensures
        r@.len() == 36,
{
    uuid::Uuid::new_v4().to_string()
}

/// The identity of one message.
#[derive(Clone, Debug, PartialEq)]
pub struct Header {
    pub msg_id: String,
    pub session: String,
    pub username: String,
    pub date: Timestamp,
    pub msg_type: String,
    pub version: String,
}

/// The header read from a JSON value: an object with the string fields
/// `msg_id`, `session`, `username`, `date`, `msg_type` and `version`, where
/// `date` must name a time.
pub open spec fn header_from(v: JsonValue) -> Result<Header, FieldError> {
    match v {
        JsonValue::Object(entries) => match string_from(field_value(entries@, Field::MsgId), Field::MsgId) {
            Err(e) => Err(e),
            Ok(msg_id) => match string_from(field_value(entries@, Field::Session), Field::Session) {
                Err(e) => Err(e),
                Ok(session) => match string_from(field_value(entries@, Field::Username), Field::Username) {
                    Err(e) => Err(e),
                    Ok(username) => match string_from(field_value(entries@, Field::Date), Field::Date) {
                        Err(e) => Err(e),
                        Ok(date_text) => match timestamp_of(date_text@) {
                            None => Err(FieldError::InvalidValue(Field::Date)),
                            Some(date) => match string_from(field_value(entries@, Field::MsgType), Field::MsgType) {
                                Err(e) => Err(e),
                                Ok(msg_type) => match string_from(field_value(entries@, Field::Version), Field::Version) {
                                    Err(e) => Err(e),
                                    Ok(version) => Ok(Header { msg_id, session, username, date, msg_type, version }),
                                },
                            },
                        },
                    },
                },
            },
        },
        _ => Err(FieldError::WrongType(Field::Header)),
    }
}

impl Header {
    /// A header for a message of type `msg_type` sent from here: fresh
    /// message and session ids, the current time, and protocol version 5.3.
    pub fn new(msg_type: String) -> (r: Header)
        ensures
            r.msg_type == msg_type,
            r.msg_id@.len() == 36,
            r.session@.len() == 36,
            r.username@ == "kernel_sidecar"@,
            r.version@ == "5.3"@,
    {
        Header {
            msg_id: new_v4_text(),
            session: new_v4_text(),
            username: "kernel_sidecar".to_owned(),
            date: utc_now(),
            msg_type,
            version: "5.3".to_owned(),
        }
    }

    /// Reads a header from a JSON value.
    pub fn from_json(v: JsonValue) -> (r: Result<Header, FieldError>)
        ensures
            r == header_from(v),
    {
        match v {
            JsonValue::Object(mut entries) => {
                let msg_id = match take_string(&mut entries, Field::MsgId) {
                    Ok(s) => s,
                    Err(e) => return Err(e),
                };
                let session = match take_string(&mut entries, Field::Session) {
                    Ok(s) => s,
                    Err(e) => return Err(e),
                };
                let username = match take_string(&mut entries, Field::Username) {
                    Ok(s) => s,
                    Err(e) => return Err(e),
                };
                let date = match take_string(&mut entries, Field::Date) {
                    Ok(s) => match parse_utc(s.as_str()) {
                        Some(t) => t,
                        None => return Err(FieldError::InvalidValue(Field::Date)),
                    },
                    Err(e) => return Err(e),
                };
                let msg_type = match take_string(&mut entries, Field::MsgType) {
                    Ok(s) => s,
                    Err(e) => return Err(e),
                };
                match take_string(&mut entries, Field::Version) {
                    Ok(version) => Ok(Header { msg_id, session, username, date, msg_type, version }),
                    Err(e) => Err(e),
                }
            },
            _ => Err(FieldError::WrongType(Field::Header)),
        }
    }
}

} // verus!
