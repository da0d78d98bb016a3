//! Named fields of the wire format, the ways a field can be wrong, and typed
//! extraction of fields from a JSON object.

use vstd::prelude::*;
use crate::json::{entry_value, take_entry, JsonNumber, JsonValue};

verus! {

/// A field that some part of a message is read from.
#[derive(Clone, Copy, Debug, PartialEq, Eq)]
pub enum Field {
    Header,
    ParentHeader,
    Metadata,
    Content,
    MsgId,
    Session,
    Username,
    Date,
    MsgType,
    Version,
    ExecutionState,
    Name,
    Text,
    Data,
    Transient,
    DisplayId,
    Code,
    ExecutionCount,
    Ename,
    Evalue,
    Traceback,
}

/// Why a field could not be read.
#[derive(Clone, Copy, Debug, PartialEq, Eq)]
pub enum FieldError {
    /// The field is required and absent.
    Missing(Field),
    /// The field holds a JSON value of the wrong kind.
    WrongType(Field),
    /// The field holds a value of the right kind that is not allowed there
    /// (an unknown name, a count out of range, a date that does not parse).
    InvalidValue(Field),
    /// A source text that is neither a string nor a list of lines.
    InvalidSourceFormat,
}

/// The key under which a field stands on the wire.
pub open spec fn field_key(f: Field) -> Seq<char> {
    match f {
        Field::Header => "header"@,
        Field::ParentHeader => "parent_header"@,
        Field::Metadata => "metadata"@,
        Field::Content => "content"@,
        Field::MsgId => "msg_id"@,
        Field::Session => "session"@,
        Field::Username => "username"@,
        Field::Date => "date"@,
        Field::MsgType => "msg_type"@,
        Field::Version => "version"@,
        Field::ExecutionState => "execution_state"@,
        Field::Name => "name"@,
        Field::Text => "text"@,
        Field::Data => "data"@,
        Field::Transient => "transient"@,
        Field::DisplayId => "display_id"@,
        Field::Code => "code"@,
        Field::ExecutionCount => "execution_count"@,
        Field::Ename => "ename"@,
        Field::Evalue => "evalue"@,
        Field::Traceback => "traceback"@,
    }
}

impl Field {
    /// The key under which this field stands on the wire.
    pub fn key(self) -> (r: &'static str)
        ensures
            r@ == field_key(self),
    {
        match self {
            Field::Header => "header",
            Field::ParentHeader => "parent_header",
            Field::Metadata => "metadata",
            Field::Content => "content",
            Field::MsgId => "msg_id",
            Field::Session => "session",
            Field::Username => "username",
            Field::Date => "date",
            Field::MsgType => "msg_type",
            Field::Version => "version",
            Field::ExecutionState => "execution_state",
            Field::Name => "name",
            Field::Text => "text",
            Field::Data => "data",
            Field::Transient => "transient",
            Field::DisplayId => "display_id",
            Field::Code => "code",
            Field::ExecutionCount => "execution_count",
            Field::Ename => "ename",
            Field::Evalue => "evalue",
            Field::Traceback => "traceback",
        }
    }
}

/// Distinct fields stand under distinct keys.
pub proof fn lemma_field_keys_differ(f: Field, g: Field)
    requires
        f != g,
    ensures
        field_key(f) != field_key(g),
{
    reveal_strlit("header");
    reveal_strlit("parent_header");
    reveal_strlit("metadata");
    reveal_strlit("content");
    reveal_strlit("msg_id");
    reveal_strlit("session");
    reveal_strlit("username");
    reveal_strlit("date");
    reveal_strlit("msg_type");
    reveal_strlit("version");
    reveal_strlit("execution_state");
    reveal_strlit("name");
    reveal_strlit("text");
    reveal_strlit("data");
    reveal_strlit("transient");
    reveal_strlit("display_id");
    reveal_strlit("code");
    reveal_strlit("execution_count");
    reveal_strlit("ename");
    reveal_strlit("evalue");
    reveal_strlit("traceback");
    if field_key(f) == field_key(g) {
        assert(field_key(f).len() == field_key(g).len());
        assert(field_key(f)[0] == field_key(g)[0]);
        assert(field_key(f)[1] == field_key(g)[1]);
        assert(field_key(f)[3] == field_key(g)[3]);
        if field_key(f).len() > 10 {
            assert(field_key(f)[10] == field_key(g)[10]);
        }
    }
}

/// The value under a field of an object, if the object has that field.
pub open spec fn field_value(entries: Seq<(String, JsonValue)>, f: Field) -> Option<JsonValue> {
    entry_value(entries, field_key(f))
}

/// Every field but `f` reads the same in `after` as in `before`.
pub open spec fn keeps_other_fields(
    before: Seq<(String, JsonValue)>,
    after: Seq<(String, JsonValue)>,
    f: Field,
) -> bool {
    forall|g: Field| g != f ==> #[trigger] field_value(after, g) == field_value(before, g)
}

/// A required field of any kind.
pub open spec fn required_value(v: Option<JsonValue>, f: Field) -> Result<JsonValue, FieldError> {
    match v {
        Some(x) => Ok(x),
        None => Err(FieldError::Missing(f)),
    }
}

/// A required string field.
pub open spec fn string_from(v: Option<JsonValue>, f: Field) -> Result<String, FieldError> {
    match v {
        Some(JsonValue::Str(s)) => Ok(s),
        Some(_) => Err(FieldError::WrongType(f)),
        None => Err(FieldError::Missing(f)),
    }
}

/// A required object field, as its entries.
pub open spec fn object_from(v: Option<JsonValue>, f: Field) -> Result<Vec<(String, JsonValue)>, FieldError> {
    match v {
        Some(JsonValue::Object(entries)) => Ok(entries),
        Some(_) => Err(FieldError::WrongType(f)),
        None => Err(FieldError::Missing(f)),
    }
}

/// A required count: an integer from 0 to `u32::MAX`.
pub open spec fn count_from(v: Option<JsonValue>, f: Field) -> Result<u32, FieldError> {
    match v {
        Some(JsonValue::Number(JsonNumber::Int(n))) => if 0 <= n <= u32::MAX {
            Ok(n as u32)
        } else {
            Err(FieldError::InvalidValue(f))
        },
        Some(_) => Err(FieldError::WrongType(f)),
        None => Err(FieldError::Missing(f)),
    }
}

/// Every item is a string.
pub open spec fn all_strings(items: Seq<JsonValue>) -> bool {
    forall|i: int| 0 <= i < items.len() ==> #[trigger] items[i] is Str
}

/// A required list of strings.
pub open spec fn strings_from(v: Option<JsonValue>, f: Field) -> Result<Seq<String>, FieldError> {
    match v {
        Some(JsonValue::Array(items)) => if all_strings(items@) {
            Ok(items@.map_values(|x: JsonValue| x->Str_0))
        } else {
            Err(FieldError::WrongType(f))
        },
        Some(_) => Err(FieldError::WrongType(f)),
        None => Err(FieldError::Missing(f)),
    }
}

/// Takes out the value of field `f` of an object, if it has one.
pub fn take_value(entries: &mut Vec<(String, JsonValue)>, f: Field) -> (r: Option<JsonValue>)
    ensures
        r == field_value(old(entries)@, f),
        keeps_other_fields(old(entries)@, final(entries)@, f),
{
    let ghost before = entries@;
    let r = take_entry(entries, f.key());
    proof {
        assert forall|g: Field| g != f implies #[trigger] field_value(entries@, g) == field_value(before, g) by {
            lemma_field_keys_differ(g, f);
        }
    }
    r
}

/// Takes out the string field `f` of an object.
pub fn take_string(entries: &mut Vec<(String, JsonValue)>, f: Field) -> (r: Result<String, FieldError>)
    ensures
        r == string_from(field_value(old(entries)@, f), f),
        keeps_other_fields(old(entries)@, final(entries)@, f),
{
    match take_value(entries, f) {
        Some(JsonValue::Str(s)) => Ok(s),
        Some(_) => Err(FieldError::WrongType(f)),
        None => Err(FieldError::Missing(f)),
    }
}

/// Takes out the object field `f` of an object, as its entries.
pub fn take_object(entries: &mut Vec<(String, JsonValue)>, f: Field) -> (r: Result<Vec<(String, JsonValue)>, FieldError>)
    ensures
        r == object_from(field_value(old(entries)@, f), f),
        keeps_other_fields(old(entries)@, final(entries)@, f),
{
    match take_value(entries, f) {
        Some(JsonValue::Object(inner)) => Ok(inner),
        Some(_) => Err(FieldError::WrongType(f)),
        None => Err(FieldError::Missing(f)),
    }
}

/// Takes out the required field `f` of an object, whatever its kind.
pub fn take_required(entries: &mut Vec<(String, JsonValue)>, f: Field) -> (r: Result<JsonValue, FieldError>)
    ensures
        r == required_value(field_value(old(entries)@, f), f),
        keeps_other_fields(old(entries)@, final(entries)@, f),
{
    match take_value(entries, f) {
        Some(v) => Ok(v),
        None => Err(FieldError::Missing(f)),
    }
}

/// Takes out the count field `f` of an object.
pub fn take_count(entries: &mut Vec<(String, JsonValue)>, f: Field) -> (r: Result<u32, FieldError>)
    ensures
        r == count_from(field_value(old(entries)@, f), f),
        keeps_other_fields(old(entries)@, final(entries)@, f),
{
    match take_value(entries, f) {
        Some(JsonValue::Number(JsonNumber::Int(n))) => {
            if 0 <= n && n <= u32::MAX as i128 {
                Ok(n as u32)
            } else {
                Err(FieldError::InvalidValue(f))
            }
        },
        Some(_) => Err(FieldError::WrongType(f)),
        None => Err(FieldError::Missing(f)),
    }
}

/// Copies out a list of strings; any other item makes it a wrong type for `f`.
fn strings_of(items: &Vec<JsonValue>, f: Field) -> (r: Result<Vec<String>, FieldError>)
    ensures
        match r {
            Ok(v) => all_strings(items@) && v@ == items@.map_values(|x: JsonValue| x->Str_0),
            Err(e) => !all_strings(items@) && e == FieldError::WrongType(f),
        },
{
    let mut out: Vec<String> = Vec::new();
    let mut i: usize = 0;
    while i < items.len()
        invariant
            i <= items.len(),
            out@.len() == i,
            forall|j: int| 0 <= j < i ==> #[trigger] items@[j] is Str && out@[j] == items@[j]->Str_0,
        decreases items.len() - i,
    {
        match &items[i] {
            JsonValue::Str(s) => out.push(s.clone()),
            _ => return Err(FieldError::WrongType(f)),
        }
        i += 1;
    }
    assert(out@ =~= items@.map_values(|x: JsonValue| x->Str_0));
    Ok(out)
}

/// Takes out the field `f` of an object, which must be a list of strings.
pub fn take_strings(entries: &mut Vec<(String, JsonValue)>, f: Field) -> (r: Result<Vec<String>, FieldError>)
    ensures
        match strings_from(field_value(old(entries)@, f), f) {
            Ok(ss) => r matches Ok(v) && v@ == ss,
            Err(e) => r == Err::<Vec<String>, FieldError>(e),
        },
        keeps_other_fields(old(entries)@, final(entries)@, f),
{
    match take_value(entries, f) {
        Some(JsonValue::Array(items)) => strings_of(&items, f),
        Some(_) => Err(FieldError::WrongType(f)),
        None => Err(FieldError::Missing(f)),
    }
}

} // verus!
