//! The content schemas of the IOPub messages, each decoded from the JSON
//! value that an envelope carries as its content.
//!
//! A schema reads its fields in the order in which they are declared and
//! reports the first one that is wrong. Fields that a schema does not name
//! are ignored.

use vstd::prelude::*;
use crate::field::{
    count_from, field_value, object_from, required_value, string_from, strings_from,
    take_count, take_object, take_required, take_string, take_strings, take_value, Field,
    FieldError,
};
use crate::json::{text_is, JsonValue};

verus! {

/// Identifies a display, so that a later update can replace it.
#[derive(Clone, Debug, PartialEq)]
pub struct Transient {
    pub display_id: String,
}

/// Replaces the output of an earlier display with the same display id.
#[derive(Debug, PartialEq)]
pub struct UpdateDisplayData {
    pub data: Vec<(String, JsonValue)>,
    pub metadata: JsonValue,
    pub transient: Option<Transient>,
}

/// Output to show: a bundle from mime type to value.
#[derive(Debug, PartialEq)]
pub struct DisplayData {
    pub data: Vec<(String, JsonValue)>,
    pub metadata: JsonValue,
    pub transient: Option<Transient>,
}

/// The echo of code that was sent to run.
#[derive(Clone, Debug, PartialEq)]
pub struct ExecuteInput {
    pub code: String,
    pub execution_count: u32,
}

/// What the kernel is doing.
#[derive(Clone, Copy, Debug, PartialEq, Eq)]
pub enum KernelStatus {
    Busy,
    Idle,
    Starting,
}

/// A change of the kernel's state.
#[derive(Clone, Copy, Debug, PartialEq, Eq)]
pub struct Status {
    pub execution_state: KernelStatus,
}

/// The stream that text was written to.
#[derive(Clone, Copy, Debug, PartialEq, Eq)]
pub enum StreamName {
    Stdout,
    Stderr,
}

/// Text written to a stream.
#[derive(Clone, Debug, PartialEq)]
pub struct Stream {
    pub name: StreamName,
    pub text: String,
}

/// The value of the last expression of a cell.
#[derive(Debug, PartialEq)]
pub struct ExecuteResult {
    pub execution_count: u32,
    pub data: Vec<(String, JsonValue)>,
    pub metadata: JsonValue,
}

/// An exception raised while running code.
#[derive(Clone, Debug, PartialEq)]
pub struct Error {
    pub ename: String,
    pub evalue: String,
    pub traceback: Vec<String>,
}

/// The text of one line of a list of lines: a string, or nothing for `null`.
pub open spec fn line_of(v: JsonValue) -> Option<Seq<char>> {
    match v {
        JsonValue::Str(s) => Some(s@),
        JsonValue::Null => Some(Seq::empty()),
        _ => None,
    }
}

/// Every item can stand as a line.
pub open spec fn all_lines(items: Seq<JsonValue>) -> bool {
    forall|i: int| 0 <= i < items.len() ==> (#[trigger] line_of(items[i])) is Some
}

/// The text of a line, empty where the item is no line.
pub open spec fn line_text(v: JsonValue) -> Seq<char> {
    match line_of(v) {
        Some(t) => t,
        None => Seq::empty(),
    }
}

/// The lines joined with a newline between each two.
pub open spec fn joined_lines(items: Seq<JsonValue>) -> Seq<char>
    decreases items.len(),
{
    if items.len() == 0 {
        Seq::empty()
    } else if items.len() == 1 {
        line_text(items[0])
    } else {
        joined_lines(items.drop_last()) + seq!['\n'] + line_text(items.last())
    }
}

/// A source text: a string as it stands, or a list of lines joined by newlines.
pub open spec fn source_text(v: JsonValue) -> Option<Seq<char>> {
    match v {
        JsonValue::Str(s) => Some(s@),
        JsonValue::Array(items) => if all_lines(items@) {
            Some(joined_lines(items@))
        } else {
            None
        },
        _ => None,
    }
}

fn join_lines(items: &Vec<JsonValue>) -> (r: Result<String, FieldError>)
    ensures
        match r {
            Ok(s) => all_lines(items@) && s@ == joined_lines(items@),
            Err(e) => !all_lines(items@) && e == FieldError::InvalidSourceFormat,
        },
{
    let mut text = String::new();
    let mut i: usize = 0;
    while i < items.len()
        invariant
            i <= items.len(),
            forall|j: int| 0 <= j < i ==> (#[trigger] line_of(items@[j])) is Some,
            text@ == joined_lines(items@.take(i as int)),
        decreases items.len() - i,
    {
        let line: &str = match &items[i] {
            JsonValue::Str(s) => s.as_str(),
            JsonValue::Null => "",
            _ => {
                assert(line_of(items@[i as int]) is None);
                return Err(FieldError::InvalidSourceFormat);
            },
        };
        proof {
            reveal_strlit("");
            reveal_strlit("\n");
            assert(items@.take(i + 1).drop_last() =~= items@.take(i as int));
        }
        if i > 0 {
            text.append("\n");
        }
        text.append(line);
        proof {
            assert(text@ =~= joined_lines(items@.take(i + 1)));
        }
        i += 1;
    }
    assert(items@.take(items@.len() as int) =~= items@);
    Ok(text)
}

/// Reads a source text, given either as one string or as a list of lines.
/// A list is joined with a newline between each two lines, and a `null`
/// line counts as empty; any other item, or any other kind of value, is an
/// invalid source format.
pub fn list_or_string_to_string(source: &JsonValue) -> (r: Result<String, FieldError>)
    ensures
        match source_text(*source) {
            Some(t) => r matches Ok(s) && s@ == t,
            None => r == Err::<String, FieldError>(FieldError::InvalidSourceFormat),
        },
{
    match source {
        JsonValue::Str(s) => Ok(s.clone()),
        JsonValue::Array(items) => join_lines(items),
        _ => Err(FieldError::InvalidSourceFormat),
    }
}

/// The transient field: absent, `null` and `{}` all mean no transient; any
/// other object must carry a display id.
pub open spec fn transient_from(v: Option<JsonValue>) -> Result<Option<Transient>, FieldError> {
    match v {
        None => Ok(None),
        Some(JsonValue::Null) => Ok(None),
        Some(JsonValue::Object(entries)) => if entries@.len() == 0 {
            Ok(None)
        } else {
            match string_from(field_value(entries@, Field::DisplayId), Field::DisplayId) {
                Ok(id) => Ok(Some(Transient { display_id: id })),
                Err(e) => Err(e),
            }
        },
        Some(_) => Err(FieldError::WrongType(Field::Transient)),
    }
}

/// Reads the transient field of a display, normalizing an empty one to none.
pub fn deserialize_transient(v: Option<JsonValue>) -> (r: Result<Option<Transient>, FieldError>)
    ensures
        r == transient_from(v),
{
    match v {
        None => Ok(None),
        Some(JsonValue::Null) => Ok(None),
        Some(JsonValue::Object(mut entries)) => {
            if entries.len() == 0 {
                Ok(None)
            } else {
                match take_string(&mut entries, Field::DisplayId) {
                    Ok(id) => Ok(Some(Transient { display_id: id })),
                    Err(e) => Err(e),
                }
            }
        },
        Some(_) => Err(FieldError::WrongType(Field::Transient)),
    }
}

/// The display data schema read from a content value.
pub open spec fn display_data_from(content: JsonValue) -> Result<DisplayData, FieldError> {
    match content {
        JsonValue::Object(entries) => match object_from(field_value(entries@, Field::Data), Field::Data) {
            Err(e) => Err(e),
            Ok(data) => match required_value(field_value(entries@, Field::Metadata), Field::Metadata) {
                Err(e) => Err(e),
                Ok(metadata) => match transient_from(field_value(entries@, Field::Transient)) {
                    Err(e) => Err(e),
                    Ok(transient) => Ok(DisplayData { data, metadata, transient }),
                },
            },
        },
        _ => Err(FieldError::WrongType(Field::Content)),
    }
}

/// The update display data schema read from a content value: the same
/// fields as a display.
pub open spec fn update_display_data_from(content: JsonValue) -> Result<UpdateDisplayData, FieldError> {
    match display_data_from(content) {
        Ok(d) => Ok(UpdateDisplayData { data: d.data, metadata: d.metadata, transient: d.transient }),
        Err(e) => Err(e),
    }
}

/// The kernel state named by a string field.
pub open spec fn kernel_status_from(v: Option<JsonValue>) -> Result<KernelStatus, FieldError> {
    match v {
        Some(JsonValue::Str(s)) => if s@ == "busy"@ {
            Ok(KernelStatus::Busy)
        } else if s@ == "idle"@ {
            Ok(KernelStatus::Idle)
        } else if s@ == "starting"@ {
            Ok(KernelStatus::Starting)
        } else {
            Err(FieldError::InvalidValue(Field::ExecutionState))
        },
        Some(_) => Err(FieldError::WrongType(Field::ExecutionState)),
        None => Err(FieldError::Missing(Field::ExecutionState)),
    }
}

/// The status schema read from a content value.
pub open spec fn status_from(content: JsonValue) -> Result<Status, FieldError> {
    match content {
        JsonValue::Object(entries) => match kernel_status_from(field_value(entries@, Field::ExecutionState)) {
            Ok(state) => Ok(Status { execution_state: state }),
            Err(e) => Err(e),
        },
        _ => Err(FieldError::WrongType(Field::Content)),
    }
}

/// The stream named by a string field.
pub open spec fn stream_name_from(v: Option<JsonValue>) -> Result<StreamName, FieldError> {
    match v {
        Some(JsonValue::Str(s)) => if s@ == "stdout"@ {
            Ok(StreamName::Stdout)
        } else if s@ == "stderr"@ {
            Ok(StreamName::Stderr)
        } else {
            Err(FieldError::InvalidValue(Field::Name))
        },
        Some(_) => Err(FieldError::WrongType(Field::Name)),
        None => Err(FieldError::Missing(Field::Name)),
    }
}

/// The text field of a stream, as a source text.
pub open spec fn stream_text_from(v: Option<JsonValue>) -> Result<Seq<char>, FieldError> {
    match v {
        Some(x) => match source_text(x) {
            Some(t) => Ok(t),
            None => Err(FieldError::InvalidSourceFormat),
        },
        None => Err(FieldError::Missing(Field::Text)),
    }
}

/// The stream schema read from a content value: the stream and its text.
pub open spec fn stream_from(content: JsonValue) -> Result<(StreamName, Seq<char>), FieldError> {
    match content {
        JsonValue::Object(entries) => match stream_name_from(field_value(entries@, Field::Name)) {
            Err(e) => Err(e),
            Ok(name) => match stream_text_from(field_value(entries@, Field::Text)) {
                Err(e) => Err(e),
                Ok(text) => Ok((name, text)),
            },
        },
        _ => Err(FieldError::WrongType(Field::Content)),
    }
}

/// A stream content is what `stream_from` gives.
pub open spec fn is_stream_of(r: Stream, s: (StreamName, Seq<char>)) -> bool {
    r.name == s.0 && r.text@ == s.1
}

/// The execute input schema read from a content value.
pub open spec fn execute_input_from(content: JsonValue) -> Result<ExecuteInput, FieldError> {
    match content {
        JsonValue::Object(entries) => match string_from(field_value(entries@, Field::Code), Field::Code) {
            Err(e) => Err(e),
            Ok(code) => match count_from(field_value(entries@, Field::ExecutionCount), Field::ExecutionCount) {
                Err(e) => Err(e),
                Ok(execution_count) => Ok(ExecuteInput { code, execution_count }),
            },
        },
        _ => Err(FieldError::WrongType(Field::Content)),
    }
}

/// The execute result schema read from a content value.
pub open spec fn execute_result_from(content: JsonValue) -> Result<ExecuteResult, FieldError> {
    match content {
        JsonValue::Object(entries) => match count_from(field_value(entries@, Field::ExecutionCount), Field::ExecutionCount) {
            Err(e) => Err(e),
            Ok(execution_count) => match object_from(field_value(entries@, Field::Data), Field::Data) {
                Err(e) => Err(e),
                Ok(data) => match required_value(field_value(entries@, Field::Metadata), Field::Metadata) {
                    Err(e) => Err(e),
                    Ok(metadata) => Ok(ExecuteResult { execution_count, data, metadata }),
                },
            },
        },
        _ => Err(FieldError::WrongType(Field::Content)),
    }
}

/// The error schema read from a content value: name, value and traceback.
pub open spec fn error_from(content: JsonValue) -> Result<(String, String, Seq<String>), FieldError> {
    match content {
        JsonValue::Object(entries) => match string_from(field_value(entries@, Field::Ename), Field::Ename) {
            Err(e) => Err(e),
            Ok(ename) => match string_from(field_value(entries@, Field::Evalue), Field::Evalue) {
                Err(e) => Err(e),
                Ok(evalue) => match strings_from(field_value(entries@, Field::Traceback), Field::Traceback) {
                    Err(e) => Err(e),
                    Ok(traceback) => Ok((ename, evalue, traceback)),
                },
            },
        },
        _ => Err(FieldError::WrongType(Field::Content)),
    }
}

/// An error content is what `error_from` gives.
pub open spec fn is_error_of(r: Error, e: (String, String, Seq<String>)) -> bool {
    r.ename == e.0 && r.evalue == e.1 && r.traceback@ == e.2
}

/// Two lines given as a list read as the same text as the one string that
/// joins them with a newline.
pub proof fn lemma_lines_read_as_joined_string(a: String, b: String, lines: Vec<JsonValue>, joined: String)
    requires
        lines@ == seq![JsonValue::Str(a), JsonValue::Str(b)],
        joined@ == a@ + seq!['\n'] + b@,
    ensures
        source_text(JsonValue::Array(lines)) == Some(joined@),
        source_text(JsonValue::Str(joined)) == Some(joined@),
{
    assert(line_of(lines@[0]) is Some);
    assert(line_of(lines@[1]) is Some);
    assert(all_lines(lines@));
    assert(lines@.drop_last() =~= seq![JsonValue::Str(a)]);
    assert(joined_lines(lines@.drop_last()) == a@);
    assert(joined_lines(lines@) =~= a@ + seq!['\n'] + b@);
}

/// An absent, `null` or empty transient means no transient; a non-empty
/// object gives the display id it holds, and is an error without one.
pub proof fn lemma_transient_normalization(entries: Vec<(String, JsonValue)>)
    ensures
        transient_from(None) == Ok::<Option<Transient>, FieldError>(None),
        transient_from(Some(JsonValue::Null)) == Ok::<Option<Transient>, FieldError>(None),
        entries@.len() == 0 ==> transient_from(Some(JsonValue::Object(entries)))
            == Ok::<Option<Transient>, FieldError>(None),
        entries@.len() > 0 ==> match field_value(entries@, Field::DisplayId) {
            Some(JsonValue::Str(id)) => transient_from(Some(JsonValue::Object(entries)))
                == Ok::<Option<Transient>, FieldError>(Some(Transient { display_id: id })),
            None => transient_from(Some(JsonValue::Object(entries)))
                == Err::<Option<Transient>, FieldError>(FieldError::Missing(Field::DisplayId)),
            Some(_) => transient_from(Some(JsonValue::Object(entries)))
                == Err::<Option<Transient>, FieldError>(FieldError::WrongType(Field::DisplayId)),
        },
{
}

impl DisplayData {
    /// Decodes display data from a content value.
    pub fn from_json(content: JsonValue) -> (r: Result<DisplayData, FieldError>)
        ensures
            r == display_data_from(content),
    {
        match content {
            JsonValue::Object(mut entries) => {
                let data = match take_object(&mut entries, Field::Data) {
                    Ok(d) => d,
                    Err(e) => return Err(e),
                };
                let metadata = match take_required(&mut entries, Field::Metadata) {
                    Ok(m) => m,
                    Err(e) => return Err(e),
                };
                match deserialize_transient(take_value(&mut entries, Field::Transient)) {
                    Ok(transient) => Ok(DisplayData { data, metadata, transient }),
                    Err(e) => Err(e),
                }
            },
            _ => Err(FieldError::WrongType(Field::Content)),
        }
    }
}

impl UpdateDisplayData {
    /// Decodes an update of a display from a content value.
    pub fn from_json(content: JsonValue) -> (r: Result<UpdateDisplayData, FieldError>)
        ensures
            r == update_display_data_from(content),
    {
        match DisplayData::from_json(content) {
            Ok(d) => Ok(UpdateDisplayData { data: d.data, metadata: d.metadata, transient: d.transient }),
            Err(e) => Err(e),
        }
    }
}

impl Status {
    /// Decodes a kernel status from a content value.
    pub fn from_json(content: JsonValue) -> (r: Result<Status, FieldError>)
        ensures
            r == status_from(content),
    {
        match content {
            JsonValue::Object(mut entries) => {
                match take_string(&mut entries, Field::ExecutionState) {
                    Ok(s) => {
                        if text_is(&s, "busy") {
                            Ok(Status { execution_state: KernelStatus::Busy })
                        } else if text_is(&s, "idle") {
                            Ok(Status { execution_state: KernelStatus::Idle })
                        } else if text_is(&s, "starting") {
                            Ok(Status { execution_state: KernelStatus::Starting })
                        } else {
                            Err(FieldError::InvalidValue(Field::ExecutionState))
                        }
                    },
                    Err(e) => Err(e),
                }
            },
            _ => Err(FieldError::WrongType(Field::Content)),
        }
    }
}

impl Stream {
    /// Decodes stream output from a content value.
    pub fn from_json(content: JsonValue) -> (r: Result<Stream, FieldError>)
        ensures
            match stream_from(content) {
                Ok(s) => r matches Ok(x) && is_stream_of(x, s),
                Err(e) => r == Err::<Stream, FieldError>(e),
            },
    {
        match content {
            JsonValue::Object(mut entries) => {
                let name = match take_string(&mut entries, Field::Name) {
                    Ok(s) => {
                        if text_is(&s, "stdout") {
                            StreamName::Stdout
                        } else if text_is(&s, "stderr") {
                            StreamName::Stderr
                        } else {
                            return Err(FieldError::InvalidValue(Field::Name));
                        }
                    },
                    Err(e) => return Err(e),
                };
                match take_value(&mut entries, Field::Text) {
                    Some(source) => match list_or_string_to_string(&source) {
                        Ok(text) => Ok(Stream { name, text }),
                        Err(e) => Err(e),
                    },
                    None => Err(FieldError::Missing(Field::Text)),
                }
            },
            _ => Err(FieldError::WrongType(Field::Content)),
        }
    }
}

impl ExecuteInput {
    /// Decodes the echo of submitted code from a content value.
    pub fn from_json(content: JsonValue) -> (r: Result<ExecuteInput, FieldError>)
        ensures
            r == execute_input_from(content),
    {
        match content {
            JsonValue::Object(mut entries) => {
                let code = match take_string(&mut entries, Field::Code) {
                    Ok(c) => c,
                    Err(e) => return Err(e),
                };
                match take_count(&mut entries, Field::ExecutionCount) {
                    Ok(execution_count) => Ok(ExecuteInput { code, execution_count }),
                    Err(e) => Err(e),
                }
            },
            _ => Err(FieldError::WrongType(Field::Content)),
        }
    }
}

impl ExecuteResult {
    /// Decodes the result of a cell from a content value.
    pub fn from_json(content: JsonValue) -> (r: Result<ExecuteResult, FieldError>)
        ensures
            r == execute_result_from(content),
    {
        match content {
            JsonValue::Object(mut entries) => {
                let execution_count = match take_count(&mut entries, Field::ExecutionCount) {
                    Ok(n) => n,
                    Err(e) => return Err(e),
                };
                let data = match take_object(&mut entries, Field::Data) {
                    Ok(d) => d,
                    Err(e) => return Err(e),
                };
                match take_required(&mut entries, Field::Metadata) {
                    Ok(metadata) => Ok(ExecuteResult { execution_count, data, metadata }),
                    Err(e) => Err(e),
                }
            },
            _ => Err(FieldError::WrongType(Field::Content)),
        }
    }
}

impl Error {
    /// Decodes a raised exception from a content value.
    pub fn from_json(content: JsonValue) -> (r: Result<Error, FieldError>)
        ensures
            match error_from(content) {
                Ok(e) => r matches Ok(x) && is_error_of(x, e),
                Err(e) => r == Err::<Error, FieldError>(e),
            },
    {
        match content {
            JsonValue::Object(mut entries) => {
                let ename = match take_string(&mut entries, Field::Ename) {
                    Ok(s) => s,
                    Err(e) => return Err(e),
                };
                let evalue = match take_string(&mut entries, Field::Evalue) {
                    Ok(s) => s,
                    Err(e) => return Err(e),
                };
                match take_strings(&mut entries, Field::Traceback) {
                    Ok(traceback) => Ok(Error { ename, evalue, traceback }),
                    Err(e) => Err(e),
                }
            },
            _ => Err(FieldError::WrongType(Field::Content)),
        }
    }
}

} // verus!
