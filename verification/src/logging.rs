//! Turning a tracing event recorded by a plugin into the line the host logs.

use vstd::prelude::*;
use vstd::string::*;
use crate::text::{decimal_text, u64_to_string};

verus! {

/// Severity of a plugin's log event.
#[derive(Clone, Copy, Debug, PartialEq, Eq, Structural)]
pub enum LogLevel {
    Trace,
    Debug,
    Info,
    Warn,
    Error,
}

/// Value of one field of a plugin's log event.
pub enum LogFieldValue {
    /// A value recorded with `Debug`, as the text it was rendered to.
    Debug(String),
    /// A value recorded with `Debug` that arrived as unrendered format
    /// arguments, with the text the host renders them to.
    DebugArguments(String),
    /// A string value.
    Str(String),
    /// A floating-point value, with the text the host renders it to.
    F64(String),
    I64(i64),
    U64(u64),
    Bool(bool),
    /// A kind of value this host does not know.
    Unknown,
}

/// A plugin's log event, decoded.
pub struct PluginLogEvent {
    pub level: LogLevel,
    pub target: String,
    pub module: Option<String>,
    pub file: Option<String>,
    pub line: Option<u32>,
    /// The event's fields in the order of its field map; `None` when the
    /// event carries no field map.
    pub fields: Option<Vec<(String, LogFieldValue)>>,
}

/// The line the host logs for a plugin's event.
pub struct PluginLogLine {
    pub level: LogLevel,
    pub target: String,
    pub module: String,
    pub file: String,
    pub line: u32,
    pub message: String,
    /// `key=value` for every field but the message, joined by ", "; `None`
    /// when there is no such field.
    pub fields: Option<String>,
}

/// `<i64 as ToString>::to_string`: the decimal text of the value.
#[verifier::external_body]
fn i64_to_string(v: i64) -> (res: String)
    ensures
        res@ == decimal_text(v as int),
{
    v.to_string()
}

/// Text of a field value in the host's log line.
pub open spec fn field_value_text(v: LogFieldValue) -> Seq<char> {
    match v {
        LogFieldValue::Debug(s) => s@,
        LogFieldValue::DebugArguments(s) => s@,
        LogFieldValue::Str(s) => s@,
        LogFieldValue::F64(s) => s@,
        LogFieldValue::I64(i) => decimal_text(i as int),
        LogFieldValue::U64(u) => decimal_text(u as int),
        LogFieldValue::Bool(b) => if b {
            "true"@
        } else {
            "false"@
        },
        LogFieldValue::Unknown => "<unknown>"@,
    }
}

/// Text of a field value in the host's log line.
pub fn format_value(v: &LogFieldValue) -> (res: String)
    ensures
        res@ == field_value_text(*v),
{
    match v {
        LogFieldValue::Debug(s) => s.clone(),
        LogFieldValue::DebugArguments(s) => s.clone(),
        LogFieldValue::Str(s) => s.clone(),
        LogFieldValue::F64(s) => s.clone(),
        LogFieldValue::I64(i) => i64_to_string(*i),
        LogFieldValue::U64(u) => u64_to_string(*u),
        LogFieldValue::Bool(b) => if *b {
            String::from_str("true")
        } else {
            String::from_str("false")
        },
        LogFieldValue::Unknown => String::from_str("<unknown>"),
    }
}

/// Text that the message field gives: the rendered text of a `Debug` value or
/// the string, and nothing for any other kind of value.
pub open spec fn message_value_text(v: LogFieldValue) -> Seq<char> {
    match v {
        LogFieldValue::Debug(s) => s@,
        LogFieldValue::Str(s) => s@,
        _ => Seq::empty(),
    }
}

/// The event's message: the text of its first field named "message", if any.
pub open spec fn message_of(fields: Seq<(String, LogFieldValue)>) -> Seq<char>
    decreases fields.len(),
{
    if fields.len() == 0 {
        Seq::empty()
    } else if fields[0].0@ == "message"@ {
        message_value_text(fields[0].1)
    } else {
        message_of(fields.drop_first())
    }
}

/// The message is the text of the first field named "message".
pub proof fn lemma_message_is_first_message_field(fields: Seq<(String, LogFieldValue)>, i: int)
    requires
        0 <= i < fields.len(),
        fields[i].0@ == "message"@,
        forall|j: int| 0 <= j < i ==> #[trigger] fields[j].0@ != "message"@,
    ensures
        message_of(fields) == message_value_text(fields[i].1),
    decreases fields.len(),
{
    if i > 0 {
        let rest = fields.drop_first();
        assert(fields[0].0@ != "message"@);
        assert forall|j: int| 0 <= j < i - 1 implies #[trigger] rest[j].0@ != "message"@ by {
            assert(rest[j] == fields[j + 1]);
        }
        assert(rest[i - 1] == fields[i]);
        lemma_message_is_first_message_field(rest, i - 1);
    }
}

/// Without a field named "message" the message is empty.
pub proof fn lemma_no_message_field(fields: Seq<(String, LogFieldValue)>)
    requires
        forall|j: int| 0 <= j < fields.len() ==> #[trigger] fields[j].0@ != "message"@,
    ensures
        message_of(fields) == Seq::<char>::empty(),
    decreases fields.len(),
{
    if fields.len() > 0 {
        let rest = fields.drop_first();
        assert(fields[0].0@ != "message"@);
        assert forall|j: int| 0 <= j < rest.len() implies #[trigger] rest[j].0@ != "message"@ by {
            assert(rest[j] == fields[j + 1]);
        }
        lemma_no_message_field(rest);
    }
}

/// The fields other than the message.
pub open spec fn extra_fields(fields: Seq<(String, LogFieldValue)>) -> Seq<(String, LogFieldValue)> {
    fields.filter(|f: (String, LogFieldValue)| f.0@ != "message"@)
}

/// `key=value` for each field, joined by ", ".
pub open spec fn joined_fields(fields: Seq<(String, LogFieldValue)>) -> Seq<char>
    decreases fields.len(),
{
    if fields.len() == 0 {
        Seq::empty()
    } else if fields.len() == 1 {
        fields[0].0@ + "="@ + field_value_text(fields[0].1)
    } else {
        joined_fields(fields.drop_last()) + ", "@ + (fields.last().0@ + "="@ + field_value_text(
            fields.last().1,
        ))
    }
}

/// The text of an optional string, with a default.
pub open spec fn text_or(s: Option<String>, default: Seq<char>) -> Seq<char> {
    match s {
        Some(t) => t@,
        None => default,
    }
}

fn is_message_key(key: &String) -> (res: bool)
    ensures
        res == (key@ == "message"@),
{
    crate::text::str_eq(key.as_str(), "message")
}

fn message_text(fields: &Vec<(String, LogFieldValue)>) -> (res: String)
    ensures
        res@ == message_of(fields@),
{
    let mut i: usize = 0;
    assert(fields@.skip(0) =~= fields@);
    while i < fields.len()
        invariant
            i <= fields@.len(),
            message_of(fields@) == message_of(fields@.skip(i as int)),
        decreases fields.len() - i,
    {
        let ghost rest = fields@.skip(i as int);
        assert(rest[0] == fields@[i as int]);
        assert(rest.drop_first() =~= fields@.skip(i + 1));
        if is_message_key(&fields[i].0) {
            return match &fields[i].1 {
                LogFieldValue::Debug(s) => s.clone(),
                LogFieldValue::Str(s) => s.clone(),
                _ => String::new(),
            };
        }
        i = i + 1;
    }
    String::new()
}

/// The `key=value` list of the fields other than the message; `None` when
/// there are none.
fn fields_text(fields: &Vec<(String, LogFieldValue)>) -> (res: Option<String>)
    ensures
        extra_fields(fields@).len() == 0 ==> res is None,
        extra_fields(fields@).len() > 0 ==> (res matches Some(t) && t@ == joined_fields(
            extra_fields(fields@),
        )),
{
    let mut out = String::new();
    let mut count: usize = 0;
    let mut i: usize = 0;
    assert(extra_fields(fields@.take(0)) =~= Seq::<(String, LogFieldValue)>::empty()) by {
        reveal_with_fuel(Seq::<(String, LogFieldValue)>::filter, 1);
    }
    while i < fields.len()
        invariant
            i <= fields@.len(),
            count == extra_fields(fields@.take(i as int)).len(),
            count <= i,
            out@ == joined_fields(extra_fields(fields@.take(i as int))),
        decreases fields.len() - i,
    {
        let ghost before = extra_fields(fields@.take(i as int));
        proof {
            assert(fields@.take(i + 1).drop_last() =~= fields@.take(i as int));
            assert(fields@.take(i + 1).last() == fields@[i as int]);
            reveal_with_fuel(Seq::<(String, LogFieldValue)>::filter, 1);
        }
        if !is_message_key(&fields[i].0) {
            let entry = fields[i].0.clone().concat("=").concat(format_value(&fields[i].1).as_str());
            if count > 0 {
                out = out.concat(", ");
            }
            out = out.concat(entry.as_str());
            count = count + 1;
            proof {
                let after = extra_fields(fields@.take(i + 1));
                assert(after == before.push(fields@[i as int]));
                assert(after.drop_last() =~= before);
                assert(out@ =~= joined_fields(after));
            }
        } else {
            proof {
                assert(extra_fields(fields@.take(i + 1)) == before);
            }
        }
        i = i + 1;
    }
    assert(fields@.take(fields@.len() as int) =~= fields@);
    if count == 0 {
        None
    } else {
        Some(out)
    }
}

fn text_or_default(s: &Option<String>, default: &str) -> (res: String)
    ensures
        res@ == text_or(*s, default@),
{
    match s {
        Some(t) => t.clone(),
        None => default.to_string(),
    }
}

/// The line the host logs for a plugin's event: its level and target, the
/// module path (empty when unknown), the file ("unknown" when unknown), the
/// line (0 when unknown), the message, and the other fields.
pub fn render_plugin_log(event: &PluginLogEvent) -> (res: PluginLogLine)
    ensures
        res.level == event.level,
        res.target@ == event.target@,
        res.module@ == text_or(event.module, Seq::empty()),
        res.file@ == text_or(event.file, "unknown"@),
        res.line == match event.line {
            Some(l) => l,
            None => 0,
        },
        match event.fields {
            Some(fields) => res.message@ == message_of(fields@) && (extra_fields(fields@).len() == 0
                ==> res.fields is None) && (extra_fields(fields@).len() > 0 ==> (res.fields matches Some(
                t,
            ) && t@ == joined_fields(extra_fields(fields@)))),
            None => res.message@ == Seq::<char>::empty() && res.fields is None,
        },
{
    proof {
        reveal_strlit("");
    }
    let (message, fields) = match &event.fields {
        Some(fields) => (message_text(fields), fields_text(fields)),
        None => (String::new(), None),
    };
    PluginLogLine {
        level: event.level,
        target: event.target.clone(),
        module: text_or_default(&event.module, ""),
        file: text_or_default(&event.file, "unknown"),
        line: match event.line {
            Some(l) => l,
            None => 0,
        },
        message,
        fields,
    }
}

} // verus!
