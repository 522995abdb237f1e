//! Maps the attributes that instrumented code emits onto a span record.
//! Only a closed set of keys is recognised; any other key leaves the record
//! as it was.

use crate::span_record::{SpanRecord, SpanView};
use crate::text::{decimal_text, i64_text, signed_decimal_text, u64_text};
use vstd::prelude::*;

verus! {

pub const KEY_TRACE_ID: &'static str = "dd.trace_id";
pub const KEY_PARENT_ID: &'static str = "dd.parent_id";
pub const KEY_RESOURCE: &'static str = "dd.resource";
pub const KEY_ERROR: &'static str = "dd.error";
pub const KEY_HTTP_STATUS_CODE: &'static str = "dd.meta.http.status_code";
pub const KEY_REQUEST_ID: &'static str = "dd.meta.request_id";
pub const KEY_ERROR_MSG: &'static str = "dd.meta.error.msg";
pub const KEY_SPAN_KIND: &'static str = "dd.meta.span.kind";
pub const KEY_HTTP_URL: &'static str = "dd.meta.http.url";
pub const KEY_HTTP_METHOD: &'static str = "dd.meta.http.method";

/// An attribute value as instrumentation emits it; anything that is not an
/// integer, a flag or a text is `Unsupported`.
#[derive(Clone, Debug)]
pub enum FieldValue {
    I64(i64),
    U64(u64),
    Bool(bool),
    Str(String),
    Unsupported,
}

/// One attribute: its key and its value.
#[derive(Clone, Debug)]
pub struct Field {
    pub key: String,
    pub value: FieldValue,
}

/// What applying an attribute did.
#[derive(Clone, Copy, Debug, PartialEq, Eq, Structural)]
pub enum FieldOutcome {
    /// The key is recognised for this kind of value.
    Applied,
    /// The key is not recognised; nothing changed.
    Ignored,
    /// A key of the tracing namespace with a value of an unsupported kind;
    /// nothing changed, and the caller may note it at low severity.
    Unsupported,
}

/// The keys that the visitor recognises, whatever the value.
pub open spec fn is_known_key(key: Seq<char>) -> bool {
    key == KEY_TRACE_ID@ || key == KEY_PARENT_ID@ || key == KEY_RESOURCE@ || key == KEY_ERROR@
        || key == KEY_HTTP_STATUS_CODE@ || key == KEY_REQUEST_ID@ || key == KEY_ERROR_MSG@
        || key == KEY_SPAN_KIND@ || key == KEY_HTTP_URL@ || key == KEY_HTTP_METHOD@
}

/// Keys of the tracing namespace start with `dd.`.
pub open spec fn in_namespace(key: Seq<char>) -> bool {
    key.len() >= 3 && key[0] == 'd' && key[1] == 'd' && key[2] == '.'
}

/// Whether `key` is recognised for a value of the kind of `value`.
pub open spec fn recognized(key: Seq<char>, value: FieldValue) -> bool {
    match value {
        FieldValue::I64(_) => key == KEY_HTTP_STATUS_CODE@,
        FieldValue::U64(_) => key == KEY_TRACE_ID@ || key == KEY_PARENT_ID@ || key
            == KEY_HTTP_STATUS_CODE@,
        FieldValue::Bool(_) => key == KEY_ERROR@,
        FieldValue::Str(_) => key == KEY_RESOURCE@ || key == KEY_REQUEST_ID@ || key
            == KEY_ERROR_MSG@ || key == KEY_SPAN_KIND@ || key == KEY_HTTP_URL@ || key
            == KEY_HTTP_METHOD@,
        FieldValue::Unsupported => false,
    }
}

pub open spec fn outcome_of(key: Seq<char>, value: FieldValue) -> FieldOutcome {
    if recognized(key, value) {
        FieldOutcome::Applied
    } else if value is Unsupported && in_namespace(key) {
        FieldOutcome::Unsupported
    } else {
        FieldOutcome::Ignored
    }
}

/// A text value set into a record under a recognised text key.
pub open spec fn text_applied(v: SpanView, key: Seq<char>, s: Seq<char>) -> SpanView {
    if key == KEY_RESOURCE@ {
        SpanView { resource: s, ..v }
    } else if key == KEY_REQUEST_ID@ {
        SpanView { meta: crate::span_record::MetaView { request_id: Some(s), ..v.meta }, ..v }
    } else if key == KEY_ERROR_MSG@ {
        SpanView { meta: crate::span_record::MetaView { error_msg: Some(s), ..v.meta }, ..v }
    } else if key == KEY_SPAN_KIND@ {
        SpanView { meta: crate::span_record::MetaView { span_kind: Some(s), ..v.meta }, ..v }
    } else if key == KEY_HTTP_URL@ {
        SpanView { meta: crate::span_record::MetaView { http_url: Some(s), ..v.meta }, ..v }
    } else if key == KEY_HTTP_METHOD@ {
        SpanView { meta: crate::span_record::MetaView { http_method: Some(s), ..v.meta }, ..v }
    } else {
        v
    }
}

pub open spec fn status_code_set(v: SpanView, s: Seq<char>) -> SpanView {
    SpanView { meta: crate::span_record::MetaView { http_status_code: Some(s), ..v.meta }, ..v }
}

/// The record after one attribute. A status code is kept as decimal text;
/// the error flag is only ever raised, never cleared.
pub open spec fn field_applied(v: SpanView, key: Seq<char>, value: FieldValue) -> SpanView {
    match value {
        FieldValue::I64(n) => if key == KEY_HTTP_STATUS_CODE@ {
            status_code_set(v, signed_decimal_text(n as int))
        } else {
            v
        },
        FieldValue::U64(n) => if key == KEY_TRACE_ID@ {
            SpanView { trace_id: n, ..v }
        } else if key == KEY_PARENT_ID@ {
            SpanView { parent_id: n, ..v }
        } else if key == KEY_HTTP_STATUS_CODE@ {
            status_code_set(v, decimal_text(n as nat))
        } else {
            v
        },
        FieldValue::Bool(b) => if key == KEY_ERROR@ && b {
            SpanView { error: 1, ..v }
        } else {
            v
        },
        FieldValue::Str(s) => text_applied(v, key, s@),
        FieldValue::Unsupported => v,
    }
}

/// The record after each attribute of `fs` in turn.
pub open spec fn fields_applied(v: SpanView, fs: Seq<Field>) -> SpanView
    decreases fs.len(),
{
    if fs.len() == 0 {
        v
    } else {
        field_applied(fields_applied(v, fs.drop_last()), fs.last().key@, fs.last().value)
    }
}

/// Whether two texts are the same.
fn same_text(a: &str, b: &str) -> (r: bool)
    ensures
        r == (a@ == b@),
{
    let n = a.unicode_len();
    if n != b.unicode_len() {
        return false;
    }
    let mut i: usize = 0;
    while i < n
        invariant
            n == a@.len(),
            n == b@.len(),
            i <= n,
            forall|j: int| 0 <= j < i ==> a@[j] == b@[j],
        decreases n - i,
    {
        if a.get_char(i) != b.get_char(i) {
            return false;
        }
        i = i + 1;
    }
    assert(a@ =~= b@);
    true
}

/// Whether a key belongs to the tracing namespace.
fn has_namespace_prefix(key: &str) -> (r: bool)
    ensures
        r == in_namespace(key@),
{
    key.unicode_len() >= 3 && key.get_char(0) == 'd' && key.get_char(1) == 'd' && key.get_char(2)
        == '.'
}

/// Whether an attribute is of the tracing namespace but its value of a kind
/// that records cannot hold: such an attribute is worth a low-severity note.
pub fn unsupported_in_namespace(key: &str, value: &FieldValue) -> (r: bool)
    ensures
        r == (outcome_of(key@, *value) == FieldOutcome::Unsupported),
{
    match value {
        FieldValue::Unsupported => has_namespace_prefix(key),
        _ => false,
    }
}

impl SpanRecord {
    /// Applies one attribute: a recognised key sets its field, any other
    /// key leaves the record as it was. Never fails.
    pub fn apply_field(&mut self, key: &str, value: &FieldValue) -> (r: FieldOutcome)
        requires
            old(self)@.wf(),
        ensures
            final(self)@ == field_applied(old(self)@, key@, *value),
            final(self)@.wf(),
            r == outcome_of(key@, *value),
    {
        match value {
            FieldValue::I64(n) => {
                if same_text(key, KEY_HTTP_STATUS_CODE) {
                    self.meta.http_status_code = Some(i64_text(*n));
                    FieldOutcome::Applied
                } else {
                    FieldOutcome::Ignored
                }
            },
            FieldValue::U64(n) => {
                if same_text(key, KEY_TRACE_ID) {
                    self.trace_id = *n;
                    FieldOutcome::Applied
                } else if same_text(key, KEY_PARENT_ID) {
                    self.parent_id = *n;
                    FieldOutcome::Applied
                } else if same_text(key, KEY_HTTP_STATUS_CODE) {
                    self.meta.http_status_code = Some(u64_text(*n));
                    FieldOutcome::Applied
                } else {
                    FieldOutcome::Ignored
                }
            },
            FieldValue::Bool(b) => {
                if same_text(key, KEY_ERROR) {
                    if *b {
                        self.error = 1;
                    }
                    FieldOutcome::Applied
                } else {
                    FieldOutcome::Ignored
                }
            },
            FieldValue::Str(s) => {
                if same_text(key, KEY_RESOURCE) {
                    self.resource = s.clone();
                    FieldOutcome::Applied
                } else if same_text(key, KEY_REQUEST_ID) {
                    self.meta.request_id = Some(s.clone());
                    FieldOutcome::Applied
                } else if same_text(key, KEY_ERROR_MSG) {
                    self.meta.error_msg = Some(s.clone());
                    FieldOutcome::Applied
                } else if same_text(key, KEY_SPAN_KIND) {
                    self.meta.span_kind = Some(s.clone());
                    FieldOutcome::Applied
                } else if same_text(key, KEY_HTTP_URL) {
                    self.meta.http_url = Some(s.clone());
                    FieldOutcome::Applied
                } else if same_text(key, KEY_HTTP_METHOD) {
                    self.meta.http_method = Some(s.clone());
                    FieldOutcome::Applied
                } else {
                    FieldOutcome::Ignored
                }
            },
            FieldValue::Unsupported => {
                if has_namespace_prefix(key) {
                    FieldOutcome::Unsupported
                } else {
                    FieldOutcome::Ignored
                }
            },
        }
    }

    /// Applies each attribute of `fields` in turn.
    pub fn apply_fields(&mut self, fields: &Vec<Field>)
        requires
            old(self)@.wf(),
        ensures
            final(self)@ == fields_applied(old(self)@, fields@),
            final(self)@.wf(),
    {
        let ghost start = self@;
        let mut i: usize = 0;
        while i < fields.len()
            invariant
                i <= fields@.len(),
                self@ == fields_applied(start, fields@.subrange(0, i as int)),
                self@.wf(),
            decreases fields@.len() - i,
        {
            let f = &fields[i];
            let _ = self.apply_field(f.key.as_str(), &f.value);
            assert(fields@.subrange(0, i + 1).drop_last() =~= fields@.subrange(0, i as int));
            i = i + 1;
        }
        assert(fields@.subrange(0, fields@.len() as int) =~= fields@);
    }
}

/// Whether `fs` are the attributes that report a response with `status`:
/// the status code, then, for a server error, the raised error flag.
pub open spec fn is_response_fields(fs: Seq<Field>, status: u16) -> bool {
    &&& fs.len() == if status >= 500 {
        2int
    } else {
        1int
    }
    &&& fs[0].key@ == KEY_HTTP_STATUS_CODE@
    &&& fs[0].value == FieldValue::U64(status as u64)
    &&& status >= 500 ==> fs[1].key@ == KEY_ERROR@ && fs[1].value == FieldValue::Bool(true)
}

/// Whether `fs` are the attributes that report a failed piece of work with
/// the message `msg`: the raised error flag, then the message.
pub open spec fn is_failure_fields(fs: Seq<Field>, msg: Seq<char>) -> bool {
    &&& fs.len() == 2
    &&& fs[0].key@ == KEY_ERROR@
    &&& fs[0].value == FieldValue::Bool(true)
    &&& fs[1].key@ == KEY_ERROR_MSG@
    &&& fs[1].value matches FieldValue::Str(m) && m@ == msg
}

/// The attributes that report a response with HTTP status `status`: its
/// status code, and the error flag for a server error (500 and above).
pub fn response_fields(status: u16) -> (r: Vec<Field>)
    ensures
        is_response_fields(r@, status),
{
    let mut fields: Vec<Field> = Vec::new();
    fields.push(
        Field { key: KEY_HTTP_STATUS_CODE.to_string(), value: FieldValue::U64(status as u64) },
    );
    if status >= 500 {
        fields.push(Field { key: KEY_ERROR.to_string(), value: FieldValue::Bool(true) });
    }
    fields
}

/// The attributes that report a failed piece of work: the error flag and
/// the failure's message.
pub fn failure_fields(msg: String) -> (r: Vec<Field>)
    ensures
        is_failure_fields(r@, msg@),
{
    let mut fields: Vec<Field> = Vec::new();
    fields.push(Field { key: KEY_ERROR.to_string(), value: FieldValue::Bool(true) });
    fields.push(Field { key: KEY_ERROR_MSG.to_string(), value: FieldValue::Str(msg) });
    fields
}

/// The recognised keys are pairwise distinct: their lengths differ, but
/// for two pairs that differ in one character.
proof fn lemma_key_texts()
    ensures
        KEY_TRACE_ID@.len() == 11,
        KEY_PARENT_ID@.len() == 12,
        KEY_RESOURCE@.len() == 11,
        KEY_ERROR@.len() == 8,
        KEY_HTTP_STATUS_CODE@.len() == 24,
        KEY_REQUEST_ID@.len() == 18,
        KEY_ERROR_MSG@.len() == 17,
        KEY_SPAN_KIND@.len() == 17,
        KEY_HTTP_URL@.len() == 16,
        KEY_HTTP_METHOD@.len() == 19,
        KEY_TRACE_ID@ != KEY_RESOURCE@,
        KEY_ERROR_MSG@ != KEY_SPAN_KIND@,
{
    reveal_strlit("dd.trace_id");
    reveal_strlit("dd.parent_id");
    reveal_strlit("dd.resource");
    reveal_strlit("dd.error");
    reveal_strlit("dd.meta.http.status_code");
    reveal_strlit("dd.meta.request_id");
    reveal_strlit("dd.meta.error.msg");
    reveal_strlit("dd.meta.span.kind");
    reveal_strlit("dd.meta.http.url");
    reveal_strlit("dd.meta.http.method");
    assert(KEY_TRACE_ID@[3] != KEY_RESOURCE@[3]);
    assert(KEY_ERROR_MSG@[8] != KEY_SPAN_KIND@[8]);
}

/// An attribute whose key lies outside the recognised set changes nothing
/// in the record, whatever its value.
pub proof fn lemma_unknown_key_changes_nothing(v: SpanView, key: Seq<char>, value: FieldValue)
    requires
        !is_known_key(key),
    ensures
        field_applied(v, key, value) == v,
        outcome_of(key, value) != FieldOutcome::Applied,
{
}

/// Reporting a response raises the error flag exactly for a server error
/// status (500 and above); below that the flag keeps its value.
pub proof fn lemma_response_error_flag(v: SpanView, fs: Seq<Field>, status: u16)
    requires
        v.wf(),
        is_response_fields(fs, status),
    ensures
        fields_applied(v, fs).error == if status >= 500 {
            1
        } else {
            v.error
        },
        fields_applied(v, fs).meta.http_status_code == Some(decimal_text(status as nat)),
{
    lemma_key_texts();
    reveal_with_fuel(fields_applied, 3);
    let first = field_applied(v, fs[0].key@, fs[0].value);
    assert(first.meta.http_status_code == Some(decimal_text(status as nat)));
    if status >= 500 {
        assert(fs.drop_last().drop_last() =~= Seq::<Field>::empty());
        assert(fs.drop_last().last() == fs[0]);
        assert(fields_applied(v, fs.drop_last()) == first);
    } else {
        assert(fs.drop_last() =~= Seq::<Field>::empty());
        assert(fields_applied(v, fs) == first);
    }
}

/// Reporting a failure raises the error flag and keeps its message.
pub proof fn lemma_failure_error_flag(v: SpanView, fs: Seq<Field>, msg: Seq<char>)
    requires
        is_failure_fields(fs, msg),
    ensures
        fields_applied(v, fs).error == 1,
        fields_applied(v, fs).meta.error_msg == Some(msg),
{
    lemma_key_texts();
    reveal_with_fuel(fields_applied, 3);
    assert(fs.drop_last().drop_last() =~= Seq::<Field>::empty());
    assert(fs.drop_last().last() == fs[0]);
}

} // verus!
