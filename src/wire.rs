//! The body that carries finished spans to the local trace agent: a JSON
//! array holding one trace, itself an array of span objects.

use crate::span_record::{MetaView, SpanMeta, SpanRecord, SpanView};
use crate::text::{decimal_text, i64_text, json_quote, json_string_literal, signed_decimal_text, u64_text};
use vstd::prelude::*;

verus! {

/// Where the local trace agent takes traces.
pub const AGENT_ENDPOINT: &'static str = "http://localhost:8126/v0.3/traces";

/// The content type of a trace body.
pub const CONTENT_TYPE_JSON: &'static str = "application/json";

/// How many finished spans may wait for export at once.
pub const EXPORT_QUEUE_CAPACITY: usize = 32;

pub open spec fn texts(v: Seq<String>) -> Seq<Seq<char>> {
    v.map_values(|s: String| s@)
}

/// The texts of `parts`, with a comma between each two.
pub open spec fn comma_joined(parts: Seq<Seq<char>>) -> Seq<char>
    decreases parts.len(),
{
    if parts.len() == 0 {
        Seq::empty()
    } else if parts.len() == 1 {
        parts[0]
    } else {
        comma_joined(parts.drop_last()) + ","@ + parts.last()
    }
}

/// The JSON member for a metadata entry, if it is present.
pub open spec fn meta_member(key: Seq<char>, value: Option<Seq<char>>) -> Seq<Seq<char>> {
    match value {
        Some(v) => seq![json_string_literal(key) + ":"@ + json_string_literal(v)],
        None => Seq::empty(),
    }
}

/// The JSON members of the metadata, in a fixed order.
pub open spec fn meta_members(m: MetaView) -> Seq<Seq<char>> {
    meta_member("http.status_code"@, m.http_status_code) + meta_member("request_id"@, m.request_id)
        + meta_member("error.msg"@, m.error_msg) + meta_member("span.kind"@, m.span_kind)
        + meta_member("http.url"@, m.http_url) + meta_member("http.method"@, m.http_method)
}

/// The JSON object of a span. `parent_id` is left out where it is zero,
/// which marks the root of a trace; `metrics` is always empty.
pub open spec fn span_json(v: SpanView) -> Seq<char> {
    let head = "{\"name\":"@ + json_string_literal(v.name) + ",\"trace_id\":"@ + decimal_text(
        v.trace_id as nat,
    );
    let with_parent = if v.parent_id == 0 {
        head
    } else {
        head + ",\"parent_id\":"@ + decimal_text(v.parent_id as nat)
    };
    with_parent + ",\"span_id\":"@ + decimal_text(v.span_id as nat) + ",\"start\":"@
        + decimal_text(v.start as nat) + ",\"duration\":"@ + decimal_text(v.duration as nat)
        + ",\"service\":"@ + json_string_literal(v.service) + ",\"resource\":"@
        + json_string_literal(v.resource) + ",\"error\":"@ + signed_decimal_text(v.error as int)
        + ",\"meta\":{"@ + comma_joined(meta_members(v.meta)) + "},\"metrics\":{},\"type\":"@
        + json_string_literal(v.span_type) + "}"@
}

/// The body that carries one span as a trace of its own.
pub open spec fn trace_body_of(v: SpanView) -> Seq<char> {
    "[["@ + span_json(v) + "]]"@
}

/// Adds the member for a metadata entry to `members`, if it is present.
fn push_meta_member(members: &mut Vec<String>, key: &str, value: &Option<String>)
    ensures
        texts(final(members)@) == texts(old(members)@) + meta_member(
            key@,
            crate::span_record::opt_string_view(*value),
        ),
{
    match value {
        Some(v) => {
            let mut member = json_quote(key);
            member.append(":");
            let quoted = json_quote(v.as_str());
            member.append(quoted.as_str());
            members.push(member);
            assert(texts(members@) =~= texts(old(members)@) + meta_member(
                key@,
                crate::span_record::opt_string_view(*value),
            ));
        },
        None => {
            assert(texts(members@) =~= texts(old(members)@) + meta_member(
                key@,
                crate::span_record::opt_string_view(*value),
            ));
        },
    }
}

/// The JSON members of the metadata, in a fixed order.
fn meta_member_texts(meta: &SpanMeta) -> (r: Vec<String>)
    ensures
        texts(r@) == meta_members(meta@),
{
    let mut members: Vec<String> = Vec::new();
    assert(texts(members@) =~= Seq::<Seq<char>>::empty());
    push_meta_member(&mut members, "http.status_code", &meta.http_status_code);
    push_meta_member(&mut members, "request_id", &meta.request_id);
    push_meta_member(&mut members, "error.msg", &meta.error_msg);
    push_meta_member(&mut members, "span.kind", &meta.span_kind);
    push_meta_member(&mut members, "http.url", &meta.http_url);
    push_meta_member(&mut members, "http.method", &meta.http_method);
    assert(texts(members@) =~= meta_members(meta@));
    members
}

/// Appends the texts of `parts` to `out`, with a comma between each two.
fn append_comma_joined(out: &mut String, parts: &Vec<String>)
    ensures
        final(out)@ == old(out)@ + comma_joined(texts(parts@)),
{
    let ghost start = out@;
    let mut i: usize = 0;
    assert(texts(parts@.subrange(0, 0)) =~= Seq::<Seq<char>>::empty());
    assert(out@ =~= start + comma_joined(texts(parts@.subrange(0, 0))));
    while i < parts.len()
        invariant
            i <= parts@.len(),
            out@ == start + comma_joined(texts(parts@.subrange(0, i as int))),
        decreases parts@.len() - i,
    {
        let ghost before = out@;
        if i > 0 {
            out.append(",");
        }
        out.append(parts[i].as_str());
        proof {
            let done = texts(parts@.subrange(0, i + 1));
            assert(done.drop_last() =~= texts(parts@.subrange(0, i as int)));
            assert(done.last() == parts@[i as int]@);
            if i == 0 {
                assert(done[0] == parts@[0]@);
                assert(out@ =~= start + comma_joined(done));
            } else {
                assert(out@ =~= start + comma_joined(done));
            }
        }
        i = i + 1;
    }
    assert(parts@.subrange(0, parts@.len() as int) =~= parts@);
}

/// The JSON object of a span.
pub fn span_json_text(record: &SpanRecord) -> (r: String)
    ensures
        r@ == span_json(record@),
{
    let mut out = String::new();
    out.append("{\"name\":");
    out.append(json_quote(record.name.as_str()).as_str());
    out.append(",\"trace_id\":");
    out.append(u64_text(record.trace_id).as_str());
    if !SpanRecord::is_zero(&record.parent_id) {
        out.append(",\"parent_id\":");
        out.append(u64_text(record.parent_id).as_str());
    }
    out.append(",\"span_id\":");
    out.append(u64_text(record.span_id).as_str());
    out.append(",\"start\":");
    out.append(u64_text(record.start).as_str());
    out.append(",\"duration\":");
    out.append(u64_text(record.duration).as_str());
    out.append(",\"service\":");
    out.append(json_quote(record.service.as_str()).as_str());
    out.append(",\"resource\":");
    out.append(json_quote(record.resource.as_str()).as_str());
    out.append(",\"error\":");
    out.append(i64_text(record.error as i64).as_str());
    out.append(",\"meta\":{");
    let members = meta_member_texts(&record.meta);
    append_comma_joined(&mut out, &members);
    out.append("},\"metrics\":{},\"type\":");
    out.append(json_quote(record.span_type.as_str()).as_str());
    out.append("}");
    out
}

/// The body that carries one finished span to the trace agent.
pub fn trace_body(record: &SpanRecord) -> (r: String)
    ensures
        r@ == trace_body_of(record@),
{
    let mut out = String::new();
    out.append("[[");
    out.append(span_json_text(record).as_str());
    out.append("]]");
    out
}

} // verus!
