//! The identity of a distributed trace: where it comes from on an inbound
//! request, where it is kept while the request is handled, and how it is
//! handed on to outbound calls.

use crate::text::{decimal_text, parse_u64, parsed_u64, u64_text};
use rand::Rng;
use vstd::prelude::*;

verus! {

/// Header that carries the trace id, as decimal text.
pub const TRACE_ID_HEADER: &'static str = "x-datadog-trace-id";

/// Header that carries the id of the caller's span, as decimal text.
pub const PARENT_ID_HEADER: &'static str = "x-datadog-parent-id";

/// Relies on `rand::thread_rng` and `Rng::gen::<u64>`: any 64-bit value.
#[verifier::external_body]
fn gen_trace_id() -> (r: u64) {
    rand::thread_rng().gen::<u64>()
}

/// The id shared by every span of one trace.
#[derive(Clone, Copy, Debug, PartialEq, Eq, Structural)]
pub struct TraceId(pub u64);

impl TraceId {
    /// A fresh, random trace id.
    pub fn new() -> (r: TraceId) {
        TraceId(gen_trace_id())
    }

    /// The trace id carried by the value of the trace id header, if it is
    /// decimal text of a 64-bit value.
    pub fn from_header(value: Option<&str>) -> (r: Option<TraceId>)
        ensures
            r == match value {
                Some(s) => match parsed_u64(s@) {
                    Some(n) => Some(TraceId(n)),
                    None => None,
                },
                None => None,
            },
    {
        match value {
            Some(s) => match parse_u64(s) {
                Some(n) => Some(TraceId(n)),
                None => None,
            },
            None => None,
        }
    }

    /// Makes `id` the trace of the request that `cell` belongs to.
    pub fn store(cell: &mut TraceCell, id: TraceId)
        ensures
            final(cell).current == id,
    {
        cell.current = id;
    }

    /// The trace of the request that `cell` belongs to.
    pub fn get_current(cell: &TraceCell) -> (r: TraceId)
        ensures
            r == cell.current,
    {
        cell.current
    }

    /// The headers that hand this trace on to an outbound call made from the
    /// span `span_id`: the trace id, and that span as the callee's parent.
    pub fn outbound_headers(&self, span_id: u64) -> (r: Vec<(String, String)>)
        ensures
            r@.len() == 2,
            r@[0].0@ == TRACE_ID_HEADER@,
            r@[0].1@ == decimal_text(self.0 as nat),
            r@[1].0@ == PARENT_ID_HEADER@,
            r@[1].1@ == decimal_text(span_id as nat),
    {
        let mut headers: Vec<(String, String)> = Vec::new();
        headers.push((TRACE_ID_HEADER.to_string(), u64_text(self.0)));
        headers.push((PARENT_ID_HEADER.to_string(), u64_text(span_id)));
        headers
    }
}

/// The id of the caller's span; zero marks a span that starts its trace.
#[derive(Clone, Copy, Debug, PartialEq, Eq, Structural)]
pub struct ParentSpanId(pub u64);

impl ParentSpanId {
    /// The parent id of a span that has no caller: zero.
    pub fn new() -> (r: ParentSpanId)
        ensures
            r.0 == 0,
    {
        ParentSpanId(0)
    }

    /// The parent id carried by the value of the parent id header, if it is
    /// decimal text of a 64-bit value.
    pub fn from_header(value: Option<&str>) -> (r: Option<ParentSpanId>)
        ensures
            r == match value {
                Some(s) => match parsed_u64(s@) {
                    Some(n) => Some(ParentSpanId(n)),
                    None => None,
                },
                None => None,
            },
    {
        match value {
            Some(s) => match parse_u64(s) {
                Some(n) => Some(ParentSpanId(n)),
                None => None,
            },
            None => None,
        }
    }
}

/// The value of an optional header as an unsigned 64-bit number.
pub open spec fn header_u64(value: Option<Seq<char>>) -> Option<u64> {
    match value {
        Some(s) => parsed_u64(s),
        None => None,
    }
}

/// The trace and the caller's span that a request belongs to.
#[derive(Clone, Copy, Debug, PartialEq, Eq, Structural)]
pub struct TraceIdentity {
    pub trace_id: TraceId,
    pub parent_id: ParentSpanId,
}

/// The identity read from the two header values, with `fresh` as the
/// trace id when the trace id header is missing or malformed, and zero as
/// the parent id when the parent id header is.
pub open spec fn identity_from(
    trace_header: Option<Seq<char>>,
    parent_header: Option<Seq<char>>,
    fresh: u64,
) -> TraceIdentity {
    TraceIdentity {
        trace_id: TraceId(
            match header_u64(trace_header) {
                Some(n) => n,
                None => fresh,
            },
        ),
        parent_id: ParentSpanId(
            match header_u64(parent_header) {
                Some(n) => n,
                None => 0,
            },
        ),
    }
}

pub open spec fn opt_view(s: Option<&str>) -> Option<Seq<char>> {
    match s {
        Some(v) => Some(v@),
        None => None,
    }
}

impl TraceIdentity {
    /// The identity carried by the two header values; `fresh` stands in for
    /// a trace id that is missing or malformed.
    pub fn from_headers(
        trace_header: Option<&str>,
        parent_header: Option<&str>,
        fresh: TraceId,
    ) -> (r: TraceIdentity)
        ensures
            r == identity_from(opt_view(trace_header), opt_view(parent_header), fresh.0),
    {
        let trace_id = match TraceId::from_header(trace_header) {
            Some(t) => t,
            None => fresh,
        };
        let parent_id = match ParentSpanId::from_header(parent_header) {
            Some(p) => p,
            None => ParentSpanId::new(),
        };
        TraceIdentity { trace_id, parent_id }
    }

    /// The identity carried by the two header values, or a fresh random
    /// trace where they carry none. Never fails.
    pub fn extract_or_generate(trace_header: Option<&str>, parent_header: Option<&str>) -> (r:
        TraceIdentity)
        ensures
            exists|fresh: u64| r == identity_from(opt_view(trace_header), opt_view(parent_header), fresh),
            header_u64(opt_view(trace_header)) is Some ==> r.trace_id.0 == header_u64(
                opt_view(trace_header),
            )->Some_0,
            header_u64(opt_view(parent_header)) is Some ==> r.parent_id.0 == header_u64(
                opt_view(parent_header),
            )->Some_0,
            header_u64(opt_view(parent_header)) is None ==> r.parent_id.0 == 0,
    {
        let fresh = TraceId::new();
        TraceIdentity::from_headers(trace_header, parent_header, fresh)
    }

}

/// The store for the trace identity of one request, handed down the
/// request's call chain; never shared between requests.
#[derive(Clone, Copy, Debug, PartialEq, Eq, Structural)]
pub struct TraceCell {
    pub current: TraceId,
}

impl TraceCell {
    /// A store that holds `id`.
    pub fn new(id: TraceId) -> (r: TraceCell)
        ensures
            r.current == id,
    {
        TraceCell { current: id }
    }
}

} // verus!
