//! The record of one unit of traced work, and its timing.

use vstd::prelude::*;

verus! {

/// The metadata a record can carry; each entry is absent until an
/// attribute sets it.
#[derive(Clone, Debug)]
pub struct SpanMeta {
    pub http_status_code: Option<String>,
    pub request_id: Option<String>,
    pub error_msg: Option<String>,
    pub span_kind: Option<String>,
    pub http_url: Option<String>,
    pub http_method: Option<String>,
}

pub struct MetaView {
    pub http_status_code: Option<Seq<char>>,
    pub request_id: Option<Seq<char>>,
    pub error_msg: Option<Seq<char>>,
    pub span_kind: Option<Seq<char>>,
    pub http_url: Option<Seq<char>>,
    pub http_method: Option<Seq<char>>,
}

pub open spec fn opt_string_view(s: Option<String>) -> Option<Seq<char>> {
    match s {
        Some(v) => Some(v@),
        None => None,
    }
}

impl View for SpanMeta {
    type V = MetaView;

    open spec fn view(&self) -> MetaView {
        MetaView {
            http_status_code: opt_string_view(self.http_status_code),
            request_id: opt_string_view(self.request_id),
            error_msg: opt_string_view(self.error_msg),
            span_kind: opt_string_view(self.span_kind),
            http_url: opt_string_view(self.http_url),
            http_method: opt_string_view(self.http_method),
        }
    }
}

pub open spec fn empty_meta() -> MetaView {
    MetaView {
        http_status_code: None,
        request_id: None,
        error_msg: None,
        span_kind: None,
        http_url: None,
        http_method: None,
    }
}

/// One unit of traced work. `start` is in nanoseconds since the epoch, zero
/// until the span is first entered; `duration` is in nanoseconds; `error`
/// is 0 or 1; a `parent_id` of zero marks the root of a trace.
#[derive(Clone, Debug)]
pub struct SpanRecord {
    pub name: String,
    pub trace_id: u64,
    pub parent_id: u64,
    pub span_id: u64,
    pub start: u64,
    pub duration: u64,
    pub service: String,
    pub resource: String,
    pub error: i32,
    pub meta: SpanMeta,
    pub span_type: String,
}

pub struct SpanView {
    pub name: Seq<char>,
    pub trace_id: u64,
    pub parent_id: u64,
    pub span_id: u64,
    pub start: u64,
    pub duration: u64,
    pub service: Seq<char>,
    pub resource: Seq<char>,
    pub error: i32,
    pub meta: MetaView,
    pub span_type: Seq<char>,
}

impl View for SpanRecord {
    type V = SpanView;

    open spec fn view(&self) -> SpanView {
        SpanView {
            name: self.name@,
            trace_id: self.trace_id,
            parent_id: self.parent_id,
            span_id: self.span_id,
            start: self.start,
            duration: self.duration,
            service: self.service@,
            resource: self.resource@,
            error: self.error,
            meta: self.meta@,
            span_type: self.span_type@,
        }
    }
}

impl SpanView {
    /// The error flag is 0 or 1.
    pub open spec fn wf(self) -> bool {
        self.error == 0 || self.error == 1
    }
}

/// A record with the given name and ids, before any attribute or timing.
pub open spec fn fresh_span(name: Seq<char>, trace_id: u64, parent_id: u64, span_id: u64) -> SpanView {
    SpanView {
        name,
        trace_id,
        parent_id,
        span_id,
        start: 0,
        duration: 0,
        service: Seq::empty(),
        resource: Seq::empty(),
        error: 0,
        meta: empty_meta(),
        span_type: Seq::empty(),
    }
}

/// Entering the span at `now`: the start is taken only if none was yet.
pub open spec fn start_marked(v: SpanView, now: u64) -> SpanView {
    if v.start == 0 {
        SpanView { start: now, ..v }
    } else {
        v
    }
}

/// `now - start`, or zero where the clock reads earlier than the start.
pub open spec fn elapsed(start: u64, now: u64) -> u64 {
    if now >= start {
        (now - start) as u64
    } else {
        0
    }
}

/// Leaving the span at `now`: the duration runs from the start to `now`.
pub open spec fn duration_recomputed(v: SpanView, now: u64) -> SpanView {
    SpanView { duration: elapsed(v.start, now), ..v }
}

/// Nanoseconds since the epoch for a clock reading of whole seconds and
/// the nanoseconds past them, kept within what a `u64` holds.
pub open spec fn epoch_nanos_of(secs: i64, subsec: u32) -> u64 {
    let total = secs as int * 1_000_000_000 + subsec as int;
    if total < 0 {
        0
    } else if total > u64::MAX {
        u64::MAX
    } else {
        total as u64
    }
}

/// Relies on `chrono::Utc::now`, `DateTime::timestamp` and
/// `DateTime::timestamp_subsec_nanos`: the seconds since the epoch, and the
/// nanoseconds past them, below two billion (a leap second runs past one).
#[verifier::external_body]
fn utc_now_parts() -> (r: (i64, u32))
    ensures
        r.1 < 2_000_000_000,
{
    let now = chrono::Utc::now();
    (now.timestamp(), now.timestamp_subsec_nanos())
}

/// The current time in nanoseconds since the epoch.
pub fn now_epoch_nanos() -> (r: u64) {
    let (secs, subsec) = utc_now_parts();
    SpanRecord::utc_epoch_nanos(secs, subsec)
}

impl SpanRecord {
    /// A record with the given name and ids, before any attribute or timing.
    pub fn new(name: String, trace_id: u64, parent_id: u64, span_id: u64) -> (r: SpanRecord)
        ensures
            r@ == fresh_span(name@, trace_id, parent_id, span_id),
    {
        SpanRecord {
            name,
            trace_id,
            parent_id,
            span_id,
            start: 0,
            duration: 0,
            service: String::new(),
            resource: String::new(),
            error: 0,
            meta: SpanMeta {
                http_status_code: None,
                request_id: None,
                error_msg: None,
                span_kind: None,
                http_url: None,
                http_method: None,
            },
            span_type: String::new(),
        }
    }

    /// Whether an id is the zero that marks a missing parent.
    pub fn is_zero(num: &u64) -> (r: bool)
        ensures
            r == (*num == 0),
    {
        *num == 0
    }

    /// Nanoseconds since the epoch for a clock reading of whole seconds and
    /// the nanoseconds past them; a reading before the epoch gives zero and
    /// one past what a `u64` holds gives its largest value.
    pub fn utc_epoch_nanos(secs: i64, subsec: u32) -> (r: u64)
        ensures
            r == epoch_nanos_of(secs, subsec),
    {
        if secs < -4 {
            assert((secs as int) * 1_000_000_000 + (subsec as int) < 0) by (nonlinear_arith)
                requires
                    secs < -4,
                    subsec <= u32::MAX,
            ;
            return 0;
        }
        if secs < 0 {
            let total: i64 = secs * 1_000_000_000 + subsec as i64;
            return if total < 0 {
                0
            } else {
                total as u64
            };
        }
        let whole: u64 = secs as u64;
        if whole > (u64::MAX - subsec as u64) / 1_000_000_000 {
            assert((whole as int) * 1_000_000_000 + (subsec as int) > u64::MAX) by (nonlinear_arith)
                requires
                    whole > (u64::MAX - subsec as u64) / 1_000_000_000,
                    subsec <= u32::MAX,
            ;
            return u64::MAX;
        }
        assert((whole as int) * 1_000_000_000 + (subsec as int) <= u64::MAX) by (nonlinear_arith)
            requires
                whole <= (u64::MAX - subsec as u64) / 1_000_000_000,
                subsec <= u32::MAX,
        ;
        whole * 1_000_000_000 + subsec as u64
    }

    /// Entering the span at `now`: sets the start if none was set yet.
    pub fn mark_start_if_unset(&mut self, now: u64)
        ensures
            final(self)@ == start_marked(old(self)@, now),
    {
        if self.start == 0 {
            self.start = now;
        }
    }

    /// Leaving the span at `now`: the duration becomes `now - start`.
    pub fn recompute_duration(&mut self, now: u64)
        ensures
            final(self)@ == duration_recomputed(old(self)@, now),
    {
        self.duration = if now >= self.start {
            now - self.start
        } else {
            0
        };
    }

    /// Entering the span: takes the clock as its start, unless it has one.
    pub fn set_start_once(&mut self)
        ensures
            exists|now: u64| final(self)@ == start_marked(old(self)@, now),
            old(self).start != 0 ==> final(self)@ == old(self)@,
    {
        if self.start == 0 {
            let now = now_epoch_nanos();
            self.mark_start_if_unset(now);
        } else {
            assert(start_marked(self@, 0) == self@);
        }
    }

    /// Leaving the span: the duration runs from its start to the clock.
    pub fn update_end(&mut self)
        ensures
            exists|now: u64| final(self)@ == duration_recomputed(old(self)@, now),
    {
        let now = now_epoch_nanos();
        self.recompute_duration(now);
    }
}

} // verus!
