//! The lifecycle of spans: an arena of open span records keyed by the host
//! framework's span id, filled in on creation, attribute updates, events,
//! entering and leaving, and handed out on close.

use crate::field_visitor::{fields_applied, Field, KEY_PARENT_ID, KEY_TRACE_ID};
use crate::span_record::{
    duration_recomputed, elapsed, fresh_span, start_marked, SpanRecord, SpanView,
};
use std::collections::HashMap;
use vstd::prelude::*;

verus! {

broadcast use vstd::std_specs::hash::group_hash_axioms;

/// The open span records, by span id, and the service they are reported
/// under.
pub struct SpanHooks {
    spans: HashMap<u64, SpanRecord>,
    service_name: String,
}

impl View for SpanHooks {
    type V = Map<u64, SpanView>;

    closed spec fn view(&self) -> Map<u64, SpanView> {
        self.spans@.map_values(|r: SpanRecord| r@)
    }
}

/// The trace id and parent id of a new span: its parent's trace and the
/// parent's own id where the parent has a record, else a fresh trace with
/// no parent.
pub open spec fn inherited_ids(open_spans: Map<u64, SpanView>, parent: Option<u64>, fresh: u64) -> (
    u64,
    u64,
) {
    match parent {
        Some(p) => if open_spans.contains_key(p) {
            (open_spans[p].trace_id, open_spans[p].span_id)
        } else {
            (fresh, 0)
        },
        None => (fresh, 0),
    }
}

/// The record of a new span: its ids, then its attributes at creation.
pub open spec fn created_span(
    open_spans: Map<u64, SpanView>,
    id: u64,
    name: Seq<char>,
    parent: Option<u64>,
    fresh: u64,
    attrs: Seq<Field>,
) -> SpanView {
    let ids = inherited_ids(open_spans, parent, fresh);
    fields_applied(fresh_span(name, ids.0, ids.1, id), attrs)
}

/// The arena after attributes arrive for span `id`: unchanged if it has no
/// record.
pub open spec fn recorded(open_spans: Map<u64, SpanView>, id: u64, fs: Seq<Field>) -> Map<
    u64,
    SpanView,
> {
    if open_spans.contains_key(id) {
        open_spans.insert(id, fields_applied(open_spans[id], fs))
    } else {
        open_spans
    }
}

/// The arena after span `id` changes by `f`: unchanged if it has no record.
pub open spec fn updated(
    open_spans: Map<u64, SpanView>,
    id: u64,
    f: spec_fn(SpanView) -> SpanView,
) -> Map<u64, SpanView> {
    if open_spans.contains_key(id) {
        open_spans.insert(id, f(open_spans[id]))
    } else {
        open_spans
    }
}

impl SpanHooks {
    /// Every open record has an error flag of 0 or 1.
    pub closed spec fn wf(&self) -> bool {
        forall|k: u64| #[trigger] self.spans@.contains_key(k) ==> self.spans@[k]@.wf()
    }

    pub closed spec fn service(&self) -> Seq<char> {
        self.service_name@
    }

    proof fn lemma_view_insert(&self, id: u64, r: SpanRecord, m: Map<u64, SpanRecord>)
        requires
            m == self.spans@.insert(id, r),
        ensures
            m.map_values(|r: SpanRecord| r@) == self@.insert(id, r@),
    {
        assert(m.map_values(|r: SpanRecord| r@) =~= self@.insert(id, r@));
    }

    /// No open spans, reported under the service `service_name`.
    pub fn new(service_name: String) -> (r: SpanHooks)
        ensures
            r@ == Map::<u64, SpanView>::empty(),
            r.service() == service_name@,
            r.wf(),
    {
        let r = SpanHooks { spans: HashMap::new(), service_name };
        assert(r@ =~= Map::<u64, SpanView>::empty());
        r
    }

    /// The service that closed spans are reported under.
    pub fn with_service_name(self, service_name: &str) -> (r: SpanHooks)
        ensures
            r@ == self@,
            r.service() == service_name@,
            self.wf() ==> r.wf(),
    {
        SpanHooks { spans: self.spans, service_name: service_name.to_string() }
    }

    /// A new span `id` named `name`: it takes its trace from the record of
    /// `parent`, with the parent's id as its parent id, or starts the trace
    /// `fresh_trace_id` with no parent; then its attributes at creation
    /// apply, and its record is kept until it closes.
    pub fn on_new_span(
        &mut self,
        id: u64,
        name: String,
        parent: Option<u64>,
        fresh_trace_id: u64,
        attrs: &Vec<Field>,
    )
        requires
            old(self).wf(),
        ensures
            final(self)@ == old(self)@.insert(
                id,
                created_span(old(self)@, id, name@, parent, fresh_trace_id, attrs@),
            ),
            final(self).service() == old(self).service(),
            final(self).wf(),
    {
        let ids: (u64, u64) = match parent {
            Some(p) => match self.spans.get(&p) {
                Some(r) => (r.trace_id, r.span_id),
                None => (fresh_trace_id, 0),
            },
            None => (fresh_trace_id, 0),
        };
        let mut record = SpanRecord::new(name, ids.0, ids.1, id);
        record.apply_fields(attrs);
        self.spans.insert(id, record);
        proof {
            old(self).lemma_view_insert(id, record, self.spans@);
        }
    }

    /// Attributes recorded on span `id` after its creation; nothing happens
    /// if the span has no record.
    pub fn on_record(&mut self, id: u64, fields: &Vec<Field>)
        requires
            old(self).wf(),
        ensures
            final(self)@ == recorded(old(self)@, id, fields@),
            final(self).service() == old(self).service(),
            final(self).wf(),
    {
        match self.spans.remove(&id) {
            Some(mut record) => {
                record.apply_fields(fields);
                self.spans.insert(id, record);
                proof {
                    assert(self.spans@ =~= old(self).spans@.insert(id, record));
                    old(self).lemma_view_insert(id, record, self.spans@);
                }
            },
            None => {
                assert(self.spans@ =~= old(self).spans@);
            },
        }
    }

    /// An event with attributes `fields`, emitted inside `span` if any:
    /// the attributes apply to that span's record.
    pub fn on_event(&mut self, span: Option<u64>, fields: &Vec<Field>)
        requires
            old(self).wf(),
        ensures
            final(self)@ == match span {
                Some(id) => recorded(old(self)@, id, fields@),
                None => old(self)@,
            },
            final(self).service() == old(self).service(),
            final(self).wf(),
    {
        if let Some(id) = span {
            self.on_record(id, fields);
        }
    }

    /// Span `id` becomes the running piece of work at `now`: its start is
    /// taken, unless it already has one.
    pub fn on_enter(&mut self, id: u64, now: u64)
        requires
            old(self).wf(),
        ensures
            final(self)@ == updated(old(self)@, id, |v: SpanView| start_marked(v, now)),
            final(self).service() == old(self).service(),
            final(self).wf(),
    {
        match self.spans.remove(&id) {
            Some(mut record) => {
                record.mark_start_if_unset(now);
                self.spans.insert(id, record);
                proof {
                    assert(self.spans@ =~= old(self).spans@.insert(id, record));
                    old(self).lemma_view_insert(id, record, self.spans@);
                }
            },
            None => {
                assert(self.spans@ =~= old(self).spans@);
            },
        }
    }

    /// Span `id` stops running at `now`, perhaps only for a while: its
    /// duration runs from its start to `now`.
    pub fn on_exit(&mut self, id: u64, now: u64)
        requires
            old(self).wf(),
        ensures
            final(self)@ == updated(old(self)@, id, |v: SpanView| duration_recomputed(v, now)),
            final(self).service() == old(self).service(),
            final(self).wf(),
    {
        match self.spans.remove(&id) {
            Some(mut record) => {
                record.recompute_duration(now);
                self.spans.insert(id, record);
                proof {
                    assert(self.spans@ =~= old(self).spans@.insert(id, record));
                    old(self).lemma_view_insert(id, record, self.spans@);
                }
            },
            None => {
                assert(self.spans@ =~= old(self).spans@);
            },
        }
    }

    /// Span `id` ends: its record leaves the arena and is returned, stamped
    /// with the service name, for export; `None` if it has no record.
    pub fn on_close(&mut self, id: u64) -> (r: Option<SpanRecord>)
        requires
            old(self).wf(),
        ensures
            final(self)@ == old(self)@.remove(id),
            final(self).service() == old(self).service(),
            final(self).wf(),
            match r {
                Some(rec) => old(self)@.contains_key(id) && rec@ == SpanView {
                    service: old(self).service(),
                    ..old(self)@[id]
                },
                None => !old(self)@.contains_key(id),
            },
    {
        let removed = self.spans.remove(&id);
        assert(self@ =~= old(self)@.remove(id));
        match removed {
            Some(mut record) => {
                record.service = self.service_name.clone();
                Some(record)
            },
            None => None,
        }
    }
}

/// One scheduling step of a span: entering or leaving at a clock reading.
#[derive(Clone, Copy, Debug)]
pub enum Transition {
    Enter(u64),
    Exit(u64),
}

pub open spec fn stepped(v: SpanView, t: Transition) -> SpanView {
    match t {
        Transition::Enter(now) => start_marked(v, now),
        Transition::Exit(now) => duration_recomputed(v, now),
    }
}

/// A record after a run of scheduling steps, first to last.
pub open spec fn replayed(v: SpanView, ts: Seq<Transition>) -> SpanView
    decreases ts.len(),
{
    if ts.len() == 0 {
        v
    } else {
        replayed(stepped(v, ts[0]), ts.drop_first())
    }
}

/// Once a span has a start, no later entering or leaving changes it.
pub proof fn lemma_start_kept(v: SpanView, ts: Seq<Transition>)
    requires
        v.start != 0,
    ensures
        replayed(v, ts).start == v.start,
    decreases ts.len(),
{
    if ts.len() > 0 {
        lemma_start_kept(stepped(v, ts[0]), ts.drop_first());
    }
}

/// The first entering sets the start; whatever follows keeps it.
pub proof fn lemma_first_enter_sets_start(v: SpanView, now: u64, ts: Seq<Transition>)
    requires
        v.start == 0,
        now != 0,
    ensures
        replayed(v, seq![Transition::Enter(now)] + ts).start == now,
{
    let all = seq![Transition::Enter(now)] + ts;
    assert(all.drop_first() =~= ts);
    lemma_start_kept(start_marked(v, now), ts);
}

/// After a run of steps that ends by leaving at `now`, the duration is
/// `now` less the start: the last leaving counts, not a sum of the
/// intervals the span ran.
pub proof fn lemma_duration_from_last_exit(v: SpanView, ts: Seq<Transition>, now: u64)
    requires
        ts.len() >= 1,
        ts.last() == Transition::Exit(now),
    ensures
        replayed(v, ts).duration == elapsed(replayed(v, ts).start, now),
    decreases ts.len(),
{
    if ts.len() == 1 {
        assert(ts.drop_first() =~= Seq::<Transition>::empty());
    } else {
        assert(ts.drop_first().last() == ts.last());
        lemma_duration_from_last_exit(stepped(v, ts[0]), ts.drop_first(), now);
    }
}

/// A span first entered at `first` (a nonzero reading) and last left at
/// `now` reports `now - first`, however often it ran in between.
pub proof fn lemma_duration_spans_first_enter_to_last_exit(
    v: SpanView,
    first: u64,
    ts: Seq<Transition>,
    now: u64,
)
    requires
        v.start == 0,
        first != 0,
        ts.len() >= 1,
        ts.last() == Transition::Exit(now),
    ensures
        replayed(v, seq![Transition::Enter(first)] + ts).duration == elapsed(first, now),
{
    let all = seq![Transition::Enter(first)] + ts;
    lemma_first_enter_sets_start(v, first, ts);
    assert(all.last() == ts.last());
    lemma_duration_from_last_exit(v, all, now);
}

/// Whether no attribute of `fs` sets a trace id or parent id.
pub open spec fn keeps_identity(fs: Seq<Field>) -> bool {
    forall|i: int|
        0 <= i < fs.len() ==> (#[trigger] fs[i]).key@ != KEY_TRACE_ID@ && fs[i].key@
            != KEY_PARENT_ID@
}

/// Attributes that set no trace id or parent id leave both as they were.
pub proof fn lemma_fields_keep_identity(v: SpanView, fs: Seq<Field>)
    requires
        keeps_identity(fs),
    ensures
        fields_applied(v, fs).trace_id == v.trace_id,
        fields_applied(v, fs).parent_id == v.parent_id,
    decreases fs.len(),
{
    if fs.len() > 0 {
        assert(fs.last() == fs[fs.len() - 1]);
        lemma_fields_keep_identity(v, fs.drop_last());
    }
}

/// A span created under an open parent joins the parent's trace, with the
/// parent's span id as its parent id (unless its own attributes set them).
pub proof fn lemma_child_inherits(
    open_spans: Map<u64, SpanView>,
    id: u64,
    name: Seq<char>,
    parent: u64,
    fresh: u64,
    attrs: Seq<Field>,
)
    requires
        open_spans.contains_key(parent),
        keeps_identity(attrs),
    ensures
        created_span(open_spans, id, name, Some(parent), fresh, attrs).trace_id
            == open_spans[parent].trace_id,
        created_span(open_spans, id, name, Some(parent), fresh, attrs).parent_id
            == open_spans[parent].span_id,
        created_span(open_spans, id, name, Some(parent), fresh, attrs).span_id == id,
{
    let ids = inherited_ids(open_spans, Some(parent), fresh);
    lemma_fields_keep_identity(fresh_span(name, ids.0, ids.1, id), attrs);
    lemma_fields_keep_span_id(fresh_span(name, ids.0, ids.1, id), attrs);
}

/// A span with no open parent starts a trace of its own: the fresh trace
/// id, and no parent (unless its own attributes set them).
pub proof fn lemma_root_starts_trace(
    open_spans: Map<u64, SpanView>,
    id: u64,
    name: Seq<char>,
    parent: Option<u64>,
    fresh: u64,
    attrs: Seq<Field>,
)
    requires
        parent matches Some(p) ==> !open_spans.contains_key(p),
        keeps_identity(attrs),
    ensures
        created_span(open_spans, id, name, parent, fresh, attrs).trace_id == fresh,
        created_span(open_spans, id, name, parent, fresh, attrs).parent_id == 0,
{
    lemma_fields_keep_identity(fresh_span(name, fresh, 0, id), attrs);
}

/// No attribute changes a record's own span id.
pub proof fn lemma_fields_keep_span_id(v: SpanView, fs: Seq<Field>)
    ensures
        fields_applied(v, fs).span_id == v.span_id,
    decreases fs.len(),
{
    if fs.len() > 0 {
        lemma_fields_keep_span_id(v, fs.drop_last());
    }
}

} // verus!
