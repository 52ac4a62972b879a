//! What each happening does to a layer: which events it adds and what they tell,
//! what it changes of what is known, and what it leaves alone.
use vstd::prelude::*;

use crate::document_laws::{body, has_keys, holds, is_envelope};
use crate::ids::Purpose;
use crate::json::Json;
use crate::model::{LayerView, NewSpanView, TraceSeed};

verus! {

/// Whether a layer sends to the same place as the same sender.
pub open spec fn same_sender(v: LayerView, w: LayerView) -> bool {
    &&& w.public_key == v.public_key
    &&& w.secret_key == v.secret_key
    &&& w.base_url == v.base_url
}

/// Whether what waits in `v` waits in `w` too, in front, and so many events more.
pub open spec fn adds_events(v: LayerView, w: LayerView, count: int) -> bool {
    &&& w.batch.len() == v.batch.len() + count
    &&& forall|i: int| #![trigger w.batch[i]] 0 <= i < v.batch.len() ==> w.batch[i] == v.batch[i]
}

/// Whether an event announces a trace under an identifier drawn for that, at a time
/// that the clock gave as the present one, and names it by that time's second.
pub open spec fn is_announcement(event: Json, trace_id: Seq<char>) -> bool {
    exists|id: String, moment: crate::clock::Moment|
        {
            &&& #[trigger] call_ensures(crate::ids::draw_id, (Purpose::Announcement,), id)
            &&& #[trigger] call_ensures(crate::clock::now, (), moment)
            &&& is_envelope(
                event,
                id@,
                crate::clock::rfc3339_of(moment.seconds, moment.nanos),
                "trace-create"@,
            )
            &&& holds(body(event), "id"@, Json::Str(trace_id))
            &&& holds(
                body(event),
                "name"@,
                Json::Str(crate::text::decimal(moment.seconds as int)),
            )
            &&& holds(
                body(event),
                "timestamp"@,
                Json::Str(crate::clock::rfc3339_of(moment.seconds, moment.nanos)),
            )
        }
}

/// Whether the trace in `w` is that of `v`; or, where `v` has none, one drawn anew,
/// and the first event added announces it.
pub open spec fn sees_to_trace(v: LayerView, w: LayerView) -> bool {
    &&& v.current_trace_id is Some ==> w.current_trace_id == v.current_trace_id
    &&& v.current_trace_id is None ==> {
        &&& w.current_trace_id is Some
        &&& exists|id: String| #[trigger]
            call_ensures(crate::ids::draw_id, (Purpose::Trace,), id) && id@
                == w.current_trace_id->0
        &&& w.batch.len() > v.batch.len()
        &&& is_announcement(w.batch[v.batch.len() as int], w.current_trace_id->0)
    }
}

/// How many events come before the event of a happening: the announcement of the
/// trace, where there is none yet.
pub open spec fn before(v: LayerView) -> int {
    if v.current_trace_id is None {
        1
    } else {
        0
    }
}

/// Whether an event goes by an identifier that was drawn for it.
pub open spec fn has_drawn_id(event: Json) -> bool {
    exists|id: String| #[trigger]
        call_ensures(crate::ids::draw_id, (Purpose::Event,), id) && holds(
            event,
            "id"@,
            Json::Str(id@),
        )
}

/// Whether an event's time is one that the clock gave as the present one.
pub open spec fn has_present_time(event: Json) -> bool {
    exists|moment: crate::clock::Moment| #[trigger]
        call_ensures(crate::clock::now, (), moment) && holds(
            event,
            "timestamp"@,
            Json::Str(crate::clock::rfc3339_of(moment.seconds, moment.nanos)),
        )
}

/// Whether an event announces a span as an observation: by its own name, start,
/// level and recorded fields, and filed under the observation of the span that
/// encloses its parent in `v`, as long as that one is open.
pub open spec fn tells_of_span(
    event: Json,
    span: NewSpanView,
    trace_id: Seq<char>,
    v: LayerView,
) -> bool {
    &&& holds(event, "type"@, Json::Str("observation-create"@))
    &&& holds(event, "timestamp"@, Json::Str(span.start_time))
    &&& holds(body(event), "id"@, Json::Str(span.observation_id))
    &&& holds(body(event), "traceId"@, Json::Str(trace_id))
    &&& holds(body(event), "type"@, Json::Str("SPAN"@))
    &&& holds(body(event), "name"@, Json::Str(span.name))
    &&& holds(body(event), "startTime"@, Json::Str(span.start_time))
    &&& holds(body(event), "metadata"@, Json::Object(span.metadata))
    &&& holds(body(event), "level"@, Json::Str(span.level))
    &&& (span.parent_span is Some && v.span_hierarchy.contains_key(span.parent_span->0)
        && v.active_spans.contains_key(v.span_hierarchy[span.parent_span->0]) ==> holds(
        body(event),
        "parentObservationId"@,
        Json::Str(v.active_spans[v.span_hierarchy[span.parent_span->0]].1),
    ))
    &&& (!(span.parent_span is Some && v.span_hierarchy.contains_key(span.parent_span->0)
        && v.active_spans.contains_key(v.span_hierarchy[span.parent_span->0])) ==> holds(
        body(event),
        "parentObservationId"@,
        Json::Null,
    ))
}

/// Whether an event tells when an observation ended.
pub open spec fn tells_of_end(
    event: Json,
    observation_id: Seq<char>,
    end_time: Seq<char>,
    trace_id: Seq<char>,
) -> bool {
    &&& holds(event, "type"@, Json::Str("observation-update"@))
    &&& holds(event, "timestamp"@, Json::Str(end_time))
    &&& has_keys(body(event), set!["id"@, "traceId"@, "endTime"@])
    &&& holds(body(event), "id"@, Json::Str(observation_id))
    &&& holds(body(event), "traceId"@, Json::Str(trace_id))
    &&& holds(body(event), "endTime"@, Json::Str(end_time))
}

/// Whether an event adds recorded fields to an observation.
pub open spec fn tells_of_record(
    event: Json,
    observation_id: Seq<char>,
    metadata: Map<Seq<char>, Json>,
    trace_id: Seq<char>,
) -> bool {
    &&& holds(event, "type"@, Json::Str("observation-update"@))
    &&& has_keys(body(event), set!["id"@, "traceId"@, "metadata"@])
    &&& holds(body(event), "id"@, Json::Str(observation_id))
    &&& holds(body(event), "traceId"@, Json::Str(trace_id))
    &&& holds(body(event), "metadata"@, Json::Object(metadata))
}

/// Whether an event tells of something logged: by its message where that is a text,
/// with all that it recorded, and under the observation of the span that it was
/// logged in, or under none outside of spans.
pub open spec fn tells_of_log(
    event: Json,
    span_id: Option<u64>,
    metadata: Map<Seq<char>, Json>,
    trace_id: Seq<char>,
    v: LayerView,
) -> bool {
    &&& holds(event, "type"@, Json::Str("event-create"@))
    &&& holds(body(event), "id"@, event->Object_0["id"@])
    &&& holds(body(event), "traceId"@, Json::Str(trace_id))
    &&& holds(body(event), "metadata"@, Json::Object(metadata))
    &&& (metadata.contains_key("message"@) && metadata["message"@] is Str ==> holds(
        body(event),
        "name"@,
        metadata["message"@],
    ))
    &&& (!(metadata.contains_key("message"@) && metadata["message"@] is Str) ==> holds(
        body(event),
        "name"@,
        Json::Str("unnamed event"@),
    ))
    &&& (span_id is Some ==> holds(
        body(event),
        "parentObservationId"@,
        Json::Str(v.active_spans[span_id->0].1),
    ))
    &&& (span_id is None ==> !body(event)->Object_0.contains_key("parentObservationId"@))
}

/// Beginning the trace adds its announcement, and changes nothing but that there is
/// a trace.
pub proof fn law_begun_trace_is_announced(
    v: LayerView,
    trace_id: Seq<char>,
    event_id: Seq<char>,
    timestamp: Seq<char>,
    seconds: int,
)
    ensures
        ({
            let w = v.trace_created(trace_id, event_id, timestamp, seconds);
            &&& same_sender(v, w)
            &&& w.current_trace_id == Some(trace_id)
            &&& w.current_observation_id == v.current_observation_id
            &&& w.active_spans == v.active_spans
            &&& w.span_hierarchy == v.span_hierarchy
            &&& adds_events(v, w, 1)
            &&& is_envelope(w.batch.last(), event_id, timestamp, "trace-create"@)
            &&& holds(body(w.batch.last()), "id"@, Json::Str(trace_id))
            &&& holds(body(w.batch.last()), "name"@, Json::Str(crate::text::decimal(seconds)))
            &&& holds(body(w.batch.last()), "timestamp"@, Json::Str(timestamp))
        }),
{
    crate::document_laws::law_trace_announcement_tells(event_id, timestamp, trace_id, seconds);
}

/// Seeing to it that there is a trace changes nothing where there is one, and else
/// begins one at the present time, under an identifier of its own.
pub proof fn law_trace_begins_now_if_needed(v: LayerView, w: LayerView)
    requires
        v.traces_to(w),
    ensures
        v.current_trace_id is Some ==> w == v,
        sees_to_trace(v, w),
        adds_events(v, w, before(v)),
        same_sender(v, w),
        w.current_observation_id == v.current_observation_id,
        w.active_spans == v.active_spans,
        w.span_hierarchy == v.span_hierarchy,
{
    if v.current_trace_id is None {
        let seed = choose|seed: TraceSeed|
            #[trigger] seed.drawn() && w == v.trace_created(
                seed.trace_id,
                seed.event_id,
                seed.moment.text(),
                seed.moment.seconds as int,
            );
        law_begun_trace_is_announced(
            v,
            seed.trace_id,
            seed.event_id,
            seed.moment.text(),
            seed.moment.seconds as int,
        );
        let id = choose|id: String| #[trigger]
            call_ensures(crate::ids::draw_id, (Purpose::Announcement,), id) && id@ == seed.event_id;
        assert(call_ensures(crate::ids::draw_id, (Purpose::Announcement,), id) && call_ensures(
            crate::clock::now,
            (),
            seed.moment,
        ));
        assert(w.batch[v.batch.len() as int] == w.batch.last());
    }
}

/// Filing a span's beginning adds one event that tells of it, counts it as open, and
/// notes its parent.
pub proof fn law_filed_span_is_told(v: LayerView, span: NewSpanView, event_id: Seq<char>)
    requires
        v.current_trace_id is Some,
    ensures
        ({
            let w = v.span_opened(span, event_id);
            &&& same_sender(v, w)
            &&& w.current_trace_id == v.current_trace_id
            &&& w.current_observation_id == v.current_observation_id
            &&& w.active_spans == v.active_spans.insert(
                span.span_id,
                (span.langfuse_id, span.observation_id),
            )
            &&& (span.parent_span matches Some(parent) ==> w.span_hierarchy
                == v.span_hierarchy.insert(span.span_id, parent))
            &&& (span.parent_span is None ==> w.span_hierarchy == v.span_hierarchy)
            &&& adds_events(v, w, 1)
            &&& holds(w.batch.last(), "id"@, Json::Str(event_id))
            &&& tells_of_span(w.batch.last(), span, v.current_trace_id->0, v)
        }),
{
    crate::document_laws::law_observation_announcement_tells(
        event_id,
        span.start_time,
        span.observation_id,
        v.current_trace_id->0,
        span.name,
        v.filed_under(span.parent_span),
        span.metadata,
        span.level,
    );
}

/// A span's beginning sees to the trace, adds one event that tells of the span under
/// an identifier drawn for it, counts the span as open, and notes its parent.
pub proof fn law_span_begins(v: LayerView, span: NewSpanView, w: LayerView)
    requires
        v.opens_to(span, w),
    ensures
        same_sender(v, w),
        sees_to_trace(v, w),
        w.current_observation_id == v.current_observation_id,
        w.active_spans == v.active_spans.insert(
            span.span_id,
            (span.langfuse_id, span.observation_id),
        ),
        span.parent_span matches Some(parent) ==> w.span_hierarchy == v.span_hierarchy.insert(
            span.span_id,
            parent,
        ),
        span.parent_span is None ==> w.span_hierarchy == v.span_hierarchy,
        adds_events(v, w, before(v) + 1),
        has_drawn_id(w.batch.last()),
        tells_of_span(w.batch.last(), span, w.current_trace_id->0, v),
{
    let (traced, event_id) = choose|traced: LayerView, event_id: Seq<char>| #[trigger]
        v.traces_to(traced) && #[trigger] crate::ids::is_drawn(Purpose::Event, event_id) && w
            == traced.span_opened(span, event_id);
    law_trace_begins_now_if_needed(v, traced);
    law_filed_span_is_told(traced, span, event_id);
    lemma_then(v, traced, w, event_id);
}

/// What holds after the trace was seen to and one event was added.
proof fn lemma_then(v: LayerView, traced: LayerView, w: LayerView, event_id: Seq<char>)
    requires
        sees_to_trace(v, traced),
        adds_events(v, traced, before(v)),
        adds_events(traced, w, 1),
        w.current_trace_id == traced.current_trace_id,
        crate::ids::is_drawn(Purpose::Event, event_id),
        holds(w.batch.last(), "id"@, Json::Str(event_id)),
    ensures
        sees_to_trace(v, w),
        adds_events(v, w, before(v) + 1),
        has_drawn_id(w.batch.last()),
{
    if v.current_trace_id is None {
        assert(w.batch[v.batch.len() as int] == traced.batch[v.batch.len() as int]);
    }
    assert forall|i: int| #![trigger w.batch[i]] 0 <= i < v.batch.len() implies w.batch[i]
        == v.batch[i] by {
        assert(w.batch[i] == traced.batch[i]);
    }
    let id = choose|id: String| #[trigger]
        call_ensures(crate::ids::draw_id, (Purpose::Event,), id) && id@ == event_id;
    assert(call_ensures(crate::ids::draw_id, (Purpose::Event,), id) && holds(
        w.batch.last(),
        "id"@,
        Json::Str(id@),
    ));
}

/// Filing the end of an open span adds one event that tells of it, and counts the
/// span as open no longer; filing the end of another changes nothing.
pub proof fn law_filed_end_is_told(
    v: LayerView,
    span_id: u64,
    end_time: Seq<char>,
    event_id: Seq<char>,
)
    requires
        v.current_trace_id is Some,
    ensures
        ({
            let w = v.span_closed(span_id, end_time, event_id);
            &&& (!v.active_spans.contains_key(span_id) ==> w == v)
            &&& (v.active_spans.contains_key(span_id) ==> {
                &&& same_sender(v, w)
                &&& w.current_trace_id == v.current_trace_id
                &&& w.current_observation_id == v.current_observation_id
                &&& w.active_spans == v.active_spans.remove(span_id)
                &&& w.span_hierarchy == v.span_hierarchy
                &&& adds_events(v, w, 1)
                &&& holds(w.batch.last(), "id"@, Json::Str(event_id))
                &&& tells_of_end(
                    w.batch.last(),
                    v.active_spans[span_id].1,
                    end_time,
                    v.current_trace_id->0,
                )
            })
        }),
{
    crate::document_laws::law_observation_end_tells(
        event_id,
        end_time,
        v.active_spans[span_id].1,
        v.current_trace_id->0,
    );
}

/// The end of an open span sees to the trace, adds one event that tells of it under
/// an identifier drawn for it, and counts the span as open no longer; the end of
/// another changes nothing.
pub proof fn law_span_ends(v: LayerView, span_id: u64, end_time: Seq<char>, w: LayerView)
    requires
        v.closes_to(span_id, end_time, w),
    ensures
        !v.active_spans.contains_key(span_id) ==> w == v,
        v.active_spans.contains_key(span_id) ==> {
            &&& same_sender(v, w)
            &&& sees_to_trace(v, w)
            &&& w.current_observation_id == v.current_observation_id
            &&& w.active_spans == v.active_spans.remove(span_id)
            &&& w.span_hierarchy == v.span_hierarchy
            &&& adds_events(v, w, before(v) + 1)
            &&& has_drawn_id(w.batch.last())
            &&& tells_of_end(
                w.batch.last(),
                v.active_spans[span_id].1,
                end_time,
                w.current_trace_id->0,
            )
        },
{
    if v.active_spans.contains_key(span_id) {
        let (traced, event_id) = choose|traced: LayerView, event_id: Seq<char>| #[trigger]
            v.traces_to(traced) && #[trigger] crate::ids::is_drawn(Purpose::Event, event_id) && w
                == traced.span_closed(span_id, end_time, event_id);
        law_trace_begins_now_if_needed(v, traced);
        law_filed_end_is_told(traced, span_id, end_time, event_id);
        lemma_then(v, traced, w, event_id);
    }
}

/// Filing a record with fields of an open span adds one event that tells of it; filing
/// any other changes nothing.
pub proof fn law_filed_record_is_told(
    v: LayerView,
    span_id: u64,
    metadata: Map<Seq<char>, Json>,
    event_id: Seq<char>,
    timestamp: Seq<char>,
    key: Seq<char>,
)
    requires
        v.current_trace_id is Some,
    ensures
        ({
            let w = v.span_recorded(span_id, metadata, event_id, timestamp);
            &&& (!v.active_spans.contains_key(span_id) ==> w == v)
            &&& (metadata == Map::<Seq<char>, Json>::empty() ==> w == v)
            &&& (v.active_spans.contains_key(span_id) && metadata.contains_key(key) ==> {
                &&& w == (LayerView { batch: w.batch, ..v })
                &&& adds_events(v, w, 1)
                &&& holds(w.batch.last(), "id"@, Json::Str(event_id))
                &&& holds(w.batch.last(), "timestamp"@, Json::Str(timestamp))
                &&& tells_of_record(
                    w.batch.last(),
                    v.active_spans[span_id].1,
                    metadata,
                    v.current_trace_id->0,
                )
            })
        }),
{
    if metadata.contains_key(key) {
        assert(metadata.dom().contains(key));
        assert(!metadata.dom().is_empty());
    }
    crate::document_laws::law_observation_record_tells(
        event_id,
        timestamp,
        v.active_spans[span_id].1,
        v.current_trace_id->0,
        metadata,
    );
}

/// A record with fields of an open span sees to the trace and adds one event that
/// tells of it, at the present time and under an identifier drawn for it; any other
/// changes nothing.
pub proof fn law_span_records(
    v: LayerView,
    span_id: u64,
    metadata: Map<Seq<char>, Json>,
    w: LayerView,
    key: Seq<char>,
)
    requires
        v.records_to(span_id, metadata, w),
    ensures
        !v.active_spans.contains_key(span_id) ==> w == v,
        metadata == Map::<Seq<char>, Json>::empty() ==> w == v,
        v.active_spans.contains_key(span_id) && metadata.contains_key(key) ==> {
            &&& same_sender(v, w)
            &&& sees_to_trace(v, w)
            &&& w.current_observation_id == v.current_observation_id
            &&& w.active_spans == v.active_spans
            &&& w.span_hierarchy == v.span_hierarchy
            &&& adds_events(v, w, before(v) + 1)
            &&& has_drawn_id(w.batch.last())
            &&& has_present_time(w.batch.last())
            &&& tells_of_record(
                w.batch.last(),
                v.active_spans[span_id].1,
                metadata,
                w.current_trace_id->0,
            )
        },
{
    if v.active_spans.contains_key(span_id) && metadata.contains_key(key) {
        assert(metadata.dom().contains(key));
        assert(!metadata.dom().is_empty());
        let (traced, event_id, timestamp) = choose|
            traced: LayerView,
            event_id: Seq<char>,
            timestamp: Seq<char>,
        | #[trigger]
            v.traces_to(traced) && #[trigger] crate::ids::is_drawn(Purpose::Event, event_id)
                && #[trigger] crate::clock::is_timestamp(timestamp) && w == traced.span_recorded(
                span_id,
                metadata,
                event_id,
                timestamp,
            );
        law_trace_begins_now_if_needed(v, traced);
        law_filed_record_is_told(traced, span_id, metadata, event_id, timestamp, key);
        lemma_then(v, traced, w, event_id);
        lemma_present(w.batch.last(), timestamp);
    }
}

proof fn lemma_present(event: Json, timestamp: Seq<char>)
    requires
        crate::clock::is_timestamp(timestamp),
        holds(event, "timestamp"@, Json::Str(timestamp)),
    ensures
        has_present_time(event),
{
    let moment = choose|moment: crate::clock::Moment| #[trigger]
        call_ensures(crate::clock::now, (), moment) && moment.valid() && timestamp
            == moment.text();
    assert(call_ensures(crate::clock::now, (), moment));
}

/// Filing what was logged inside an open span, or outside of any, adds one event that
/// tells of it; what was logged inside another span changes nothing.
pub proof fn law_filed_log_is_told(
    v: LayerView,
    span_id: Option<u64>,
    metadata: Map<Seq<char>, Json>,
    event_id: Seq<char>,
    timestamp: Seq<char>,
)
    requires
        v.current_trace_id is Some,
    ensures
        ({
            let w = v.event_logged(span_id, metadata, event_id, timestamp);
            &&& (span_id is Some && !v.active_spans.contains_key(span_id->0) ==> w == v)
            &&& (span_id is None || v.active_spans.contains_key(span_id->0) ==> {
                &&& w == (LayerView { batch: w.batch, ..v })
                &&& adds_events(v, w, 1)
                &&& holds(w.batch.last(), "id"@, Json::Str(event_id))
                &&& holds(w.batch.last(), "timestamp"@, Json::Str(timestamp))
                &&& tells_of_log(w.batch.last(), span_id, metadata, v.current_trace_id->0, v)
            })
        }),
{
    crate::document_laws::lemma_key_shapes();
    crate::document_laws::law_logged_event_tells(
        event_id,
        timestamp,
        v.current_trace_id->0,
        v.logged_under(span_id),
        crate::events::event_name_of(metadata),
        metadata,
    );
    crate::document_laws::law_event_goes_by_its_message(metadata, metadata["message"@]->Str_0);
}

/// What is logged inside an open span, or outside of any, sees to the trace and adds
/// one event that tells of it, at the present time and under an identifier drawn for
/// it; what is logged inside another span changes nothing.
pub proof fn law_event_is_logged(
    v: LayerView,
    span_id: Option<u64>,
    metadata: Map<Seq<char>, Json>,
    w: LayerView,
)
    requires
        v.logs_to(span_id, metadata, w),
    ensures
        span_id is Some && !v.active_spans.contains_key(span_id->0) ==> w == v,
        span_id is None || v.active_spans.contains_key(span_id->0) ==> {
            &&& same_sender(v, w)
            &&& sees_to_trace(v, w)
            &&& w.current_observation_id == v.current_observation_id
            &&& w.active_spans == v.active_spans
            &&& w.span_hierarchy == v.span_hierarchy
            &&& adds_events(v, w, before(v) + 1)
            &&& has_drawn_id(w.batch.last())
            &&& has_present_time(w.batch.last())
            &&& tells_of_log(w.batch.last(), span_id, metadata, w.current_trace_id->0, v)
        },
{
    if span_id is None || v.active_spans.contains_key(span_id->0) {
        let (traced, event_id, timestamp) = choose|
            traced: LayerView,
            event_id: Seq<char>,
            timestamp: Seq<char>,
        | #[trigger]
            v.traces_to(traced) && #[trigger] crate::ids::is_drawn(Purpose::Event, event_id)
                && #[trigger] crate::clock::is_timestamp(timestamp) && w == traced.event_logged(
                span_id,
                metadata,
                event_id,
                timestamp,
            );
        law_trace_begins_now_if_needed(v, traced);
        law_filed_log_is_told(traced, span_id, metadata, event_id, timestamp);
        lemma_then(v, traced, w, event_id);
        lemma_present(w.batch.last(), timestamp);
    }
}

/// After entering an open span the run is in its observation; entering another
/// changes nothing, and nothing else ever changes.
pub proof fn law_entering_moves_to_observation(v: LayerView, span_id: u64)
    ensures
        ({
            let w = v.span_entered(span_id);
            &&& (v.active_spans.contains_key(span_id) ==> w == (LayerView {
                current_observation_id: Some(v.active_spans[span_id].1),
                ..v
            }))
            &&& (!v.active_spans.contains_key(span_id) ==> w == v)
        }),
{
}

/// After leaving a span the run is in the observation of the span around, if that
/// one is open, and in none otherwise; nothing else changes.
pub proof fn law_leaving_moves_to_parent(v: LayerView, parent_span: Option<u64>)
    ensures
        ({
            let w = v.span_exited(parent_span);
            &&& (parent_span is Some && v.active_spans.contains_key(parent_span->0) ==> w == (
            LayerView { current_observation_id: Some(v.active_spans[parent_span->0].1), ..v }))
            &&& (!(parent_span is Some && v.active_spans.contains_key(parent_span->0)) ==> w == (
            LayerView { current_observation_id: None, ..v }))
        }),
{
}

/// The observation around a span is that of the span noted as its parent, as long as
/// that one is open.
pub proof fn law_enclosing_observation_is_that_of_the_parent(v: LayerView, span_id: u64)
    ensures
        v.span_hierarchy.contains_key(span_id) && v.active_spans.contains_key(
            v.span_hierarchy[span_id],
        ) ==> v.parent_observation(span_id) == Some(
            v.active_spans[v.span_hierarchy[span_id]].1,
        ),
        !(v.span_hierarchy.contains_key(span_id) && v.active_spans.contains_key(
            v.span_hierarchy[span_id],
        )) ==> v.parent_observation(span_id) is None,
{
}

} // verus!
