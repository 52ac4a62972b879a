//! What holds of a run as a whole, whatever happens in it.
use vstd::prelude::*;

use crate::configure::{ProfileView, RecommendedModels};
use crate::json::Json;
use crate::model::{LayerView, NewSpanView, TraceSeed};

verus! {

/// The kind of an event.
pub open spec fn kind_of(event: Json) -> Option<Seq<char>> {
    crate::json::text_of(crate::json::field_of(event, "type"@))
}

/// A field of what an event tells.
pub open spec fn told(event: Json, key: Seq<char>) -> Option<Json> {
    match crate::json::field_of(event, "body"@) {
        Some(body) => crate::json::field_of(body, key),
        None => None,
    }
}

/// The trace that an event belongs to: the one that it announces, or the one
/// that it names.
pub open spec fn trace_of(event: Json) -> Option<Seq<char>> {
    if kind_of(event) == Some("trace-create"@) {
        crate::json::text_of(told(event, "id"@))
    } else {
        crate::json::text_of(told(event, "traceId"@))
    }
}

/// Whether an event has what Langfuse asks of one: an identifier, a time, one of
/// the four kinds, and an identifier of what it tells about.
pub open spec fn is_event(event: Json) -> bool {
    &&& crate::json::text_of(crate::json::field_of(event, "id"@)) is Some
    &&& crate::json::text_of(crate::json::field_of(event, "timestamp"@)) is Some
    &&& (kind_of(event) == Some("trace-create"@) || kind_of(event) == Some("observation-create"@)
        || kind_of(event) == Some("observation-update"@) || kind_of(event) == Some(
        "event-create"@,
    ))
    &&& crate::json::text_of(told(event, "id"@)) is Some
}

/// Whether all that waits to be sent is events of the one trace that has begun.
pub open spec fn consistent(v: LayerView) -> bool {
    forall|i: int|
        #![trigger v.batch[i]]
        0 <= i < v.batch.len() ==> {
            &&& is_event(v.batch[i])
            &&& v.current_trace_id is Some
            &&& trace_of(v.batch[i]) == v.current_trace_id
        }
}

/// Whether the trace is announced once at most among the events that wait to be
/// sent, and then before all others.
pub open spec fn announced_once(v: LayerView) -> bool {
    forall|i: int|
        #![trigger v.batch[i]]
        0 <= i < v.batch.len() && kind_of(v.batch[i]) == Some("trace-create"@) ==> i == 0
}

/// How many events it takes to see to it that there is a trace: the announcement,
/// where none has begun.
pub open spec fn announcements(v: LayerView) -> nat {
    if v.current_trace_id is None {
        1
    } else {
        0
    }
}

/// Whether the trace begins between `v` and `w`, and is announced.
pub open spec fn begins(v: LayerView, w: LayerView) -> bool {
    &&& v.current_trace_id is None
    &&& exists|trace_id: Seq<char>, event_id: Seq<char>, timestamp: Seq<char>, seconds: int|
        w == #[trigger] v.trace_created(trace_id, event_id, timestamp, seconds)
}

/// Whether an event is filed under the trace that has begun, between `v` and `w`:
/// of a span's beginning, end or record, or of something logged. It may turn out
/// that there is nothing to file.
pub open spec fn filed(v: LayerView, w: LayerView) -> bool {
    &&& v.current_trace_id is Some
    &&& {
        ||| exists|span: NewSpanView, event_id: Seq<char>|
            w == #[trigger] v.span_opened(span, event_id)
        ||| exists|span_id: u64, end_time: Seq<char>, event_id: Seq<char>|
            w == #[trigger] v.span_closed(span_id, end_time, event_id)
        ||| exists|
            span_id: u64,
            metadata: Map<Seq<char>, Json>,
            event_id: Seq<char>,
            timestamp: Seq<char>,
        |
            w == #[trigger] v.span_recorded(span_id, metadata, event_id, timestamp)
        ||| exists|
            span_id: Option<u64>,
            metadata: Map<Seq<char>, Json>,
            event_id: Seq<char>,
            timestamp: Seq<char>,
        |
            w == #[trigger] v.event_logged(span_id, metadata, event_id, timestamp)
    }
}

/// Whether nothing but what is known of the spans changes between `v` and `w`.
pub open spec fn spans_change(v: LayerView, w: LayerView) -> bool {
    w == (LayerView {
        current_observation_id: w.current_observation_id,
        active_spans: w.active_spans,
        span_hierarchy: w.span_hierarchy,
        ..v
    })
}

/// Whether `w` can come of something that happens to a layer in state `v`: a span
/// begins, ends, records, is entered or left, something is logged, the trace
/// begins, or a batch is sent or refused.
pub open spec fn happens(v: LayerView, w: LayerView) -> bool {
    ||| exists|span: NewSpanView| #[trigger] v.opens_to(span, w)
    ||| exists|span_id: u64, end_time: Seq<char>| #[trigger] v.closes_to(span_id, end_time, w)
    ||| exists|span_id: u64, metadata: Map<Seq<char>, Json>| #[trigger]
        v.records_to(span_id, metadata, w)
    ||| exists|span_id: Option<u64>, metadata: Map<Seq<char>, Json>| #[trigger]
        v.logs_to(span_id, metadata, w)
    ||| v.traces_to(w)
    ||| begins(v, w)
    ||| filed(v, w)
    ||| spans_change(v, w)
    ||| exists|count: nat| w == #[trigger] v.sent(count)
}

/// Whether some states are those of a run: a layer as it is made, and then what
/// comes of one happening after the other.
pub open spec fn is_run(states: Seq<LayerView>) -> bool {
    &&& states.len() > 0
    &&& states[0] == LayerView::initial(
        states[0].public_key,
        states[0].secret_key,
        states[0].base_url,
    )
    &&& forall|i: int|
        #![trigger states[i]]
        0 < i < states.len() ==> happens(states[i - 1], states[i])
}

proof fn lemma_envelope(
    id: Seq<char>,
    timestamp: Seq<char>,
    kind: Seq<char>,
    body: Map<Seq<char>, Json>,
)
    ensures
        ({
            let event = crate::events::event_json(id, timestamp, kind, body);
            &&& crate::json::field_of(event, "id"@) == Some(Json::Str(id))
            &&& crate::json::field_of(event, "timestamp"@) == Some(Json::Str(timestamp))
            &&& kind_of(event) == Some(kind)
            &&& crate::json::field_of(event, "body"@) == Some(Json::Object(body))
        }),
{
    reveal_strlit("id");
    assert("id"@.len() == 2);
    reveal_strlit("timestamp");
    assert("timestamp"@.len() == 9);
    reveal_strlit("type");
    assert("type"@.len() == 4);
    reveal_strlit("body");
    assert("body"@.len() == 4);
    assert("type"@[0] != "body"@[0]);
}

proof fn lemma_kinds()
    ensures
        "observation-create"@ != "trace-create"@,
        "observation-update"@ != "trace-create"@,
        "event-create"@ != "trace-create"@,
{
    reveal_strlit("trace-create");
    assert("trace-create"@.len() == 12);
    reveal_strlit("observation-create");
    assert("observation-create"@.len() == 18);
    reveal_strlit("observation-update");
    assert("observation-update"@.len() == 18);
    reveal_strlit("event-create");
    assert("event-create"@.len() == 12);
    assert("event-create"@[0] != "trace-create"@[0]);
}

proof fn lemma_keys()
    ensures
        "traceId"@ != "id"@,
        "name"@ != "id"@,
        "timestamp"@ != "id"@,
        "input"@ != "id"@,
        "metadata"@ != "id"@,
        "tags"@ != "id"@,
        "public"@ != "id"@,
        "type"@ != "id"@,
        "startTime"@ != "id"@,
        "parentObservationId"@ != "id"@,
        "level"@ != "id"@,
        "endTime"@ != "id"@,
        "name"@ != "traceId"@,
        "metadata"@ != "traceId"@,
        "type"@ != "traceId"@,
        "startTime"@ != "traceId"@,
        "parentObservationId"@ != "traceId"@,
        "level"@ != "traceId"@,
        "endTime"@ != "traceId"@,
        "name"@ != "parentObservationId"@,
        "metadata"@ != "parentObservationId"@,
        "level"@ != "parentObservationId"@,
        "metadata"@ != "name"@,
        "level"@ != "name"@,
        "level"@ != "metadata"@,
{
    reveal_strlit("id");
    assert("id"@.len() == 2);
    reveal_strlit("traceId");
    assert("traceId"@.len() == 7);
    reveal_strlit("name");
    assert("name"@.len() == 4);
    reveal_strlit("timestamp");
    assert("timestamp"@.len() == 9);
    reveal_strlit("input");
    assert("input"@.len() == 5);
    reveal_strlit("metadata");
    assert("metadata"@.len() == 8);
    reveal_strlit("tags");
    assert("tags"@.len() == 4);
    reveal_strlit("public");
    assert("public"@.len() == 6);
    reveal_strlit("type");
    assert("type"@.len() == 4);
    reveal_strlit("startTime");
    assert("startTime"@.len() == 9);
    reveal_strlit("parentObservationId");
    assert("parentObservationId"@.len() == 19);
    reveal_strlit("level");
    assert("level"@.len() == 5);
    reveal_strlit("endTime");
    assert("endTime"@.len() == 7);
    assert("endTime"@[0] != "traceId"@[0]);
}

proof fn lemma_trace_create(
    id: Seq<char>,
    timestamp: Seq<char>,
    trace_id: Seq<char>,
    seconds: int,
)
    ensures
        is_event(crate::events::trace_create_json(id, timestamp, trace_id, seconds)),
        trace_of(crate::events::trace_create_json(id, timestamp, trace_id, seconds)) == Some(
            trace_id,
        ),
        kind_of(crate::events::trace_create_json(id, timestamp, trace_id, seconds)) == Some(
            "trace-create"@,
        ),
{
    let event = crate::events::trace_create_json(id, timestamp, trace_id, seconds);
    lemma_envelope(id, timestamp, "trace-create"@, event->Object_0["body"@]->Object_0);
    lemma_keys();
}

proof fn lemma_observation_create(
    id: Seq<char>,
    start_time: Seq<char>,
    observation_id: Seq<char>,
    trace_id: Seq<char>,
    name: Seq<char>,
    parent_observation_id: Option<Seq<char>>,
    metadata: Map<Seq<char>, Json>,
    level: Seq<char>,
)
    ensures
        ({
            let event = crate::events::observation_create_json(
                id,
                start_time,
                observation_id,
                trace_id,
                name,
                parent_observation_id,
                metadata,
                level,
            );
            &&& is_event(event)
            &&& kind_of(event) == Some("observation-create"@)
            &&& trace_of(event) == Some(trace_id)
            &&& told(event, "id"@) == Some(Json::Str(observation_id))
            &&& told(event, "parentObservationId"@) == Some(
                crate::json::optional_text(parent_observation_id),
            )
        }),
{
    let event = crate::events::observation_create_json(
        id,
        start_time,
        observation_id,
        trace_id,
        name,
        parent_observation_id,
        metadata,
        level,
    );
    lemma_envelope(id, start_time, "observation-create"@, event->Object_0["body"@]->Object_0);
    lemma_keys();
    lemma_kinds();
}

proof fn lemma_observation_end(
    id: Seq<char>,
    end_time: Seq<char>,
    observation_id: Seq<char>,
    trace_id: Seq<char>,
)
    ensures
        ({
            let event = crate::events::observation_end_json(id, end_time, observation_id, trace_id);
            &&& is_event(event)
            &&& kind_of(event) == Some("observation-update"@)
            &&& trace_of(event) == Some(trace_id)
            &&& told(event, "id"@) == Some(Json::Str(observation_id))
            &&& told(event, "endTime"@) == Some(Json::Str(end_time))
        }),
{
    let event = crate::events::observation_end_json(id, end_time, observation_id, trace_id);
    lemma_envelope(id, end_time, "observation-update"@, event->Object_0["body"@]->Object_0);
    lemma_keys();
    lemma_kinds();
}

proof fn lemma_observation_record(
    id: Seq<char>,
    timestamp: Seq<char>,
    observation_id: Seq<char>,
    trace_id: Seq<char>,
    metadata: Map<Seq<char>, Json>,
)
    ensures
        ({
            let event = crate::events::observation_record_json(
                id,
                timestamp,
                observation_id,
                trace_id,
                metadata,
            );
            &&& is_event(event)
            &&& kind_of(event) == Some("observation-update"@)
            &&& trace_of(event) == Some(trace_id)
            &&& told(event, "id"@) == Some(Json::Str(observation_id))
            &&& told(event, "metadata"@) == Some(Json::Object(metadata))
        }),
{
    let event = crate::events::observation_record_json(
        id,
        timestamp,
        observation_id,
        trace_id,
        metadata,
    );
    lemma_envelope(id, timestamp, "observation-update"@, event->Object_0["body"@]->Object_0);
    lemma_keys();
    lemma_kinds();
}

proof fn lemma_event_create(
    id: Seq<char>,
    timestamp: Seq<char>,
    trace_id: Seq<char>,
    parent_observation_id: Option<Seq<char>>,
    name: Seq<char>,
    metadata: Map<Seq<char>, Json>,
)
    ensures
        ({
            let event = crate::events::event_create_json(
                id,
                timestamp,
                trace_id,
                parent_observation_id,
                name,
                metadata,
            );
            &&& is_event(event)
            &&& kind_of(event) == Some("event-create"@)
            &&& trace_of(event) == Some(trace_id)
            &&& crate::json::field_of(event, "id"@) == Some(Json::Str(id))
            &&& told(event, "id"@) == Some(Json::Str(id))
            &&& told(event, "parentObservationId"@) == match parent_observation_id {
                Some(parent) => Some(Json::Str(parent)),
                None => None,
            }
            &&& told(event, "name"@) == Some(Json::Str(name))
            &&& told(event, "metadata"@) == Some(Json::Object(metadata))
        }),
{
    let event = crate::events::event_create_json(
        id,
        timestamp,
        trace_id,
        parent_observation_id,
        name,
        metadata,
    );
    lemma_envelope(id, timestamp, "event-create"@, event->Object_0["body"@]->Object_0);
    lemma_keys();
    lemma_kinds();
}

proof fn lemma_pushed(v: LayerView, event: Json)
    requires
        consistent(v),
        is_event(event),
        v.current_trace_id is Some,
        trace_of(event) == v.current_trace_id,
    ensures
        consistent(v.pushed(event)),
{
    let w = v.pushed(event);
    assert forall|i: int| #![trigger w.batch[i]] 0 <= i < w.batch.len() implies is_event(w.batch[i])
        && w.current_trace_id is Some && trace_of(w.batch[i]) == w.current_trace_id by {
        if i < v.batch.len() {
            assert(w.batch[i] == v.batch[i]);
        }
    }
}

/// What the beginning of the trace does.
proof fn lemma_begins(v: LayerView, w: LayerView)
    requires
        begins(v, w),
    ensures
        w.current_trace_id is Some,
        w == (LayerView { batch: w.batch, current_trace_id: w.current_trace_id, ..v }),
        w.batch == v.batch.push(w.batch.last()),
        kind_of(w.batch.last()) == Some("trace-create"@),
        trace_of(w.batch.last()) == w.current_trace_id,
        consistent(v) ==> consistent(w) && v.batch.len() == 0,
{
    let (trace_id, event_id, timestamp, seconds) = choose|
        trace_id: Seq<char>,
        event_id: Seq<char>,
        timestamp: Seq<char>,
        seconds: int,
    |
        w == #[trigger] v.trace_created(trace_id, event_id, timestamp, seconds);
    lemma_trace_create(event_id, timestamp, trace_id, seconds);
    if consistent(v) {
        if v.batch.len() > 0 {
            assert(is_event(v.batch[0]));
        }
        lemma_pushed(LayerView { current_trace_id: Some(trace_id), ..v }, w.batch.last());
    }
}

/// Seeing to it that there is a trace changes nothing, or makes one begin.
proof fn lemma_traces(v: LayerView, w: LayerView)
    requires
        v.traces_to(w),
    ensures
        w.current_trace_id is Some,
        w.batch.len() == v.batch.len() + announcements(v),
        if v.current_trace_id is Some {
            w == v
        } else {
            begins(v, w)
        },
{
    if v.current_trace_id is None {
        let seed = choose|seed: TraceSeed|
            #[trigger] seed.drawn() && w == v.trace_created(
                seed.trace_id,
                seed.event_id,
                seed.moment.text(),
                seed.moment.seconds as int,
            );
        assert(w == v.trace_created(
            seed.trace_id,
            seed.event_id,
            seed.moment.text(),
            seed.moment.seconds as int,
        ));
    }
}

/// What filing an event does that there is.
spec fn adds(v: LayerView, w: LayerView) -> bool {
    &&& v.current_trace_id is Some
    &&& w == (LayerView {
        batch: w.batch,
        active_spans: w.active_spans,
        span_hierarchy: w.span_hierarchy,
        ..v
    })
    &&& w.batch == v.batch.push(w.batch.last())
    &&& is_event(w.batch.last())
    &&& kind_of(w.batch.last()) != Some("trace-create"@)
    &&& trace_of(w.batch.last()) == w.current_trace_id
}

proof fn lemma_adds(v: LayerView, w: LayerView)
    requires
        adds(v, w),
        consistent(v),
    ensures
        consistent(w),
{
    lemma_pushed(v, w.batch.last());
    assert(w.batch == v.pushed(w.batch.last()).batch);
    assert(w.current_trace_id == v.current_trace_id);
}

/// A span's beginning, once there is a trace.
proof fn lemma_opened(v: LayerView, span: NewSpanView, event_id: Seq<char>)
    requires
        v.current_trace_id is Some,
    ensures
        ({
            let w = v.span_opened(span, event_id);
            &&& adds(v, w)
            &&& kind_of(w.batch.last()) == Some("observation-create"@)
            &&& told(w.batch.last(), "id"@) == Some(Json::Str(span.observation_id))
            &&& told(w.batch.last(), "parentObservationId"@) == Some(
                crate::json::optional_text(v.filed_under(span.parent_span)),
            )
        }),
{
    lemma_kinds();
    lemma_observation_create(
        event_id,
        span.start_time,
        span.observation_id,
        v.current_trace_id->0,
        span.name,
        v.filed_under(span.parent_span),
        span.metadata,
        span.level,
    );
}

/// An open span's end, once there is a trace.
proof fn lemma_closed(v: LayerView, span_id: u64, end_time: Seq<char>, event_id: Seq<char>)
    requires
        v.current_trace_id is Some,
        v.observation(span_id) is Some,
    ensures
        ({
            let w = v.span_closed(span_id, end_time, event_id);
            &&& adds(v, w)
            &&& kind_of(w.batch.last()) == Some("observation-update"@)
            &&& told(w.batch.last(), "id"@) == Some(Json::Str(v.observation(span_id)->0))
            &&& told(w.batch.last(), "endTime"@) == Some(Json::Str(end_time))
        }),
{
    lemma_kinds();
    lemma_observation_end(
        event_id,
        end_time,
        v.observation(span_id)->0,
        v.current_trace_id->0,
    );
}

/// Filing adds an event, or changes nothing.
proof fn lemma_filed(v: LayerView, w: LayerView)
    requires
        filed(v, w),
    ensures
        w == v || adds(v, w),
{
    let trace_id = v.current_trace_id->0;
    lemma_kinds();
    if exists|span: NewSpanView, event_id: Seq<char>|
        w == #[trigger] v.span_opened(span, event_id) {
        let (span, event_id) = choose|span: NewSpanView, event_id: Seq<char>|
            w == #[trigger] v.span_opened(span, event_id);
        lemma_opened(v, span, event_id);
    } else if exists|span_id: u64, end_time: Seq<char>, event_id: Seq<char>|
        w == #[trigger] v.span_closed(span_id, end_time, event_id) {
        let (span_id, end_time, event_id) = choose|
            span_id: u64,
            end_time: Seq<char>,
            event_id: Seq<char>,
        |
            w == #[trigger] v.span_closed(span_id, end_time, event_id);
        if v.observation(span_id) is Some {
            lemma_closed(v, span_id, end_time, event_id);
        }
    } else if exists|
        span_id: u64,
        metadata: Map<Seq<char>, Json>,
        event_id: Seq<char>,
        timestamp: Seq<char>,
    |
        w == #[trigger] v.span_recorded(span_id, metadata, event_id, timestamp) {
        let (span_id, metadata, event_id, timestamp) = choose|
            span_id: u64,
            metadata: Map<Seq<char>, Json>,
            event_id: Seq<char>,
            timestamp: Seq<char>,
        |
            w == #[trigger] v.span_recorded(span_id, metadata, event_id, timestamp);
        lemma_observation_record(
            event_id,
            timestamp,
            v.observation(span_id)->0,
            trace_id,
            metadata,
        );
    } else {
        let (span_id, metadata, event_id, timestamp) = choose|
            span_id: Option<u64>,
            metadata: Map<Seq<char>, Json>,
            event_id: Seq<char>,
            timestamp: Seq<char>,
        |
            w == #[trigger] v.event_logged(span_id, metadata, event_id, timestamp);
        lemma_event_create(
            event_id,
            timestamp,
            trace_id,
            v.logged_under(span_id),
            crate::events::event_name_of(metadata),
            metadata,
        );
    }
}

/// The steps of a span's beginning: the trace is seen to, and the span is filed.
proof fn lemma_opens(v: LayerView, span: NewSpanView, w: LayerView) -> (steps: (
    LayerView,
    Seq<char>,
))
    requires
        v.opens_to(span, w),
    ensures
        v.traces_to(steps.0),
        w == steps.0.span_opened(span, steps.1),
{
    choose|traced: LayerView, event_id: Seq<char>| #[trigger]
        v.traces_to(traced) && #[trigger] crate::ids::is_drawn(
            crate::ids::Purpose::Event,
            event_id,
        ) && w == traced.span_opened(
            span,
            event_id,
        )
}

/// The steps of an open span's end: the trace is seen to, and the end is filed.
proof fn lemma_closes(
    v: LayerView,
    span_id: u64,
    end_time: Seq<char>,
    w: LayerView,
) -> (steps: (LayerView, Seq<char>))
    requires
        v.closes_to(span_id, end_time, w),
        v.observation(span_id) is Some,
    ensures
        v.traces_to(steps.0),
        w == steps.0.span_closed(span_id, end_time, steps.1),
{
    choose|traced: LayerView, event_id: Seq<char>| #[trigger]
        v.traces_to(traced) && #[trigger] crate::ids::is_drawn(
            crate::ids::Purpose::Event,
            event_id,
        ) && w == traced.span_closed(
            span_id,
            end_time,
            event_id,
        )
}

/// The steps of a record with fields in an open span: the trace is seen to, and
/// the record is filed.
proof fn lemma_records(
    v: LayerView,
    span_id: u64,
    metadata: Map<Seq<char>, Json>,
    w: LayerView,
) -> (steps: (LayerView, Seq<char>, Seq<char>))
    requires
        v.records_to(span_id, metadata, w),
        v.observation(span_id) is Some,
        !metadata.dom().is_empty(),
    ensures
        v.traces_to(steps.0),
        w == steps.0.span_recorded(span_id, metadata, steps.1, steps.2),
{
    choose|traced: LayerView, event_id: Seq<char>, timestamp: Seq<char>| #[trigger]
        v.traces_to(traced) && #[trigger] crate::ids::is_drawn(
            crate::ids::Purpose::Event,
            event_id,
        ) && #[trigger]
        crate::clock::is_timestamp(timestamp) && w == traced.span_recorded(
            span_id,
            metadata,
            event_id,
            timestamp,
        )
}

/// The steps of what is logged and noticed: the trace is seen to, and it is filed.
proof fn lemma_logs(
    v: LayerView,
    span_id: Option<u64>,
    metadata: Map<Seq<char>, Json>,
    w: LayerView,
) -> (steps: (LayerView, Seq<char>, Seq<char>))
    requires
        v.logs_to(span_id, metadata, w),
        !v.silent(span_id),
    ensures
        v.traces_to(steps.0),
        w == steps.0.event_logged(span_id, metadata, steps.1, steps.2),
{
    choose|traced: LayerView, event_id: Seq<char>, timestamp: Seq<char>| #[trigger]
        v.traces_to(traced) && #[trigger] crate::ids::is_drawn(
            crate::ids::Purpose::Event,
            event_id,
        ) && #[trigger]
        crate::clock::is_timestamp(timestamp) && w == traced.event_logged(
            span_id,
            metadata,
            event_id,
            timestamp,
        )
}

/// What happens is at most two steps: the trace is seen to, and then an event is
/// filed; or it concerns the spans only, or a batch is sent.
proof fn lemma_happens(v: LayerView, w: LayerView) -> (traced: LayerView)
    requires
        happens(v, w),
    ensures
        traced == v || begins(v, traced),
        w == traced || adds(traced, w) || (traced == v && (spans_change(v, w) || exists|count: nat|
            w == #[trigger] v.sent(count))),
{
    if exists|span: NewSpanView| #[trigger] v.opens_to(span, w) {
        let span = choose|span: NewSpanView| #[trigger] v.opens_to(span, w);
        let (traced, event_id) = lemma_opens(v, span, w);
        lemma_traces(v, traced);
        lemma_opened(traced, span, event_id);
        traced
    } else if exists|span_id: u64, end_time: Seq<char>| #[trigger]
        v.closes_to(span_id, end_time, w) {
        let (span_id, end_time) = choose|span_id: u64, end_time: Seq<char>| #[trigger]
            v.closes_to(span_id, end_time, w);
        if v.observation(span_id) is Some {
            let (traced, event_id) = lemma_closes(v, span_id, end_time, w);
            lemma_traces(v, traced);
            assert(filed(traced, w));
            lemma_filed(traced, w);
            traced
        } else {
            v
        }
    } else if exists|span_id: u64, metadata: Map<Seq<char>, Json>| #[trigger]
        v.records_to(span_id, metadata, w) {
        let (span_id, metadata) = choose|span_id: u64, metadata: Map<Seq<char>, Json>| #[trigger]
            v.records_to(span_id, metadata, w);
        if v.observation(span_id) is None || metadata.dom().is_empty() {
            v
        } else {
            let (traced, event_id, timestamp) = lemma_records(v, span_id, metadata, w);
            lemma_traces(v, traced);
            assert(filed(traced, w));
            lemma_filed(traced, w);
            traced
        }
    } else if exists|span_id: Option<u64>, metadata: Map<Seq<char>, Json>| #[trigger]
        v.logs_to(span_id, metadata, w) {
        let (span_id, metadata) = choose|span_id: Option<u64>, metadata: Map<Seq<char>, Json>|
         #[trigger]
            v.logs_to(span_id, metadata, w);
        if v.silent(span_id) {
            v
        } else {
            let (traced, event_id, timestamp) = lemma_logs(v, span_id, metadata, w);
            lemma_traces(v, traced);
            assert(filed(traced, w));
            lemma_filed(traced, w);
            traced
        }
    } else if v.traces_to(w) {
        lemma_traces(v, w);
        w
    } else if begins(v, w) {
        w
    } else {
        if filed(v, w) {
            lemma_filed(v, w);
        }
        v
    }
}

/// A layer as it is made is consistent: nothing waits to be sent.
pub proof fn law_new_layer_is_consistent(
    public_key: Seq<char>,
    secret_key: Seq<char>,
    base_url: Seq<char>,
)
    ensures
        consistent(LayerView::initial(public_key, secret_key, base_url)),
{
}

/// Whatever happens, all that waits to be sent remains well-formed events of the
/// one trace that has begun.
pub proof fn law_consistency_is_kept(v: LayerView, w: LayerView)
    requires
        consistent(v),
        happens(v, w),
    ensures
        consistent(w),
{
    let traced = lemma_happens(v, w);
    if begins(v, traced) {
        lemma_begins(v, traced);
    }
    if adds(traced, w) {
        lemma_adds(traced, w);
    }
}

/// A trace that has begun lasts, whatever happens.
pub proof fn law_trace_lasts(v: LayerView, w: LayerView)
    requires
        happens(v, w),
        v.current_trace_id is Some,
    ensures
        w.current_trace_id == v.current_trace_id,
{
    let traced = lemma_happens(v, w);
}

/// A trace is announced before anything that belongs to it: whatever makes it
/// begin leaves its announcement as the first event to send.
pub proof fn law_trace_is_announced_first(v: LayerView, w: LayerView)
    requires
        consistent(v),
        happens(v, w),
        v.current_trace_id is None,
        w.current_trace_id is Some,
    ensures
        w.batch.len() > 0,
        kind_of(w.batch[0]) == Some("trace-create"@),
        trace_of(w.batch[0]) == w.current_trace_id,
{
    let traced = lemma_happens(v, w);
    assert(begins(v, traced));
    lemma_begins(v, traced);
    assert(w.batch[0] == traced.batch[0]);
}

/// A trace that has begun is not announced again: nothing that happens adds an
/// announcement to the events that wait.
pub proof fn law_announcement_is_not_repeated(v: LayerView, w: LayerView)
    requires
        happens(v, w),
        v.current_trace_id is Some,
    ensures
        forall|i: int|
            #![trigger w.batch[i]]
            v.batch.len() <= i < w.batch.len() ==> kind_of(w.batch[i]) != Some("trace-create"@),
{
    let traced = lemma_happens(v, w);
}

/// Events leave only when a batch has been sent, oldest first: whatever else
/// happens, those that wait go on waiting, in the same order and before any new
/// ones.
pub proof fn law_events_wait_until_sent(v: LayerView, w: LayerView)
    requires
        happens(v, w),
    ensures
        v.batch.is_prefix_of(w.batch) || exists|count: nat| w == #[trigger] v.sent(count),
{
    let traced = lemma_happens(v, w);
    if begins(v, traced) {
        lemma_begins(v, traced);
    }
}

/// Nothing that happens changes whom a layer sends to, nor as whom.
pub proof fn law_settings_stay(v: LayerView, w: LayerView)
    requires
        happens(v, w),
    ensures
        w.public_key == v.public_key,
        w.secret_key == v.secret_key,
        w.base_url == v.base_url,
{
    let traced = lemma_happens(v, w);
    if begins(v, traced) {
        lemma_begins(v, traced);
    }
}

/// In every state of every run, all that waits to be sent is well-formed events
/// of the one trace that has begun.
pub proof fn law_run_is_consistent(states: Seq<LayerView>, i: int)
    requires
        is_run(states),
        0 <= i < states.len(),
    ensures
        consistent(states[i]),
    decreases i,
{
    if i > 0 {
        law_run_is_consistent(states, i - 1);
        law_consistency_is_kept(states[i - 1], states[i]);
    }
}

/// A run has one trace at most: from the state on in which it begins, every
/// state has the same.
pub proof fn law_run_has_one_trace(states: Seq<LayerView>, i: int, j: int)
    requires
        is_run(states),
        0 <= i <= j < states.len(),
        states[i].current_trace_id is Some,
    ensures
        states[j].current_trace_id == states[i].current_trace_id,
    decreases j - i,
{
    if i < j {
        law_run_has_one_trace(states, i, j - 1);
        law_trace_lasts(states[j - 1], states[j]);
    }
}

/// In every state of every run, the trace is announced once at most among the
/// events that wait to be sent, and then before all others.
pub proof fn law_run_announces_trace_once(states: Seq<LayerView>, i: int)
    requires
        is_run(states),
        0 <= i < states.len(),
    ensures
        announced_once(states[i]),
    decreases i,
{
    if i > 0 {
        let v = states[i - 1];
        let w = states[i];
        law_run_announces_trace_once(states, i - 1);
        law_run_is_consistent(states, i - 1);
        let traced = lemma_happens(v, w);
        if begins(v, traced) {
            lemma_begins(v, traced);
        }
        assert forall|j: int|
            #![trigger w.batch[j]]
            0 <= j < w.batch.len() && kind_of(w.batch[j]) == Some("trace-create"@) implies j
            == 0 by {
            if j < v.batch.len() {
                assert(w.batch[j] == v.batch[j]);
            }
        }
    }
}

/// A span that has begun is open, and is announced by the last event to send,
/// under its own observation and within the trace.
pub proof fn law_begun_span_is_open(v: LayerView, span: NewSpanView, w: LayerView)
    requires
        v.opens_to(span, w),
    ensures
        w.observation(span.span_id) == Some(span.observation_id),
        forall|other: u64|
            other != span.span_id ==> #[trigger] w.observation(other) == v.observation(other),
        w.batch.len() == v.batch.len() + announcements(v) + 1,
        kind_of(w.batch.last()) == Some("observation-create"@),
        told(w.batch.last(), "id"@) == Some(Json::Str(span.observation_id)),
        w.current_trace_id is Some,
        trace_of(w.batch.last()) == w.current_trace_id,
{
    let (traced, event_id) = lemma_opens(v, span, w);
    lemma_traces(v, traced);
    lemma_opened(traced, span, event_id);
}

/// A span that begins inside another one is filed under the observation of the
/// span around that one, as long as it is open; and under none otherwise.
pub proof fn law_span_is_filed_under_outer_span(v: LayerView, span: NewSpanView, w: LayerView)
    requires
        v.opens_to(span, w),
    ensures
        told(w.batch.last(), "parentObservationId"@) == Some(
            match span.parent_span {
                Some(parent) => if v.span_hierarchy.contains_key(parent)
                    && v.active_spans.contains_key(v.span_hierarchy[parent]) {
                    Json::Str(v.active_spans[v.span_hierarchy[parent]].1)
                } else {
                    Json::Null
                },
                None => Json::Null,
            },
        ),
{
    let (traced, event_id) = lemma_opens(v, span, w);
    lemma_traces(v, traced);
    lemma_opened(traced, span, event_id);
}

/// A span that has ended is not open, and no other span is concerned. If it was
/// open, its end is announced by the last event to send, with the time, under its
/// observation and within the trace.
pub proof fn law_ended_span_is_not_open(
    v: LayerView,
    span_id: u64,
    end_time: Seq<char>,
    w: LayerView,
)
    requires
        v.closes_to(span_id, end_time, w),
    ensures
        w.observation(span_id) is None,
        forall|other: u64|
            other != span_id ==> #[trigger] w.observation(other) == v.observation(other),
        w.span_hierarchy == v.span_hierarchy,
        w.current_observation_id == v.current_observation_id,
        v.observation(span_id) is Some ==> {
            &&& w.batch.len() == v.batch.len() + announcements(v) + 1
            &&& kind_of(w.batch.last()) == Some("observation-update"@)
            &&& told(w.batch.last(), "id"@) == Some(Json::Str(v.observation(span_id)->0))
            &&& told(w.batch.last(), "endTime"@) == Some(Json::Str(end_time))
            &&& w.current_trace_id is Some
            &&& trace_of(w.batch.last()) == w.current_trace_id
        },
{
    if v.observation(span_id) is Some {
        let (traced, event_id) = lemma_closes(v, span_id, end_time, w);
        lemma_traces(v, traced);
        lemma_closed(traced, span_id, end_time, event_id);
    }
}

/// The end of a span undoes its beginning: the other spans that were open before
/// are open after, and the run is where it was. The last two events announce the
/// beginning and the end, of the same observation and within the same trace. Which
/// span encloses which is remembered.
pub proof fn law_end_undoes_beginning(
    v: LayerView,
    span: NewSpanView,
    w: LayerView,
    end_time: Seq<char>,
    x: LayerView,
)
    requires
        v.opens_to(span, w),
        w.closes_to(span.span_id, end_time, x),
    ensures
        x.active_spans == v.active_spans.remove(span.span_id),
        x.span_hierarchy == w.span_hierarchy,
        x.current_observation_id == v.current_observation_id,
        x.current_trace_id == w.current_trace_id,
        x.batch.len() == v.batch.len() + announcements(v) + 2,
        ({
            let beginning = x.batch[x.batch.len() - 2];
            let end = x.batch.last();
            &&& x.batch == w.batch.push(end)
            &&& kind_of(beginning) == Some("observation-create"@)
            &&& kind_of(end) == Some("observation-update"@)
            &&& told(beginning, "id"@) == Some(Json::Str(span.observation_id))
            &&& told(end, "id"@) == Some(Json::Str(span.observation_id))
            &&& told(end, "endTime"@) == Some(Json::Str(end_time))
            &&& trace_of(beginning) == x.current_trace_id
            &&& trace_of(end) == x.current_trace_id
        }),
{
    let (traced, event_id) = lemma_opens(v, span, w);
    lemma_traces(v, traced);
    lemma_opened(traced, span, event_id);
    let (traced_again, end_event_id) = lemma_closes(w, span.span_id, end_time, x);
    lemma_closed(traced_again, span.span_id, end_time, end_event_id);
    assert(x.active_spans =~= v.active_spans.remove(span.span_id));
    assert(x.batch[x.batch.len() - 2] == w.batch.last());
}

/// What happens in a span that is not open leaves no mark: its end, a record,
/// something logged inside, or its being entered.
pub proof fn law_closed_span_leaves_no_mark(
    v: LayerView,
    span_id: u64,
    end_time: Seq<char>,
    metadata: Map<Seq<char>, Json>,
    w: LayerView,
)
    requires
        v.observation(span_id) is None,
    ensures
        v.closes_to(span_id, end_time, w) ==> w == v,
        v.records_to(span_id, metadata, w) ==> w == v,
        v.logs_to(Some(span_id), metadata, w) ==> w == v,
        v.span_entered(span_id) == v,
{
}

/// The fields that an open span records are announced in full under its
/// observation, within the trace.
pub proof fn law_record_is_announced(
    v: LayerView,
    span_id: u64,
    metadata: Map<Seq<char>, Json>,
    w: LayerView,
)
    requires
        v.records_to(span_id, metadata, w),
        v.observation(span_id) is Some,
        !metadata.dom().is_empty(),
    ensures
        w.batch.len() == v.batch.len() + announcements(v) + 1,
        kind_of(w.batch.last()) == Some("observation-update"@),
        told(w.batch.last(), "id"@) == Some(Json::Str(v.observation(span_id)->0)),
        told(w.batch.last(), "metadata"@) == Some(Json::Object(metadata)),
        w.current_trace_id is Some,
        trace_of(w.batch.last()) == w.current_trace_id,
{
    let (traced, event_id, timestamp) = lemma_records(v, span_id, metadata, w);
    lemma_traces(v, traced);
    let observation_id = v.observation(span_id)->0;
    lemma_observation_record(
        event_id,
        timestamp,
        observation_id,
        traced.current_trace_id->0,
        metadata,
    );
}

/// What is logged is announced in full, by its name and under one identifier,
/// within the trace: under the observation of the span that it was logged in, or
/// under none outside of spans.
pub proof fn law_logged_event_is_announced(
    v: LayerView,
    span_id: Option<u64>,
    metadata: Map<Seq<char>, Json>,
    w: LayerView,
)
    requires
        v.logs_to(span_id, metadata, w),
        match span_id {
            Some(id) => v.observation(id) is Some,
            None => true,
        },
    ensures
        w.batch.len() == v.batch.len() + announcements(v) + 1,
        kind_of(w.batch.last()) == Some("event-create"@),
        told(w.batch.last(), "id"@) == crate::json::field_of(w.batch.last(), "id"@),
        told(w.batch.last(), "parentObservationId"@) == match span_id {
            Some(id) => Some(Json::Str(v.observation(id)->0)),
            None => None,
        },
        told(w.batch.last(), "name"@) == Some(Json::Str(crate::events::event_name_of(metadata))),
        told(w.batch.last(), "metadata"@) == Some(Json::Object(metadata)),
        w.current_trace_id is Some,
        trace_of(w.batch.last()) == w.current_trace_id,
{
    let (traced, event_id, timestamp) = lemma_logs(v, span_id, metadata, w);
    lemma_traces(v, traced);
    let name = crate::events::event_name_of(metadata);
    let trace_id = traced.current_trace_id->0;
    lemma_event_create(
        event_id,
        timestamp,
        trace_id,
        traced.logged_under(span_id),
        name,
        metadata,
    );
}

/// Where the run is after it left a span does not depend on what it had entered.
pub proof fn law_leaving_forgets_entering(v: LayerView, span_id: u64, parent_span: Option<u64>)
    ensures
        v.span_entered(span_id).span_exited(parent_span) == v.span_exited(parent_span),
{
}

/// A batch that did not arrive, or of which an event was refused, is sent again:
/// all that waited goes on waiting.
pub proof fn law_refused_batch_is_sent_again(
    v: LayerView,
    count: nat,
    reply: crate::ingestion::BatchReply,
    sdk_version: Seq<char>,
)
    requires
        reply is Failed || reply.refused().len() > 0,
    ensures
        v.replied(count, reply) == v,
        crate::ingestion::payload_json(v.replied(count, reply).batch, sdk_version)
            == crate::ingestion::payload_json(v.batch, sdk_version),
{
}

/// A batch to which an answer came that refuses no event is not sent again: if it
/// carried all that waited in `v`, and `w` is the state when the answer comes, then
/// what stays is what was added since, and nothing else is forgotten.
pub proof fn law_accepted_batch_is_done_with(
    v: LayerView,
    w: LayerView,
    reply: crate::ingestion::BatchReply,
)
    requires
        v.batch.is_prefix_of(w.batch),
        !(reply is Failed),
        reply.refused().len() == 0,
    ensures
        w.batch == v.batch + w.replied(v.batch.len(), reply).batch,
        w.replied(v.batch.len(), reply) == (LayerView {
            batch: w.replied(v.batch.len(), reply).batch,
            ..w
        }),
        w.batch == v.batch ==> w.replied(v.batch.len(), reply).batch.len() == 0,
{
    assert(w.batch =~= v.batch + w.replied(v.batch.len(), reply).batch);
}

/// In a run, events leave only with a batch that carried them: if a batch is made
/// in one state, and no event leaves until its reply comes in a later one, then
/// what leaves with the reply is all that the batch carried, or nothing.
pub proof fn law_events_leave_with_their_batch(
    states: Seq<LayerView>,
    i: int,
    j: int,
    reply: crate::ingestion::BatchReply,
)
    requires
        is_run(states),
        0 <= i <= j < states.len(),
        forall|k: int|
            #![trigger states[k]]
            i < k <= j ==> states[k - 1].batch.len() <= states[k].batch.len(),
    ensures
        states[i].batch.is_prefix_of(states[j].batch),
        states[j].batch == if reply.accepts() {
            states[i].batch + states[j].replied(states[i].batch.len(), reply).batch
        } else {
            states[j].replied(states[i].batch.len(), reply).batch
        },
    decreases j - i,
{
    if i < j {
        law_events_leave_with_their_batch(states, i, j - 1, reply);
        let v = states[j - 1];
        let w = states[j];
        law_events_wait_until_sent(v, w);
        if !v.batch.is_prefix_of(w.batch) {
            let count = choose|count: nat| w == #[trigger] v.sent(count);
            assert(w.batch =~= v.batch);
        }
    }
    if reply.accepts() {
        law_accepted_batch_is_done_with(states[i], states[j], reply);
    }
}

/// Something logged goes by its message, whatever else it records.
pub proof fn law_message_names_event(metadata: Map<Seq<char>, Json>, message: Seq<char>)
    ensures
        crate::events::event_name_of(metadata.insert("message"@, Json::Str(message))) == message,
{
}

/// Of the values that are recorded for a field, the last one counts.
pub proof fn law_last_record_counts(
    metadata: Map<Seq<char>, Json>,
    field: Seq<char>,
    earlier: Json,
    later: Json,
)
    ensures
        metadata.insert(field, earlier).insert(field, later) == metadata.insert(field, later),
{
    assert(metadata.insert(field, earlier).insert(field, later) =~= metadata.insert(field, later));
}

/// Whoever accepts every answer that is offered keeps the profile as it is.
pub proof fn law_accepting_offers_keeps_profile(
    profile: ProfileView,
    default_provider: Seq<char>,
    models: RecommendedModels,
)
    ensures
        profile == (ProfileView {
            provider: crate::configure::offered_provider(Some(profile), default_provider),
            processor: crate::configure::offered_processor(Some(profile), models),
            accelerator: crate::configure::offered_accelerator(Some(profile), models),
        }),
{
}

} // verus!
