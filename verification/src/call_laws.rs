//! What a call of each operation hands back and does to a layer, told of the layer
//! before the call and after it.
use serde_json::Value;
use vstd::prelude::*;

use crate::configure::{CheckRequest, Profile};
use crate::document_laws::{body, holds, is_envelope};
use crate::ingestion::{BatchOutcome, BatchReply, SendError};
use crate::json::{fields_of, json_of, Json};
use crate::layer::{LangfuseLayer, NewSpan, SpanContext};
use crate::step_laws::{
    adds_events, before, has_drawn_id, has_present_time, same_sender, sees_to_trace, tells_of_end,
    tells_of_log, tells_of_record, tells_of_span,
};
use crate::visitor::JsonVisitor;

verus! {

/// Asking for the trace hands back the one that there is and changes nothing, or
/// begins one now, under an identifier drawn for it, and announces it.
pub proof fn law_asking_for_trace(layer: &mut LangfuseLayer, trace_id: String)
    requires
        call_ensures(LangfuseLayer::create_trace_if_needed, (layer,), trace_id),
    ensures
        final(layer)@.current_trace_id == Some(trace_id@),
        old(layer)@.current_trace_id is Some ==> final(layer)@ == old(layer)@,
        sees_to_trace(old(layer)@, final(layer)@),
        adds_events(old(layer)@, final(layer)@, before(old(layer)@)),
        same_sender(old(layer)@, final(layer)@),
        final(layer)@.current_observation_id == old(layer)@.current_observation_id,
        final(layer)@.active_spans == old(layer)@.active_spans,
        final(layer)@.span_hierarchy == old(layer)@.span_hierarchy,
{
    crate::step_laws::law_trace_begins_now_if_needed(old(layer)@, final(layer)@);
}

/// Beginning a trace announces it with what it is begun with, and changes nothing but
/// that there is a trace.
pub proof fn law_beginning_trace(
    layer: &mut LangfuseLayer,
    trace_id: String,
    event_id: &str,
    timestamp: &str,
    seconds: i64,
)
    requires
        call_ensures(
            LangfuseLayer::create_trace,
            (layer, trace_id, event_id, timestamp, seconds),
            (),
        ),
    ensures
        same_sender(old(layer)@, final(layer)@),
        final(layer)@.current_trace_id == Some(trace_id@),
        final(layer)@.current_observation_id == old(layer)@.current_observation_id,
        final(layer)@.active_spans == old(layer)@.active_spans,
        final(layer)@.span_hierarchy == old(layer)@.span_hierarchy,
        adds_events(old(layer)@, final(layer)@, 1),
        is_envelope(final(layer)@.batch.last(), event_id@, timestamp@, "trace-create"@),
        holds(body(final(layer)@.batch.last()), "id"@, Json::Str(trace_id@)),
        holds(
            body(final(layer)@.batch.last()),
            "name"@,
            Json::Str(crate::text::decimal(seconds as int)),
        ),
        holds(body(final(layer)@.batch.last()), "timestamp"@, Json::Str(timestamp@)),
{
    crate::step_laws::law_begun_trace_is_announced(
        old(layer)@,
        trace_id@,
        event_id@,
        timestamp@,
        seconds as int,
    );
}

/// Filing a span's beginning tells of it and counts it as open.
pub proof fn law_filing_span(layer: &mut LangfuseLayer, span: NewSpan, event_id: &str)
    requires
        old(layer)@.current_trace_id is Some,
        call_ensures(LangfuseLayer::open_span, (layer, span, event_id), ()),
    ensures
        same_sender(old(layer)@, final(layer)@),
        final(layer)@.current_trace_id == old(layer)@.current_trace_id,
        final(layer)@.current_observation_id == old(layer)@.current_observation_id,
        final(layer)@.active_spans == old(layer)@.active_spans.insert(
            span.span_id,
            (span.langfuse_id@, span.observation_id@),
        ),
        span.parent_span matches Some(parent) ==> final(layer)@.span_hierarchy
            == old(layer)@.span_hierarchy.insert(span.span_id, parent),
        span.parent_span is None ==> final(layer)@.span_hierarchy == old(layer)@.span_hierarchy,
        adds_events(old(layer)@, final(layer)@, 1),
        holds(final(layer)@.batch.last(), "id"@, Json::Str(event_id@)),
        tells_of_span(
            final(layer)@.batch.last(),
            span@,
            old(layer)@.current_trace_id->0,
            old(layer)@,
        ),
        holds(body(final(layer)@.batch.last()), "name"@, Json::Str(span.name@)),
        holds(body(final(layer)@.batch.last()), "startTime"@, Json::Str(span.start_time@)),
        holds(body(final(layer)@.batch.last()), "level"@, Json::Str(span.level@)),
        holds(body(final(layer)@.batch.last()), "metadata"@, Json::Object(fields_of(span.metadata))),
{
    crate::step_laws::law_filed_span_is_told(old(layer)@, span@, event_id@);
}

/// A span's beginning is told with its own name, start, level and recorded fields,
/// under an identifier drawn for it, in a trace that begins if it must; and the span
/// counts as open.
pub proof fn law_telling_of_new_span(layer: &mut LangfuseLayer, span: NewSpan)
    requires
        call_ensures(LangfuseLayer::on_new_span, (layer, span), ()),
    ensures
        same_sender(old(layer)@, final(layer)@),
        sees_to_trace(old(layer)@, final(layer)@),
        final(layer)@.current_observation_id == old(layer)@.current_observation_id,
        final(layer)@.active_spans == old(layer)@.active_spans.insert(
            span.span_id,
            (span.langfuse_id@, span.observation_id@),
        ),
        span.parent_span matches Some(parent) ==> final(layer)@.span_hierarchy
            == old(layer)@.span_hierarchy.insert(span.span_id, parent),
        span.parent_span is None ==> final(layer)@.span_hierarchy == old(layer)@.span_hierarchy,
        adds_events(old(layer)@, final(layer)@, before(old(layer)@) + 1),
        has_drawn_id(final(layer)@.batch.last()),
        tells_of_span(
            final(layer)@.batch.last(),
            span@,
            final(layer)@.current_trace_id->0,
            old(layer)@,
        ),
        holds(body(final(layer)@.batch.last()), "id"@, Json::Str(span.observation_id@)),
        holds(body(final(layer)@.batch.last()), "name"@, Json::Str(span.name@)),
        holds(body(final(layer)@.batch.last()), "startTime"@, Json::Str(span.start_time@)),
        holds(body(final(layer)@.batch.last()), "level"@, Json::Str(span.level@)),
        holds(body(final(layer)@.batch.last()), "metadata"@, Json::Object(fields_of(span.metadata))),
{
    crate::step_laws::law_span_begins(old(layer)@, span@, final(layer)@);
}

/// Filing the end of an open span tells of it and counts the span as open no longer;
/// filing the end of another changes nothing.
pub proof fn law_filing_end(
    layer: &mut LangfuseLayer,
    span_id: u64,
    end_time: &str,
    event_id: &str,
)
    requires
        old(layer)@.current_trace_id is Some,
        call_ensures(LangfuseLayer::close_span, (layer, span_id, end_time, event_id), ()),
    ensures
        !old(layer)@.active_spans.contains_key(span_id) ==> final(layer)@ == old(layer)@,
        old(layer)@.active_spans.contains_key(span_id) ==> {
            &&& same_sender(old(layer)@, final(layer)@)
            &&& final(layer)@.current_trace_id == old(layer)@.current_trace_id
            &&& final(layer)@.current_observation_id == old(layer)@.current_observation_id
            &&& final(layer)@.active_spans == old(layer)@.active_spans.remove(span_id)
            &&& final(layer)@.span_hierarchy == old(layer)@.span_hierarchy
            &&& adds_events(old(layer)@, final(layer)@, 1)
            &&& holds(final(layer)@.batch.last(), "id"@, Json::Str(event_id@))
            &&& tells_of_end(
                final(layer)@.batch.last(),
                old(layer)@.active_spans[span_id].1,
                end_time@,
                old(layer)@.current_trace_id->0,
            )
        },
{
    crate::step_laws::law_filed_end_is_told(old(layer)@, span_id, end_time@, event_id@);
}

/// The end of an open span is told at its own time, under an identifier drawn for it,
/// and the span counts as open no longer; the end of another changes nothing.
pub proof fn law_telling_of_end(layer: &mut LangfuseLayer, span_id: u64, end_time: &str)
    requires
        call_ensures(LangfuseLayer::on_close, (layer, span_id, end_time), ()),
    ensures
        !old(layer)@.active_spans.contains_key(span_id) ==> final(layer)@ == old(layer)@,
        old(layer)@.active_spans.contains_key(span_id) ==> {
            &&& same_sender(old(layer)@, final(layer)@)
            &&& sees_to_trace(old(layer)@, final(layer)@)
            &&& final(layer)@.current_observation_id == old(layer)@.current_observation_id
            &&& final(layer)@.active_spans == old(layer)@.active_spans.remove(span_id)
            &&& final(layer)@.span_hierarchy == old(layer)@.span_hierarchy
            &&& adds_events(old(layer)@, final(layer)@, before(old(layer)@) + 1)
            &&& has_drawn_id(final(layer)@.batch.last())
            &&& tells_of_end(
                final(layer)@.batch.last(),
                old(layer)@.active_spans[span_id].1,
                end_time@,
                final(layer)@.current_trace_id->0,
            )
        },
{
    crate::step_laws::law_span_ends(old(layer)@, span_id, end_time@, final(layer)@);
}

/// Filing a record with fields of an open span tells of all of them; filing any other
/// changes nothing.
pub proof fn law_filing_record(
    layer: &mut LangfuseLayer,
    span_id: u64,
    metadata: serde_json::Map<String, Value>,
    event_id: &str,
    timestamp: &str,
    key: Seq<char>,
)
    requires
        old(layer)@.current_trace_id is Some,
        call_ensures(
            LangfuseLayer::record_span,
            (layer, span_id, metadata, event_id, timestamp),
            (),
        ),
    ensures
        !old(layer)@.active_spans.contains_key(span_id) ==> final(layer)@ == old(layer)@,
        fields_of(metadata) == Map::<Seq<char>, Json>::empty() ==> final(layer)@ == old(layer)@,
        old(layer)@.active_spans.contains_key(span_id) && fields_of(metadata).contains_key(key)
            ==> {
            &&& same_sender(old(layer)@, final(layer)@)
            &&& final(layer)@.current_trace_id == old(layer)@.current_trace_id
            &&& final(layer)@.current_observation_id == old(layer)@.current_observation_id
            &&& final(layer)@.active_spans == old(layer)@.active_spans
            &&& final(layer)@.span_hierarchy == old(layer)@.span_hierarchy
            &&& adds_events(old(layer)@, final(layer)@, 1)
            &&& holds(final(layer)@.batch.last(), "id"@, Json::Str(event_id@))
            &&& holds(final(layer)@.batch.last(), "timestamp"@, Json::Str(timestamp@))
            &&& tells_of_record(
                final(layer)@.batch.last(),
                old(layer)@.active_spans[span_id].1,
                fields_of(metadata),
                old(layer)@.current_trace_id->0,
            )
        },
{
    crate::step_laws::law_filed_record_is_told(
        old(layer)@,
        span_id,
        fields_of(metadata),
        event_id@,
        timestamp@,
        key,
    );
}

/// A record with fields of an open span is told in full, at the present time and under
/// an identifier drawn for it; any other changes nothing.
pub proof fn law_telling_of_record(
    layer: &mut LangfuseLayer,
    span_id: u64,
    metadata: serde_json::Map<String, Value>,
    key: Seq<char>,
)
    requires
        call_ensures(LangfuseLayer::on_record, (layer, span_id, metadata), ()),
    ensures
        !old(layer)@.active_spans.contains_key(span_id) ==> final(layer)@ == old(layer)@,
        fields_of(metadata) == Map::<Seq<char>, Json>::empty() ==> final(layer)@ == old(layer)@,
        old(layer)@.active_spans.contains_key(span_id) && fields_of(metadata).contains_key(key)
            ==> {
            &&& same_sender(old(layer)@, final(layer)@)
            &&& sees_to_trace(old(layer)@, final(layer)@)
            &&& final(layer)@.current_observation_id == old(layer)@.current_observation_id
            &&& final(layer)@.active_spans == old(layer)@.active_spans
            &&& final(layer)@.span_hierarchy == old(layer)@.span_hierarchy
            &&& adds_events(old(layer)@, final(layer)@, before(old(layer)@) + 1)
            &&& has_drawn_id(final(layer)@.batch.last())
            &&& has_present_time(final(layer)@.batch.last())
            &&& tells_of_record(
                final(layer)@.batch.last(),
                old(layer)@.active_spans[span_id].1,
                fields_of(metadata),
                final(layer)@.current_trace_id->0,
            )
        },
{
    crate::step_laws::law_span_records(
        old(layer)@,
        span_id,
        fields_of(metadata),
        final(layer)@,
        key,
    );
}

/// Filing what was logged inside an open span, or outside of any, tells of it; what
/// was logged inside another span changes nothing.
pub proof fn law_filing_log(
    layer: &mut LangfuseLayer,
    span_id: Option<u64>,
    metadata: serde_json::Map<String, Value>,
    event_id: &str,
    timestamp: &str,
)
    requires
        old(layer)@.current_trace_id is Some,
        call_ensures(
            LangfuseLayer::log_event,
            (layer, span_id, metadata, event_id, timestamp),
            (),
        ),
    ensures
        span_id is Some && !old(layer)@.active_spans.contains_key(span_id->0) ==> final(layer)@
            == old(layer)@,
        span_id is None || old(layer)@.active_spans.contains_key(span_id->0) ==> {
            &&& same_sender(old(layer)@, final(layer)@)
            &&& final(layer)@.current_trace_id == old(layer)@.current_trace_id
            &&& final(layer)@.current_observation_id == old(layer)@.current_observation_id
            &&& final(layer)@.active_spans == old(layer)@.active_spans
            &&& final(layer)@.span_hierarchy == old(layer)@.span_hierarchy
            &&& adds_events(old(layer)@, final(layer)@, 1)
            &&& holds(final(layer)@.batch.last(), "id"@, Json::Str(event_id@))
            &&& holds(final(layer)@.batch.last(), "timestamp"@, Json::Str(timestamp@))
            &&& tells_of_log(
                final(layer)@.batch.last(),
                span_id,
                fields_of(metadata),
                old(layer)@.current_trace_id->0,
                old(layer)@,
            )
        },
{
    crate::step_laws::law_filed_log_is_told(
        old(layer)@,
        span_id,
        fields_of(metadata),
        event_id@,
        timestamp@,
    );
}

/// What is logged while the run is in an open span, or in none, is told with all that
/// it recorded, at the present time and under an identifier drawn for it; what is
/// logged in another span changes nothing.
pub proof fn law_telling_of_log(
    layer: &mut LangfuseLayer,
    current: Option<SpanContext>,
    metadata: serde_json::Map<String, Value>,
)
    requires
        call_ensures(LangfuseLayer::on_event, (layer, current, metadata), ()),
    ensures
        current is Some && !old(layer)@.active_spans.contains_key(current->0.id) ==> final(layer)@
            == old(layer)@,
        current is None || old(layer)@.active_spans.contains_key(current->0.id) ==> {
            &&& same_sender(old(layer)@, final(layer)@)
            &&& sees_to_trace(old(layer)@, final(layer)@)
            &&& final(layer)@.current_observation_id == old(layer)@.current_observation_id
            &&& final(layer)@.active_spans == old(layer)@.active_spans
            &&& final(layer)@.span_hierarchy == old(layer)@.span_hierarchy
            &&& adds_events(old(layer)@, final(layer)@, before(old(layer)@) + 1)
            &&& has_drawn_id(final(layer)@.batch.last())
            &&& has_present_time(final(layer)@.batch.last())
            &&& (current is None ==> tells_of_log(
                final(layer)@.batch.last(),
                None,
                fields_of(metadata),
                final(layer)@.current_trace_id->0,
                old(layer)@,
            ))
            &&& (current is Some ==> tells_of_log(
                final(layer)@.batch.last(),
                Some(current->0.id),
                fields_of(metadata),
                final(layer)@.current_trace_id->0,
                old(layer)@,
            ))
        },
{
    crate::step_laws::law_event_is_logged(
        old(layer)@,
        crate::layer::span_of(current),
        fields_of(metadata),
        final(layer)@,
    );
}

/// Entering an open span puts the run in its observation; entering another changes
/// nothing.
pub proof fn law_entering(layer: &mut LangfuseLayer, span_id: u64)
    requires
        call_ensures(LangfuseLayer::on_enter, (layer, span_id), ()),
    ensures
        old(layer)@.active_spans.contains_key(span_id) ==> final(layer)@ == (
        crate::model::LayerView {
            current_observation_id: Some(old(layer)@.active_spans[span_id].1),
            ..old(layer)@
        }),
        !old(layer)@.active_spans.contains_key(span_id) ==> final(layer)@ == old(layer)@,
{
}

/// Leaving a span puts the run in the observation of the span around the one that it
/// is in, if that one is open, and in none otherwise.
pub proof fn law_leaving(layer: &mut LangfuseLayer, current: Option<SpanContext>)
    requires
        call_ensures(LangfuseLayer::on_exit, (layer, current), ()),
    ensures
        current is Some && current->0.parent is Some && old(layer)@.active_spans.contains_key(
            current->0.parent->0,
        ) ==> final(layer)@ == (crate::model::LayerView {
            current_observation_id: Some(old(layer)@.active_spans[current->0.parent->0].1),
            ..old(layer)@
        }),
        !(current is Some && current->0.parent is Some && old(layer)@.active_spans.contains_key(
            current->0.parent->0,
        )) ==> final(layer)@ == (crate::model::LayerView {
            current_observation_id: None,
            ..old(layer)@
        }),
{
}

/// What is noted of a layer can be read back, and nothing else changes by noting it.
pub proof fn law_noted_observation_is_read_back(
    layer: &mut LangfuseLayer,
    observation_id: Option<String>,
)
    requires
        call_ensures(LangfuseLayer::set_current_observation_id, (layer, observation_id), ()),
    ensures
        observation_id is None ==> final(layer)@ == (crate::model::LayerView {
            current_observation_id: None,
            ..old(layer)@
        }),
        observation_id is Some ==> final(layer)@ == (crate::model::LayerView {
            current_observation_id: Some(observation_id->0@),
            ..old(layer)@
        }),
{
}

/// Counting a span as open keeps both of its identifiers in their places.
pub proof fn law_counted_span_is_open(
    layer: &mut LangfuseLayer,
    span_id: u64,
    langfuse_id: String,
    observation_id: String,
)
    requires
        call_ensures(
            LangfuseLayer::add_active_span,
            (layer, span_id, langfuse_id, observation_id),
            (),
        ),
    ensures
        final(layer)@ == (crate::model::LayerView {
            active_spans: old(layer)@.active_spans.insert(
                span_id,
                (langfuse_id@, observation_id@),
            ),
            ..old(layer)@
        }),
{
}

/// A span that is removed is open no longer, and its identifiers are handed back if it
/// was.
pub proof fn law_removed_span_is_handed_back(
    layer: &mut LangfuseLayer,
    span_id: u64,
    ids: Option<(String, String)>,
)
    requires
        call_ensures(LangfuseLayer::remove_active_span, (layer, span_id), ids),
    ensures
        final(layer)@ == (crate::model::LayerView {
            active_spans: old(layer)@.active_spans.remove(span_id),
            ..old(layer)@
        }),
        ids is Some <==> old(layer)@.active_spans.contains_key(span_id),
        ids is Some ==> old(layer)@.active_spans[span_id].0 == (ids->0).0@,
        ids is Some ==> old(layer)@.active_spans[span_id].1 == (ids->0).1@,
{
}

/// The identifiers of an open span, and only of an open one, can be read.
pub proof fn law_open_span_is_known(
    layer: &LangfuseLayer,
    span_id: u64,
    ids: Option<(String, String)>,
)
    requires
        call_ensures(LangfuseLayer::is_active_span, (layer, span_id), ids),
    ensures
        ids is Some <==> layer@.active_spans.contains_key(span_id),
        ids is Some ==> layer@.active_spans[span_id].0 == (ids->0).0@,
        ids is Some ==> layer@.active_spans[span_id].1 == (ids->0).1@,
{
}

/// The observation around a span is that of the span noted as its parent, as long as
/// that one is open.
pub proof fn law_observation_around_is_the_parents(
    layer: &LangfuseLayer,
    span_id: u64,
    observation_id: Option<String>,
)
    requires
        call_ensures(LangfuseLayer::get_parent_observation_id, (layer, span_id), observation_id),
    ensures
        observation_id is Some <==> layer@.span_hierarchy.contains_key(span_id)
            && layer@.active_spans.contains_key(layer@.span_hierarchy[span_id]),
        observation_id is Some ==> observation_id->0@
            == layer@.active_spans[layer@.span_hierarchy[span_id]].1,
{
}

/// Noting a span's parent notes that and changes nothing else.
pub proof fn law_noted_parent_is_kept(
    layer: &mut LangfuseLayer,
    child_span: u64,
    parent_span: u64,
)
    requires
        call_ensures(LangfuseLayer::add_span_to_hierarchy, (layer, child_span, parent_span), ()),
    ensures
        final(layer)@ == (crate::model::LayerView {
            span_hierarchy: old(layer)@.span_hierarchy.insert(child_span, parent_span),
            ..old(layer)@
        }),
{
}

/// The trace, the observation and the waiting events of a layer are read as they are.
pub proof fn law_layer_is_read_as_it_is(
    layer: &LangfuseLayer,
    trace_id: &Option<String>,
    observation_id: &Option<String>,
    batch: &Vec<Value>,
    i: int,
)
    requires
        call_ensures(LangfuseLayer::current_trace_id, (layer,), trace_id),
        call_ensures(LangfuseLayer::current_observation_id, (layer,), observation_id),
        call_ensures(LangfuseLayer::batch, (layer,), batch),
    ensures
        trace_id is Some <==> layer@.current_trace_id is Some,
        trace_id is Some ==> trace_id->0@ == layer@.current_trace_id->0,
        observation_id is Some <==> layer@.current_observation_id is Some,
        observation_id is Some ==> observation_id->0@ == layer@.current_observation_id->0,
        batch@.len() == layer@.batch.len(),
        0 <= i < batch@.len() ==> json_of(batch@[i]) == layer@.batch[i],
{
}

/// A reply in which any event is refused, and a batch that did not arrive, leave every
/// waiting event; any other answer takes those that the batch carried and leaves the
/// later ones in their order. Each refused event is reported, and nothing else is.
pub proof fn law_taking_in_reply(
    layer: &mut LangfuseLayer,
    sent: usize,
    reply: BatchReply,
    outcome: BatchOutcome,
)
    requires
        call_ensures(LangfuseLayer::finish_batch, (layer, sent, reply), outcome),
    ensures
        reply matches BatchReply::Answered(response) ==> {
            &&& outcome.report@.len() == response.errors@.len()
            &&& forall|i: int|
                #![trigger outcome.report@[i]]
                0 <= i < response.errors@.len() ==> outcome.report@[i]@
                    == crate::ingestion::error_line_of(response.errors@[i])
            &&& (response.errors@.len() > 0 ==> final(layer)@ == old(layer)@ && outcome.result
                == Err::<(), SendError>(SendError::Rejected))
            &&& (response.errors@.len() == 0 ==> outcome.result is Ok)
        },
        reply matches BatchReply::Failed(reason) ==> {
            &&& final(layer)@ == old(layer)@
            &&& outcome.report@.len() == 0
            &&& outcome.result matches Err(SendError::Transport(told)) && told@ == reason@
        },
        reply is Unreadable ==> outcome.report@.len() == 0 && outcome.result is Ok,
        outcome.result is Ok && sent <= old(layer)@.batch.len() ==> final(layer)@ == (
        crate::model::LayerView {
            batch: old(layer)@.batch.subrange(sent as int, old(layer)@.batch.len() as int),
            ..old(layer)@
        }),
        outcome.result is Ok && sent > old(layer)@.batch.len() ==> final(layer)@ == (
        crate::model::LayerView { batch: Seq::empty(), ..old(layer)@ }),
{
    if outcome.result is Ok {
        if sent <= old(layer)@.batch.len() {
            assert(final(layer)@.batch =~= old(layer)@.batch.subrange(
                sent as int,
                old(layer)@.batch.len() as int,
            ));
        } else {
            assert(final(layer)@.batch =~= Seq::empty());
        }
    }
}

/// A recorded text is kept under its field, and the other fields are as before.
pub proof fn law_recorded_text_is_kept(
    visitor: &mut JsonVisitor,
    field: &str,
    value: &str,
    other: Seq<char>,
)
    requires
        call_ensures(JsonVisitor::record_str, (visitor, field, value), ()) || call_ensures(
            JsonVisitor::record_debug,
            (visitor, field, value),
            (),
        ),
    ensures
        final(visitor)@.contains_key(field@),
        final(visitor)@[field@] == Json::Str(value@),
        other != field@ ==> final(visitor)@.contains_key(other) == old(visitor)@.contains_key(
            other,
        ),
        other != field@ && old(visitor)@.contains_key(other) ==> final(visitor)@[other] == old(
            visitor,
        )@[other],
{
}

/// A recorded signed integer is kept with its sign.
pub proof fn law_recorded_signed_integer_is_kept(
    visitor: &mut JsonVisitor,
    field: &str,
    value: i64,
)
    requires
        call_ensures(JsonVisitor::record_i64, (visitor, field, value), ()),
    ensures
        final(visitor)@ == old(visitor)@.insert(field@, Json::Number(value as int)),
{
}

/// A recorded unsigned integer is kept whole.
pub proof fn law_recorded_unsigned_integer_is_kept(
    visitor: &mut JsonVisitor,
    field: &str,
    value: u64,
)
    requires
        call_ensures(JsonVisitor::record_u64, (visitor, field, value), ()),
    ensures
        final(visitor)@ == old(visitor)@.insert(field@, Json::Number(value as int)),
{
}

/// A recorded boolean is kept under its field, and the other fields are as before.
pub proof fn law_recorded_boolean_is_kept(
    visitor: &mut JsonVisitor,
    field: &str,
    value: bool,
)
    requires
        call_ensures(JsonVisitor::record_bool, (visitor, field, value), ()),
    ensures
        final(visitor)@ == old(visitor)@.insert(field@, Json::Bool(value)),
{
}

/// A new visitor has no field, and what a visitor has gathered is handed over whole.
pub proof fn law_gathered_fields_are_handed_over(
    fresh: JsonVisitor,
    visitor: JsonVisitor,
    metadata: serde_json::Map<String, Value>,
    key: Seq<char>,
)
    requires
        call_ensures(JsonVisitor::new, (), fresh),
        call_ensures(JsonVisitor::into_metadata, (visitor,), metadata),
    ensures
        !fresh@.contains_key(key),
        fields_of(metadata).contains_key(key) == visitor@.contains_key(key),
        visitor@.contains_key(key) ==> fields_of(metadata)[key] == visitor@[key],
{
}

/// What is told of a profile is whether there is one under the name.
pub proof fn law_existing_profile_is_announced(
    existing: Option<&Profile>,
    announcement: &'static str,
)
    requires
        call_ensures(crate::configure::get_existing_profile, (existing,), announcement),
    ensures
        existing is Some ==> announcement@
            == "Profile already exists. We are going to overwriting the existing profile..."@,
        existing is None ==> announcement@ == "We are creating a new profile..."@,
{
}

/// A profile is tried out with its own provider and model, by asking an agent called
/// Goose for a welcome.
pub proof fn law_profile_is_tried_out_by_a_welcome(
    provider_name: &str,
    processor: &str,
    request: CheckRequest,
)
    requires
        call_ensures(
            crate::configure::check_configuration,
            (provider_name, processor),
            request,
        ),
    ensures
        request.provider_name@ == provider_name@,
        request.model@ == processor@,
        request.system@
            == "You are an AI agent called Goose. You use tools of connected systems to solve problems."@,
        request.message@
            == "Please give a nice welcome messsage (one sentence) and let them know they are all set to use this agent "@,
{
}

} // verus!
