//! What the documents for Langfuse tell, field by field, and how texts and numbers
//! are written in them.
use serde_json::Value;
use vstd::prelude::*;

use crate::ingestion::{BatchOutcome, BatchReply, IngestionError, SendError};
use crate::json::Json;

verus! {

/// Whether a JSON object has a field under a key, with the given value.
pub open spec fn holds(value: Json, key: Seq<char>, field: Json) -> bool {
    &&& value is Object
    &&& value->Object_0.contains_key(key)
    &&& value->Object_0[key] == field
}

/// Whether a JSON value is an object with fields under these keys and no others.
pub open spec fn has_keys(value: Json, keys: Set<Seq<char>>) -> bool {
    &&& value is Object
    &&& value->Object_0.dom() == keys
}

/// What an event tells.
pub open spec fn body(event: Json) -> Json {
    event->Object_0["body"@]
}

/// Whether a value is an event with an identifier, a time and a kind, which tells
/// something and has nothing more to it.
pub open spec fn is_envelope(
    event: Json,
    id: Seq<char>,
    timestamp: Seq<char>,
    kind: Seq<char>,
) -> bool {
    &&& has_keys(event, set!["id"@, "timestamp"@, "type"@, "body"@])
    &&& holds(event, "id"@, Json::Str(id))
    &&& holds(event, "timestamp"@, Json::Str(timestamp))
    &&& holds(event, "type"@, Json::Str(kind))
    &&& body(event) is Object
}

/// Lengths, and letters where lengths agree, that tell the keys apart.
pub(crate) proof fn lemma_key_shapes()
    ensures
        "id"@.len() == 2,
        "sdk"@.len() == 3,
        "name"@.len() == 4,
        "name"@[0] == 'n',
        "type"@.len() == 4,
        "type"@[0] == 't',
        "type"@[1] == 'y',
        "tags"@.len() == 4,
        "tags"@[0] == 't',
        "tags"@[1] == 'a',
        "body"@.len() == 4,
        "body"@[0] == 'b',
        "input"@.len() == 5,
        "input"@[0] == 'i',
        "level"@.len() == 5,
        "level"@[0] == 'l',
        "batch"@.len() == 5,
        "batch"@[0] == 'b',
        "public"@.len() == 6,
        "traceId"@.len() == 7,
        "traceId"@[0] == 't',
        "endTime"@.len() == 7,
        "endTime"@[0] == 'e',
        "metadata"@.len() == 8,
        "timestamp"@.len() == 9,
        "timestamp"@[0] == 't',
        "startTime"@.len() == 9,
        "startTime"@[0] == 's',
        "sdk_version"@.len() == 11,
        "parentObservationId"@.len() == 19,
{
    reveal_strlit("id");
    reveal_strlit("sdk");
    reveal_strlit("name");
    reveal_strlit("type");
    reveal_strlit("tags");
    reveal_strlit("body");
    reveal_strlit("input");
    reveal_strlit("level");
    reveal_strlit("batch");
    reveal_strlit("public");
    reveal_strlit("traceId");
    reveal_strlit("endTime");
    reveal_strlit("metadata");
    reveal_strlit("timestamp");
    reveal_strlit("startTime");
    reveal_strlit("sdk_version");
    reveal_strlit("parentObservationId");
}

proof fn lemma_envelope_fields(
    id: Seq<char>,
    timestamp: Seq<char>,
    kind: Seq<char>,
    fields: Map<Seq<char>, Json>,
)
    ensures
        ({
            let event = crate::events::event_json(id, timestamp, kind, fields);
            &&& is_envelope(event, id, timestamp, kind)
            &&& body(event) == Json::Object(fields)
        }),
{
    lemma_key_shapes();
    let event = crate::events::event_json(id, timestamp, kind, fields);
    assert(event->Object_0.dom() =~= set!["id"@, "timestamp"@, "type"@, "body"@]);
}

/// The event that announces a trace tells the trace's identifier, the second in
/// which it began as its name, and the time, and leaves the rest empty.
pub proof fn law_trace_announcement_tells(
    id: Seq<char>,
    timestamp: Seq<char>,
    trace_id: Seq<char>,
    seconds: int,
)
    ensures
        ({
            let event = crate::events::trace_create_json(id, timestamp, trace_id, seconds);
            &&& is_envelope(event, id, timestamp, "trace-create"@)
            &&& has_keys(
                body(event),
                set!["id"@, "name"@, "timestamp"@, "input"@, "metadata"@, "tags"@, "public"@],
            )
            &&& holds(body(event), "id"@, Json::Str(trace_id))
            &&& holds(body(event), "name"@, Json::Str(crate::text::decimal(seconds)))
            &&& holds(body(event), "timestamp"@, Json::Str(timestamp))
            &&& holds(body(event), "input"@, Json::Object(Map::empty()))
            &&& holds(body(event), "metadata"@, Json::Object(Map::empty()))
            &&& holds(body(event), "tags"@, Json::Array(Seq::empty()))
            &&& holds(body(event), "public"@, Json::Bool(false))
        }),
{
    lemma_key_shapes();
    let event = crate::events::trace_create_json(id, timestamp, trace_id, seconds);
    let fields = event->Object_0["body"@]->Object_0;
    lemma_envelope_fields(id, timestamp, "trace-create"@, fields);
    assert(fields.dom() =~= set![
        "id"@,
        "name"@,
        "timestamp"@,
        "input"@,
        "metadata"@,
        "tags"@,
        "public"@,
    ]);
}

/// The event that announces an observation tells the span's own name, start, level
/// and recorded fields, its observation and trace, and the observation that it is
/// filed under, or null.
pub proof fn law_observation_announcement_tells(
    id: Seq<char>,
    start_time: Seq<char>,
    observation_id: Seq<char>,
    trace_id: Seq<char>,
    name: Seq<char>,
    parent_observation_id: Option<Seq<char>>,
    metadata: Map<Seq<char>, Json>,
    level: Seq<char>,
)
    ensures
        ({
            let event = crate::events::observation_create_json(
                id,
                start_time,
                observation_id,
                trace_id,
                name,
                parent_observation_id,
                metadata,
                level,
            );
            &&& is_envelope(event, id, start_time, "observation-create"@)
            &&& has_keys(
                body(event),
                set![
                    "id"@,
                    "traceId"@,
                    "type"@,
                    "name"@,
                    "startTime"@,
                    "parentObservationId"@,
                    "metadata"@,
                    "level"@,
                ],
            )
            &&& holds(body(event), "id"@, Json::Str(observation_id))
            &&& holds(body(event), "traceId"@, Json::Str(trace_id))
            &&& holds(body(event), "type"@, Json::Str("SPAN"@))
            &&& holds(body(event), "name"@, Json::Str(name))
            &&& holds(body(event), "startTime"@, Json::Str(start_time))
            &&& (parent_observation_id is Some ==> holds(
                body(event),
                "parentObservationId"@,
                Json::Str(parent_observation_id->0),
            ))
            &&& (parent_observation_id is None ==> holds(
                body(event),
                "parentObservationId"@,
                Json::Null,
            ))
            &&& holds(body(event), "metadata"@, Json::Object(metadata))
            &&& holds(body(event), "level"@, Json::Str(level))
        }),
{
    lemma_key_shapes();
    let event = crate::events::observation_create_json(
        id,
        start_time,
        observation_id,
        trace_id,
        name,
        parent_observation_id,
        metadata,
        level,
    );
    let fields = event->Object_0["body"@]->Object_0;
    lemma_envelope_fields(id, start_time, "observation-create"@, fields);
    assert(fields.dom() =~= set![
        "id"@,
        "traceId"@,
        "type"@,
        "name"@,
        "startTime"@,
        "parentObservationId"@,
        "metadata"@,
        "level"@,
    ]);
}

/// The event that tells of an observation's end gives the time of the end, and
/// changes nothing else of the observation.
pub proof fn law_observation_end_tells(
    id: Seq<char>,
    end_time: Seq<char>,
    observation_id: Seq<char>,
    trace_id: Seq<char>,
)
    ensures
        ({
            let event = crate::events::observation_end_json(id, end_time, observation_id, trace_id);
            &&& is_envelope(event, id, end_time, "observation-update"@)
            &&& has_keys(body(event), set!["id"@, "traceId"@, "endTime"@])
            &&& holds(body(event), "id"@, Json::Str(observation_id))
            &&& holds(body(event), "traceId"@, Json::Str(trace_id))
            &&& holds(body(event), "endTime"@, Json::Str(end_time))
        }),
{
    lemma_key_shapes();
    let event = crate::events::observation_end_json(id, end_time, observation_id, trace_id);
    let fields = event->Object_0["body"@]->Object_0;
    lemma_envelope_fields(id, end_time, "observation-update"@, fields);
    assert(fields.dom() =~= set!["id"@, "traceId"@, "endTime"@]);
}

/// The event that adds recorded fields to an observation gives them all, and
/// changes nothing else of the observation.
pub proof fn law_observation_record_tells(
    id: Seq<char>,
    timestamp: Seq<char>,
    observation_id: Seq<char>,
    trace_id: Seq<char>,
    metadata: Map<Seq<char>, Json>,
)
    ensures
        ({
            let event = crate::events::observation_record_json(
                id,
                timestamp,
                observation_id,
                trace_id,
                metadata,
            );
            &&& is_envelope(event, id, timestamp, "observation-update"@)
            &&& has_keys(body(event), set!["id"@, "traceId"@, "metadata"@])
            &&& holds(body(event), "id"@, Json::Str(observation_id))
            &&& holds(body(event), "traceId"@, Json::Str(trace_id))
            &&& holds(body(event), "metadata"@, Json::Object(metadata))
        }),
{
    lemma_key_shapes();
    let event = crate::events::observation_record_json(
        id,
        timestamp,
        observation_id,
        trace_id,
        metadata,
    );
    let fields = event->Object_0["body"@]->Object_0;
    lemma_envelope_fields(id, timestamp, "observation-update"@, fields);
    assert(fields.dom() =~= set!["id"@, "traceId"@, "metadata"@]);
}

/// The event for something logged tells its name, its recorded fields and its
/// trace, goes by one identifier, and names an observation exactly if it belongs
/// to one.
pub proof fn law_logged_event_tells(
    id: Seq<char>,
    timestamp: Seq<char>,
    trace_id: Seq<char>,
    parent_observation_id: Option<Seq<char>>,
    name: Seq<char>,
    metadata: Map<Seq<char>, Json>,
)
    ensures
        ({
            let event = crate::events::event_create_json(
                id,
                timestamp,
                trace_id,
                parent_observation_id,
                name,
                metadata,
            );
            &&& is_envelope(event, id, timestamp, "event-create"@)
            &&& (parent_observation_id is Some ==> has_keys(
                body(event),
                set!["id"@, "traceId"@, "parentObservationId"@, "name"@, "metadata"@],
            ))
            &&& (parent_observation_id is Some ==> holds(
                body(event),
                "parentObservationId"@,
                Json::Str(parent_observation_id->0),
            ))
            &&& (parent_observation_id is None ==> has_keys(
                body(event),
                set!["id"@, "traceId"@, "name"@, "metadata"@],
            ))
            &&& holds(body(event), "id"@, Json::Str(id))
            &&& holds(body(event), "traceId"@, Json::Str(trace_id))
            &&& holds(body(event), "name"@, Json::Str(name))
            &&& holds(body(event), "metadata"@, Json::Object(metadata))
        }),
{
    lemma_key_shapes();
    let event = crate::events::event_create_json(
        id,
        timestamp,
        trace_id,
        parent_observation_id,
        name,
        metadata,
    );
    let fields = event->Object_0["body"@]->Object_0;
    lemma_envelope_fields(id, timestamp, "event-create"@, fields);
    if parent_observation_id is Some {
        assert(fields.dom() =~= set![
            "id"@,
            "traceId"@,
            "parentObservationId"@,
            "name"@,
            "metadata"@,
        ]);
    } else {
        assert(fields.dom() =~= set!["id"@, "traceId"@, "name"@, "metadata"@]);
    }
}

/// Something logged goes by the text that it recorded as its message, and without
/// one it is an unnamed event.
pub proof fn law_event_goes_by_its_message(metadata: Map<Seq<char>, Json>, message: Seq<char>)
    ensures
        metadata.contains_key("message"@) && metadata["message"@] == Json::Str(message)
            ==> crate::events::event_name_of(metadata) == message,
        !metadata.contains_key("message"@) ==> crate::events::event_name_of(metadata)
            == "unnamed event"@,
        metadata.contains_key("message"@) && !(metadata["message"@] is Str)
            ==> crate::events::event_name_of(metadata) == "unnamed event"@,
{
}

/// The document that carries a batch holds the events of the batch, all of them and
/// in their order, and says who sends it.
pub proof fn law_payload_tells(batch: Seq<Json>, sdk_version: Seq<char>)
    ensures
        ({
            let payload = crate::ingestion::payload_json(batch, sdk_version);
            &&& has_keys(payload, set!["batch"@, "metadata"@])
            &&& holds(payload, "batch"@, Json::Array(batch))
            &&& has_keys(payload->Object_0["metadata"@], set!["sdk"@, "sdk_version"@])
            &&& holds(payload->Object_0["metadata"@], "sdk"@, Json::Str("rust-tracing"@))
            &&& holds(payload->Object_0["metadata"@], "sdk_version"@, Json::Str(sdk_version))
        }),
{
    lemma_key_shapes();
    let payload = crate::ingestion::payload_json(batch, sdk_version);
    assert(payload->Object_0.dom() =~= set!["batch"@, "metadata"@]);
    assert(payload->Object_0["metadata"@]->Object_0.dom() =~= set!["sdk"@, "sdk_version"@]);
}

/// Several trees are seen one for one, in their order.
pub proof fn law_trees_are_seen_in_order(values: Seq<Value>, i: int)
    requires
        0 <= i < values.len(),
    ensures
        crate::json::jsons_of(values).len() == values.len(),
        crate::json::jsons_of(values)[i] == crate::json::json_of(values[i]),
{
}

/// An absent text is null, and a present one is itself.
pub proof fn law_absent_text_is_null(text: Seq<char>)
    ensures
        crate::json::optional_text(None) == Json::Null,
        crate::json::optional_text(Some(text)) == Json::Str(text),
{
}

/// An optional text is absent or has the characters of the text.
pub proof fn law_optional_text_is_seen(text: String)
    ensures
        crate::text::optional_view(None) == None::<Seq<char>>,
        crate::text::optional_view(Some(text)) == Some(text@),
{
}

/// A whole number is written in decimal: below ten as one digit, above as the
/// number of its tens followed by its units, and below zero after a minus sign.
pub proof fn law_decimal_is_positional(n: int)
    requires
        n >= 0,
    ensures
        n < 10 ==> crate::text::decimal(n).len() == 1 && crate::text::decimal(n)[0] as int == '0' as int
            + n,
        n >= 10 ==> crate::text::decimal(n).len() == crate::text::decimal(n / 10).len() + 1,
        n >= 10 ==> crate::text::decimal(n).drop_last() == crate::text::decimal(n / 10),
        n >= 10 ==> crate::text::decimal(n).last() as int == '0' as int + n % 10,
        n > 0 ==> crate::text::decimal(-n).len() == crate::text::decimal(n).len() + 1,
        n > 0 ==> crate::text::decimal(-n)[0] == '-',
        n > 0 ==> crate::text::decimal(-n).drop_first() == crate::text::decimal(n),
{
    if n >= 10 {
        assert(crate::text::decimal(n).drop_last() =~= crate::text::decimal(n / 10));
    }
    if n > 0 {
        assert(crate::text::decimal(-n).drop_first() =~= crate::text::decimal(n));
    }
}

/// The line for a refused event gives its status, its message or that there is
/// none, and what else was said of it or that nothing was.
pub proof fn law_refusal_is_reported_in_full(error: &IngestionError, line: String)
    requires
        call_ensures(crate::ingestion::error_line, (error,), line),
    ensures
        error.message is Some && error.error is Some ==> line@ == "Langfuse ingestion error: "@
            + crate::text::decimal(error.status as int) + " - "@ + error.message->0@ + " - "@
            + ("Some("@ + crate::json::debug_of(crate::json::json_of(error.error->0)) + ")"@),
        error.message is Some && error.error is None ==> line@ == "Langfuse ingestion error: "@
            + crate::text::decimal(error.status as int) + " - "@ + error.message->0@ + " - "@
            + "None"@,
        error.message is None && error.error is Some ==> line@ == "Langfuse ingestion error: "@
            + crate::text::decimal(error.status as int) + " - "@ + "No message"@ + " - "@ + (
        "Some("@ + crate::json::debug_of(crate::json::json_of(error.error->0)) + ")"@),
        error.message is None && error.error is None ==> line@ == "Langfuse ingestion error: "@
            + crate::text::decimal(error.status as int) + " - "@ + "No message"@ + " - "@
            + "None"@,
{
}

/// Refused events are reported one line each, in their order.
pub proof fn law_every_refusal_is_reported(
    errors: &Vec<IngestionError>,
    lines: Vec<String>,
    i: int,
)
    requires
        call_ensures(crate::ingestion::error_lines, (errors,), lines),
        0 <= i < errors@.len(),
    ensures
        lines@.len() == errors@.len(),
        lines@[i]@ == crate::ingestion::error_line_of(errors@[i]),
{
}

/// A batch counts as sent exactly if an answer came in which no event is refused,
/// whatever else is in it; an answer that cannot be read refuses none. Every
/// refused event is reported, and nothing else is.
pub proof fn law_judgement_rests_on_refusals(reply: BatchReply, outcome: BatchOutcome)
    requires
        call_ensures(crate::ingestion::judge, (reply,), outcome),
    ensures
        reply matches BatchReply::Failed(reason) ==> {
            &&& outcome.report@.len() == 0
            &&& outcome.result matches Err(SendError::Transport(told)) && told@ == reason@
        },
        reply is Unreadable ==> outcome.report@.len() == 0 && outcome.result is Ok,
        reply matches BatchReply::Answered(response) ==> {
            &&& outcome.report@.len() == response.errors@.len()
            &&& forall|i: int|
                #![trigger outcome.report@[i]]
                0 <= i < response.errors@.len() ==> outcome.report@[i]@
                    == crate::ingestion::error_line_of(response.errors@[i])
            &&& (response.errors@.len() == 0 ==> outcome.result is Ok)
            &&& (response.errors@.len() > 0 ==> outcome.result == Err::<(), SendError>(
                SendError::Rejected,
            ))
        },
{
}

/// What a reply does to the waiting events: an answer in which any event is refused
/// leaves them all, whatever the answer says of the others, and so does a batch
/// that did not arrive; any other answer takes those that the batch carried, oldest
/// first, and leaves the later ones. Nothing else changes.
pub proof fn law_reply_takes_only_accepted_events(
    v: crate::model::LayerView,
    count: nat,
    reply: BatchReply,
    i: int,
)
    requires
        count <= v.batch.len(),
    ensures
        ({
            let w = v.replied(count, reply);
            &&& reply matches BatchReply::Answered(response) ==> {
                &&& response.errors@.len() > 0 ==> !reply.accepts() && reply.refused()
                    == response.errors@ && w == v
                &&& response.errors@.len() == 0 ==> reply.accepts() && reply.refused().len() == 0
                    && w.batch.len() == v.batch.len() - count
            }
            &&& reply is Failed ==> w == v
            &&& reply is Unreadable ==> w.batch.len() == v.batch.len() - count
            &&& (0 <= i < w.batch.len() && w.batch.len() < v.batch.len() ==> w.batch[i]
                == v.batch[i + count])
            &&& w.public_key == v.public_key
            &&& w.secret_key == v.secret_key
            &&& w.base_url == v.base_url
            &&& w.current_trace_id == v.current_trace_id
            &&& w.current_observation_id == v.current_observation_id
            &&& w.active_spans == v.active_spans
            &&& w.span_hierarchy == v.span_hierarchy
        }),
{
}

/// A reply takes no more events than wait.
pub proof fn law_reply_takes_no_more_than_waits(
    v: crate::model::LayerView,
    count: nat,
    reply: BatchReply,
)
    requires
        count > v.batch.len(),
    ensures
        v.replied(count, reply) == v.replied(v.batch.len(), reply),
{
}

/// A failure is told with its own reason: the one that came with it, or that
/// Langfuse refused events.
pub proof fn law_failure_is_told_with_its_reason(error: &SendError, line: String)
    requires
        call_ensures(SendError::failure_line, (error,), line),
    ensures
        error matches SendError::Transport(reason) ==> line@
            == "Failed to send batch to Langfuse: "@ + reason@,
        error is Rejected ==> line@ == "Failed to send batch to Langfuse: "@
            + "Langfuse ingestion contained errors"@,
{
}

} // verus!
