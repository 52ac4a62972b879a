//! The events of Langfuse's ingestion interface.
use serde_json::Value;
use vstd::prelude::*;

use crate::json::{
    array_value, as_text, bool_value, empty_fields, fields_of, get_field, insert_field, insert_text,
    json_of, object_value, optional_text_value, Json,
};
use crate::text::append_decimal;

verus! {

/// The name of an event that carries no message.
pub const UNNAMED_EVENT: &'static str = "unnamed event";

/// An event: its own identifier and time, its kind, and what it tells.
pub open spec fn event_json(
    id: Seq<char>,
    timestamp: Seq<char>,
    kind: Seq<char>,
    body: Map<Seq<char>, Json>,
) -> Json {
    Json::Object(
        map![
            "id"@ => Json::Str(id),
            "timestamp"@ => Json::Str(timestamp),
            "type"@ => Json::Str(kind),
            "body"@ => Json::Object(body),
        ],
    )
}

/// The event that announces a trace. The trace is named by the second in which
/// it began.
pub open spec fn trace_create_json(
    id: Seq<char>,
    timestamp: Seq<char>,
    trace_id: Seq<char>,
    seconds: int,
) -> Json {
    event_json(
        id,
        timestamp,
        "trace-create"@,
        map![
            "id"@ => Json::Str(trace_id),
            "name"@ => Json::Str(crate::text::decimal(seconds)),
            "timestamp"@ => Json::Str(timestamp),
            "input"@ => Json::Object(Map::empty()),
            "metadata"@ => Json::Object(Map::empty()),
            "tags"@ => Json::Array(Seq::empty()),
            "public"@ => Json::Bool(false),
        ],
    )
}

/// The event that announces an observation: a span that has begun.
pub open spec fn observation_create_json(
    id: Seq<char>,
    start_time: Seq<char>,
    observation_id: Seq<char>,
    trace_id: Seq<char>,
    name: Seq<char>,
    parent_observation_id: Option<Seq<char>>,
    metadata: Map<Seq<char>, Json>,
    level: Seq<char>,
) -> Json {
    event_json(
        id,
        start_time,
        "observation-create"@,
        map![
            "id"@ => Json::Str(observation_id),
            "traceId"@ => Json::Str(trace_id),
            "type"@ => Json::Str("SPAN"@),
            "name"@ => Json::Str(name),
            "startTime"@ => Json::Str(start_time),
            "parentObservationId"@ => crate::json::optional_text(parent_observation_id),
            "metadata"@ => Json::Object(metadata),
            "level"@ => Json::Str(level),
        ],
    )
}

/// The event that tells when an observation ended.
pub open spec fn observation_end_json(
    id: Seq<char>,
    end_time: Seq<char>,
    observation_id: Seq<char>,
    trace_id: Seq<char>,
) -> Json {
    event_json(
        id,
        end_time,
        "observation-update"@,
        map![
            "id"@ => Json::Str(observation_id),
            "traceId"@ => Json::Str(trace_id),
            "endTime"@ => Json::Str(end_time),
        ],
    )
}

/// The event that adds recorded fields to an observation.
pub open spec fn observation_record_json(
    id: Seq<char>,
    timestamp: Seq<char>,
    observation_id: Seq<char>,
    trace_id: Seq<char>,
    metadata: Map<Seq<char>, Json>,
) -> Json {
    event_json(
        id,
        timestamp,
        "observation-update"@,
        map![
            "id"@ => Json::Str(observation_id),
            "traceId"@ => Json::Str(trace_id),
            "metadata"@ => Json::Object(metadata),
        ],
    )
}

/// The event for something logged, under an observation or directly under the
/// trace. It goes by the same identifier inside and outside.
pub open spec fn event_create_json(
    id: Seq<char>,
    timestamp: Seq<char>,
    trace_id: Seq<char>,
    parent_observation_id: Option<Seq<char>>,
    name: Seq<char>,
    metadata: Map<Seq<char>, Json>,
) -> Json {
    let ids = map!["id"@ => Json::Str(id), "traceId"@ => Json::Str(trace_id)];
    let place = match parent_observation_id {
        Some(parent) => ids.insert("parentObservationId"@, Json::Str(parent)),
        None => ids,
    };
    event_json(
        id,
        timestamp,
        "event-create"@,
        place.insert("name"@, Json::Str(name)).insert("metadata"@, Json::Object(metadata)),
    )
}

/// The name of something logged: its message, where that is a text.
pub open spec fn event_name_of(metadata: Map<Seq<char>, Json>) -> Seq<char> {
    if metadata.contains_key("message"@) && metadata["message"@] is Str {
        metadata["message"@]->Str_0
    } else {
        UNNAMED_EVENT@
    }
}

/// Puts an event together.
fn event(
    id: &str,
    timestamp: &str,
    kind: &str,
    body: serde_json::Map<String, Value>,
) -> (value: Value)
    ensures
        json_of(value) == event_json(id@, timestamp@, kind@, fields_of(body)),
{
    let mut fields = empty_fields();
    insert_text(&mut fields, "id", id);
    insert_text(&mut fields, "timestamp", timestamp);
    insert_text(&mut fields, "type", kind);
    insert_field(&mut fields, "body".to_owned(), object_value(body));
    object_value(fields)
}

/// The event that announces a trace.
pub fn trace_create(id: &str, timestamp: &str, trace_id: &str, seconds: i64) -> (value: Value)
    ensures
        json_of(value) == trace_create_json(id@, timestamp@, trace_id@, seconds as int),
{
    let mut name = String::new();
    append_decimal(&mut name, seconds);
    proof {
        assert(name@ =~= crate::text::decimal(seconds as int));
    }
    let tags: Vec<Value> = Vec::new();
    proof {
        assert(crate::json::jsons_of(tags@) =~= Seq::<Json>::empty());
    }
    let mut body = empty_fields();
    insert_text(&mut body, "id", trace_id);
    insert_text(&mut body, "name", name.as_str());
    insert_text(&mut body, "timestamp", timestamp);
    insert_field(&mut body, "input".to_owned(), object_value(empty_fields()));
    insert_field(&mut body, "metadata".to_owned(), object_value(empty_fields()));
    insert_field(&mut body, "tags".to_owned(), array_value(tags));
    insert_field(&mut body, "public".to_owned(), bool_value(false));
    event(id, timestamp, "trace-create", body)
}

/// The event that announces an observation.
pub fn observation_create(
    id: &str,
    start_time: &str,
    observation_id: &str,
    trace_id: &str,
    name: &str,
    parent_observation_id: &Option<String>,
    metadata: serde_json::Map<String, Value>,
    level: &str,
) -> (value: Value)
    ensures
        json_of(value) == observation_create_json(
            id@,
            start_time@,
            observation_id@,
            trace_id@,
            name@,
            crate::text::optional_view(*parent_observation_id),
            fields_of(metadata),
            level@,
        ),
{
    let mut body = empty_fields();
    insert_text(&mut body, "id", observation_id);
    insert_text(&mut body, "traceId", trace_id);
    insert_text(&mut body, "type", "SPAN");
    insert_text(&mut body, "name", name);
    insert_text(&mut body, "startTime", start_time);
    insert_field(
        &mut body,
        "parentObservationId".to_owned(),
        optional_text_value(parent_observation_id),
    );
    insert_field(&mut body, "metadata".to_owned(), object_value(metadata));
    insert_text(&mut body, "level", level);
    event(id, start_time, "observation-create", body)
}

/// The event that tells when an observation ended.
pub fn observation_end(
    id: &str,
    end_time: &str,
    observation_id: &str,
    trace_id: &str,
) -> (value: Value)
    ensures
        json_of(value) == observation_end_json(id@, end_time@, observation_id@, trace_id@),
{
    let mut body = empty_fields();
    insert_text(&mut body, "id", observation_id);
    insert_text(&mut body, "traceId", trace_id);
    insert_text(&mut body, "endTime", end_time);
    event(id, end_time, "observation-update", body)
}

/// The event that adds recorded fields to an observation.
pub fn observation_record(
    id: &str,
    timestamp: &str,
    observation_id: &str,
    trace_id: &str,
    metadata: serde_json::Map<String, Value>,
) -> (value: Value)
    ensures
        json_of(value) == observation_record_json(
            id@,
            timestamp@,
            observation_id@,
            trace_id@,
            fields_of(metadata),
        ),
{
    let mut body = empty_fields();
    insert_text(&mut body, "id", observation_id);
    insert_text(&mut body, "traceId", trace_id);
    insert_field(&mut body, "metadata".to_owned(), object_value(metadata));
    event(id, timestamp, "observation-update", body)
}

/// The event for something logged.
pub fn event_create(
    id: &str,
    timestamp: &str,
    trace_id: &str,
    parent_observation_id: &Option<String>,
    name: &str,
    metadata: serde_json::Map<String, Value>,
) -> (value: Value)
    ensures
        json_of(value) == event_create_json(
            id@,
            timestamp@,
            trace_id@,
            crate::text::optional_view(*parent_observation_id),
            name@,
            fields_of(metadata),
        ),
{
    let mut body = empty_fields();
    insert_text(&mut body, "id", id);
    insert_text(&mut body, "traceId", trace_id);
    if let Some(parent) = parent_observation_id {
        insert_text(&mut body, "parentObservationId", parent.as_str());
    }
    insert_text(&mut body, "name", name);
    insert_field(&mut body, "metadata".to_owned(), object_value(metadata));
    event(id, timestamp, "event-create", body)
}

/// The name of something logged, by the fields that it recorded.
pub fn event_name(metadata: &serde_json::Map<String, Value>) -> (name: String)
    ensures
        name@ == event_name_of(fields_of(*metadata)),
{
    let message = match get_field(metadata, "message") {
        Some(value) => as_text(value),
        None => None,
    };
    match message {
        Some(text) => text.to_owned(),
        None => UNNAMED_EVENT.to_owned(),
    }
}

} // verus!
