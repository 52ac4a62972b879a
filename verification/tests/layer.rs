use goose_cli::layer::{
    create_langfuse_layer, LangfuseEnvironment, LangfuseLayer, Level, NewSpan, SpanContext,
};
use goose_cli::visitor::JsonVisitor;
use serde_json::Value;

fn json(text: &str) -> Value {
    serde_json::from_str(text).unwrap()
}

fn no_metadata() -> serde_json::Map<String, Value> {
    JsonVisitor::new().into_metadata()
}

fn message(text: &str) -> serde_json::Map<String, Value> {
    let mut visitor = JsonVisitor::new();
    visitor.record_str("message", text);
    visitor.into_metadata()
}

fn layer() -> LangfuseLayer {
    LangfuseLayer::new("public".to_string(), "secret".to_string(), None)
}

fn traced_layer() -> LangfuseLayer {
    let mut layer = layer();
    layer.create_trace("T".to_string(), "E0", "then", 1431648000);
    layer
}

fn span(span_id: u64, parent_span: Option<u64>) -> NewSpan {
    NewSpan {
        span_id,
        langfuse_id: format!("L{}", span_id),
        observation_id: format!("O{}", span_id),
        name: format!("span {}", span_id),
        start_time: "start".to_string(),
        level: "DEFAULT",
        parent_span,
        metadata: no_metadata(),
    }
}

fn is_uuid(text: &str) -> bool {
    text.len() == 36
        && text.char_indices().all(|(i, c)| match i {
            8 | 13 | 18 | 23 => c == '-',
            14 => c == '4',
            19 => matches!(c, '8' | '9' | 'a' | 'b'),
            _ => matches!(c, '0'..='9' | 'a'..='f'),
        })
}

#[test]
fn new_layer_has_nothing_to_send() {
    let layer = layer();
    assert!(layer.batch().is_empty());
    assert!(layer.current_trace_id().is_none());
    assert!(layer.current_observation_id().is_none());
    assert!(layer.send_batch("1.0.0").is_none());
}

#[test]
fn trace_is_announced_with_its_second_as_name() {
    let layer = traced_layer();
    assert_eq!(
        layer.batch(),
        &vec![json(
            r#"{
                "id": "E0",
                "timestamp": "then",
                "type": "trace-create",
                "body": {
                    "id": "T",
                    "name": "1431648000",
                    "timestamp": "then",
                    "input": {},
                    "metadata": {},
                    "tags": [],
                    "public": false
                }
            }"#
        )]
    );
}

#[test]
fn trace_before_1970_keeps_its_sign() {
    let mut layer = layer();
    layer.create_trace("T".to_string(), "E0", "then", i64::MIN);
    assert_eq!(layer.batch()[0]["body"]["name"], "-9223372036854775808");
}

#[test]
fn trace_is_created_once() {
    let mut layer = layer();
    let first = layer.create_trace_if_needed();
    let second = layer.create_trace_if_needed();
    assert_eq!(first, second);
    assert_eq!(layer.current_trace_id().as_ref(), Some(&first));
    assert!(is_uuid(&first));
    assert_eq!(layer.batch().len(), 1);
    let event = &layer.batch()[0];
    assert_eq!(event["body"]["id"], first);
    assert!(is_uuid(event["id"].as_str().unwrap()));
    assert_ne!(event["id"], event["body"]["id"]);
    assert_eq!(event["timestamp"], event["body"]["timestamp"]);
    let time = chrono::DateTime::parse_from_rfc3339(event["timestamp"].as_str().unwrap()).unwrap();
    assert_eq!(event["body"]["name"], time.timestamp().to_string());
}

#[test]
fn begun_span_is_announced_and_open() {
    let mut layer = traced_layer();
    let mut visitor = JsonVisitor::new();
    visitor.record_i64("tokens", -3);
    let mut begun = span(1, None);
    begun.metadata = visitor.into_metadata();
    layer.open_span(begun, "E1");
    assert_eq!(
        layer.batch()[1],
        json(
            r#"{
                "id": "E1",
                "timestamp": "start",
                "type": "observation-create",
                "body": {
                    "id": "O1",
                    "traceId": "T",
                    "type": "SPAN",
                    "name": "span 1",
                    "startTime": "start",
                    "parentObservationId": null,
                    "metadata": {"tokens": -3},
                    "level": "DEFAULT"
                }
            }"#
        )
    );
    assert_eq!(layer.is_active_span(1), Some(("L1".to_string(), "O1".to_string())));
    assert_eq!(layer.is_active_span(2), None);
}

#[test]
fn span_is_filed_under_the_span_around_its_parent() {
    let mut layer = traced_layer();
    layer.open_span(span(1, None), "E1");
    layer.open_span(span(2, Some(1)), "E2");
    layer.open_span(span(3, Some(2)), "E3");
    let parents: Vec<&Value> =
        layer.batch()[1..].iter().map(|event| &event["body"]["parentObservationId"]).collect();
    assert_eq!(parents, vec![&Value::Null, &Value::Null, &Value::from("O1")]);
    assert_eq!(layer.get_parent_observation_id(2), Some("O1".to_string()));
    assert_eq!(layer.get_parent_observation_id(3), Some("O2".to_string()));
    assert_eq!(layer.get_parent_observation_id(1), None);
}

#[test]
fn span_is_filed_under_nothing_once_the_outer_span_has_ended() {
    let mut layer = traced_layer();
    layer.open_span(span(1, None), "E1");
    layer.open_span(span(2, Some(1)), "E2");
    layer.close_span(1, "end", "E3");
    layer.open_span(span(3, Some(2)), "E4");
    assert_eq!(layer.batch().last().unwrap()["body"]["parentObservationId"], Value::Null);
}

#[test]
fn span_gets_identifiers_of_its_own() {
    let begun = NewSpan::begin(
        7,
        "reply",
        &Level::Warn,
        Some(SpanContext { id: 5, parent: Some(4) }),
        message("hello"),
    );
    assert_eq!(begun.span_id, 7);
    assert_eq!(begun.name, "reply");
    assert_eq!(begun.level, "WARNING");
    assert_eq!(begun.parent_span, Some(4));
    assert_eq!(begun.metadata["message"], "hello");
    assert!(is_uuid(&begun.langfuse_id));
    assert!(is_uuid(&begun.observation_id));
    assert_ne!(begun.langfuse_id, begun.observation_id);
    assert!(chrono::DateTime::parse_from_rfc3339(&begun.start_time).is_ok());
    let alone = NewSpan::begin(8, "reply", &Level::Info, None, no_metadata());
    assert_eq!(alone.parent_span, None);
    let outermost = NewSpan::begin(
        9,
        "reply",
        &Level::Info,
        Some(SpanContext { id: 5, parent: None }),
        no_metadata(),
    );
    assert_eq!(outermost.parent_span, None);
}

#[test]
fn first_span_makes_the_trace_begin() {
    let mut layer = layer();
    layer.on_new_span(span(1, None));
    let kinds: Vec<&Value> = layer.batch().iter().map(|event| &event["type"]).collect();
    assert_eq!(kinds, vec!["trace-create", "observation-create"]);
    let trace_id = layer.create_trace_if_needed();
    assert_eq!(layer.batch()[0]["body"]["id"], trace_id);
    assert_eq!(layer.batch()[1]["body"]["traceId"], trace_id);
    assert_eq!(layer.batch()[1]["timestamp"], "start");
    layer.on_new_span(span(2, None));
    assert_eq!(layer.batch().len(), 3);
    assert_eq!(layer.batch()[2]["body"]["traceId"], trace_id);
}

#[test]
fn ended_span_is_announced_and_closed() {
    let mut layer = traced_layer();
    layer.open_span(span(1, None), "E1");
    layer.open_span(span(2, None), "E2");
    layer.close_span(1, "end", "E3");
    assert_eq!(
        layer.batch()[3],
        json(
            r#"{
                "id": "E3",
                "timestamp": "end",
                "type": "observation-update",
                "body": {"id": "O1", "traceId": "T", "endTime": "end"}
            }"#
        )
    );
    assert_eq!(layer.is_active_span(1), None);
    assert!(layer.is_active_span(2).is_some());
}

#[test]
fn span_ends_once() {
    let mut layer = layer();
    layer.on_new_span(span(1, None));
    layer.on_close(1, "end");
    assert_eq!(layer.batch().len(), 3);
    assert_eq!(layer.batch()[2]["body"]["id"], "O1");
    assert_eq!(layer.batch()[2]["body"]["endTime"], "end");
    layer.on_close(1, "later");
    assert_eq!(layer.batch().len(), 3);
}

#[test]
fn unknown_span_leaves_no_mark() {
    let mut layer = layer();
    layer.on_close(1, "end");
    layer.on_record(1, message("hello"));
    layer.on_event(Some(SpanContext { id: 1, parent: None }), message("hello"));
    layer.on_enter(1);
    assert!(layer.batch().is_empty());
    assert!(layer.current_observation_id().is_none());
}

#[test]
fn recorded_fields_are_announced() {
    let mut layer = traced_layer();
    layer.open_span(span(1, None), "E1");
    layer.record_span(1, message("hello"), "E2", "now");
    assert_eq!(
        layer.batch()[2],
        json(
            r#"{
                "id": "E2",
                "timestamp": "now",
                "type": "observation-update",
                "body": {"id": "O1", "traceId": "T", "metadata": {"message": "hello"}}
            }"#
        )
    );
}

#[test]
fn empty_record_is_passed_over() {
    let mut layer = layer();
    layer.on_new_span(span(1, None));
    layer.on_record(1, no_metadata());
    assert_eq!(layer.batch().len(), 2);
    layer.on_record(1, message("hello"));
    assert_eq!(layer.batch().len(), 3);
    let event = &layer.batch()[2];
    assert!(is_uuid(event["id"].as_str().unwrap()));
    assert!(chrono::DateTime::parse_from_rfc3339(event["timestamp"].as_str().unwrap()).is_ok());
}

#[test]
fn event_inside_a_span_names_its_observation() {
    let mut layer = traced_layer();
    layer.open_span(span(1, None), "E1");
    layer.log_event(Some(1), message("hello"), "E2", "now");
    assert_eq!(
        layer.batch()[2],
        json(
            r#"{
                "id": "E2",
                "timestamp": "now",
                "type": "event-create",
                "body": {
                    "id": "E2",
                    "traceId": "T",
                    "parentObservationId": "O1",
                    "name": "hello",
                    "metadata": {"message": "hello"}
                }
            }"#
        )
    );
}

#[test]
fn event_outside_of_spans_names_no_observation() {
    let mut layer = traced_layer();
    layer.log_event(None, no_metadata(), "E1", "now");
    assert_eq!(
        layer.batch()[1],
        json(
            r#"{
                "id": "E1",
                "timestamp": "now",
                "type": "event-create",
                "body": {"id": "E1", "traceId": "T", "name": "unnamed event", "metadata": {}}
            }"#
        )
    );
}

#[test]
fn event_makes_the_trace_begin() {
    let mut layer = layer();
    layer.on_event(None, message("hello"));
    assert_eq!(layer.batch().len(), 2);
    let event = &layer.batch()[1];
    assert_eq!(event["id"], event["body"]["id"]);
    assert_eq!(event["body"]["traceId"], layer.batch()[0]["body"]["id"]);
    assert!(event["body"].get("parentObservationId").is_none());
}

#[test]
fn event_in_the_current_span_is_filed_there() {
    let mut layer = layer();
    layer.on_new_span(span(1, None));
    layer.on_event(Some(SpanContext { id: 1, parent: None }), message("hello"));
    assert_eq!(layer.batch()[2]["body"]["parentObservationId"], "O1");
    assert_eq!(layer.batch()[2]["body"]["name"], "hello");
}

#[test]
fn entering_and_leaving_follow_the_open_spans() {
    let mut layer = traced_layer();
    layer.open_span(span(1, None), "E1");
    layer.open_span(span(2, Some(1)), "E2");
    layer.on_enter(2);
    assert_eq!(layer.current_observation_id().as_deref(), Some("O2"));
    layer.on_enter(9);
    assert_eq!(layer.current_observation_id().as_deref(), Some("O2"));
    layer.on_exit(Some(SpanContext { id: 2, parent: Some(1) }));
    assert_eq!(layer.current_observation_id().as_deref(), Some("O1"));
    layer.on_exit(Some(SpanContext { id: 2, parent: Some(9) }));
    assert_eq!(layer.current_observation_id().as_deref(), None);
    layer.on_enter(1);
    layer.on_exit(Some(SpanContext { id: 1, parent: None }));
    assert_eq!(layer.current_observation_id().as_deref(), None);
    layer.on_enter(1);
    layer.on_exit(None);
    assert_eq!(layer.current_observation_id().as_deref(), None);
    assert_eq!(layer.batch().len(), 3);
}

#[test]
fn what_is_known_of_spans_can_be_kept_by_hand() {
    let mut layer = layer();
    layer.add_active_span(1, "L".to_string(), "O".to_string());
    layer.add_span_to_hierarchy(2, 1);
    assert_eq!(layer.get_parent_observation_id(2), Some("O".to_string()));
    assert_eq!(layer.remove_active_span(1), Some(("L".to_string(), "O".to_string())));
    assert_eq!(layer.remove_active_span(1), None);
    assert_eq!(layer.get_parent_observation_id(2), None);
    layer.set_current_observation_id(Some("X".to_string()));
    assert_eq!(layer.current_observation_id().as_deref(), Some("X"));
}

#[test]
fn levels_have_langfuse_names() {
    assert_eq!(LangfuseLayer::map_level(&Level::Error), "ERROR");
    assert_eq!(LangfuseLayer::map_level(&Level::Warn), "WARNING");
    assert_eq!(LangfuseLayer::map_level(&Level::Info), "DEFAULT");
    assert_eq!(LangfuseLayer::map_level(&Level::Debug), "DEBUG");
    assert_eq!(LangfuseLayer::map_level(&Level::Trace), "DEBUG");
}

#[test]
fn only_targets_of_goose_are_traced() {
    assert!(LangfuseLayer::enabled("goose::agent"));
    assert!(LangfuseLayer::enabled("goose::"));
    assert!(!LangfuseLayer::enabled("goose:"));
    assert!(!LangfuseLayer::enabled("goose_cli::main"));
    assert!(!LangfuseLayer::enabled(""));
    assert!(!LangfuseLayer::enabled("a goose::agent"));
    assert!(!LangfuseLayer::enabled("göose::agent"));
    assert!(LangfuseLayer::enabled("goose::ägent"));
}

fn environment() -> LangfuseEnvironment {
    LangfuseEnvironment {
        public_key: None,
        init_project_public_key: None,
        secret_key: None,
        init_project_secret_key: None,
        url: None,
    }
}

fn sent_by(environment: LangfuseEnvironment) -> (String, String, String) {
    let mut layer = create_langfuse_layer(environment).unwrap();
    layer.create_trace_if_needed();
    let request = layer.send_batch("1.0.0").unwrap();
    (request.url, request.public_key, request.secret_key)
}

fn sender(url: &str, public_key: &str, secret_key: &str) -> (String, String, String) {
    (url.to_string(), public_key.to_string(), secret_key.to_string())
}

#[test]
fn empty_environment_means_a_local_langfuse() {
    assert_eq!(
        sent_by(environment()),
        sender(
            "http://localhost:3000/api/public/ingestion",
            "publickey-local",
            "secretkey-local"
        )
    );
}

#[test]
fn keys_of_the_project_stand_in_for_missing_ones() {
    let mut given = environment();
    given.init_project_public_key = Some("project public".to_string());
    given.init_project_secret_key = Some("project secret".to_string());
    given.url = Some("https://langfuse.example".to_string());
    assert_eq!(
        sent_by(given),
        sender(
            "https://langfuse.example/api/public/ingestion",
            "project public",
            "project secret"
        )
    );
}

#[test]
fn given_keys_come_before_those_of_the_project() {
    let mut given = environment();
    given.public_key = Some("public".to_string());
    given.init_project_public_key = Some("project public".to_string());
    given.secret_key = Some("secret".to_string());
    given.init_project_secret_key = Some("project secret".to_string());
    assert_eq!(
        sent_by(given),
        sender("http://localhost:3000/api/public/ingestion", "public", "secret")
    );
}

#[test]
fn every_event_of_a_run_belongs_to_its_one_trace() {
    let mut layer = layer();
    layer.on_event(None, message("before"));
    layer.on_new_span(span(1, None));
    layer.on_enter(1);
    layer.on_new_span(span(2, Some(1)));
    layer.on_record(2, message("inside"));
    layer.on_event(Some(SpanContext { id: 2, parent: Some(1) }), no_metadata());
    layer.on_close(2, "end");
    layer.on_exit(None);
    layer.on_close(1, "end");
    let trace_id = layer.create_trace_if_needed();
    let kinds: Vec<&Value> = layer.batch().iter().map(|event| &event["type"]).collect();
    assert_eq!(
        kinds,
        vec![
            "trace-create",
            "event-create",
            "observation-create",
            "observation-create",
            "observation-update",
            "event-create",
            "observation-update",
            "observation-update",
        ]
    );
    assert_eq!(layer.batch()[0]["body"]["id"], trace_id);
    for event in &layer.batch()[1..] {
        assert_eq!(event["body"]["traceId"], trace_id);
        assert!(is_uuid(event["id"].as_str().unwrap()));
        assert!(event["timestamp"].is_string());
        assert!(event["body"]["id"].is_string());
    }
}

#[test]
fn waiting_events_stay_in_front_and_settings_stay() {
    let mut layer = LangfuseLayer::new(
        "public".to_string(),
        "secret".to_string(),
        Some("https://langfuse.example".to_string()),
    );
    layer.on_new_span(span(1, None));
    let waiting = layer.batch().clone();
    layer.on_event(None, message("later"));
    layer.on_close(1, "end");
    assert_eq!(&layer.batch()[..waiting.len()], &waiting[..]);
    assert_eq!(layer.batch().len(), waiting.len() + 2);
    let request = layer.send_batch("1.0.0").unwrap();
    assert_eq!(
        (request.url, request.public_key, request.secret_key),
        sender("https://langfuse.example/api/public/ingestion", "public", "secret")
    );
}
