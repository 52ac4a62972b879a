use goose_cli::ingestion::{
    batch_payload, error_line, error_lines, judge, BatchReply, IngestionError, IngestionResponse,
    IngestionSuccess, SendError,
};
use goose_cli::layer::LangfuseLayer;
use goose_cli::visitor::JsonVisitor;
use serde_json::Value;

fn json(text: &str) -> Value {
    serde_json::from_str(text).unwrap()
}

fn waiting_layer() -> LangfuseLayer {
    let mut layer = LangfuseLayer::new(
        "public".to_string(),
        "secret".to_string(),
        Some("https://langfuse.example".to_string()),
    );
    layer.create_trace("T".to_string(), "E0", "then", 0);
    layer
}

fn refusal(status: i32, message: Option<&str>, error: Option<Value>) -> IngestionError {
    IngestionError {
        id: "E0".to_string(),
        status,
        message: message.map(|text| text.to_string()),
        error,
    }
}

fn answer(errors: Vec<IngestionError>) -> BatchReply {
    BatchReply::Answered(IngestionResponse {
        successes: vec![IngestionSuccess { id: "E9".to_string(), status: 201 }],
        errors,
    })
}

#[test]
fn payload_carries_the_batch_and_the_sender() {
    let batch = vec![json("1"), json(r#"{"a": [true, null]}"#)];
    assert_eq!(
        batch_payload(&batch, "1.2.3"),
        json(
            r#"{
                "batch": [1, {"a": [true, null]}],
                "metadata": {"sdk": "rust-tracing", "sdk_version": "1.2.3"}
            }"#
        )
    );
}

#[test]
fn request_holds_all_that_waits() {
    let layer = waiting_layer();
    let request = layer.send_batch("1.2.3").unwrap();
    assert_eq!(request.url, "https://langfuse.example/api/public/ingestion");
    assert_eq!(request.public_key, "public");
    assert_eq!(request.secret_key, "secret");
    assert_eq!(request.payload, batch_payload(layer.batch(), "1.2.3"));
    assert_eq!(request.payload["batch"][0]["id"], "E0");
    assert_eq!(request.events, 1);
}

#[test]
fn events_that_come_before_the_reply_stay() {
    let mut layer = waiting_layer();
    let sent = layer.send_batch("1.2.3").unwrap().events;
    layer.log_event(None, JsonVisitor::new().into_metadata(), "E1", "now");
    layer.finish_batch(sent, BatchReply::Failed("no route".to_string()));
    assert_eq!(layer.batch().len(), 2);
    layer.finish_batch(sent, answer(Vec::new()));
    assert_eq!(layer.batch().len(), 1);
    let request = layer.send_batch("1.2.3").unwrap();
    assert_eq!(request.events, 1);
    assert_eq!(request.payload["batch"][0]["id"], "E1");
}

#[test]
fn no_more_events_leave_than_wait() {
    let mut layer = waiting_layer();
    layer.finish_batch(0, BatchReply::Unreadable);
    assert_eq!(layer.batch().len(), 1);
    layer.finish_batch(7, BatchReply::Unreadable);
    assert!(layer.batch().is_empty());
}

#[test]
fn accepted_batch_is_done_with() {
    let mut layer = waiting_layer();
    let outcome = layer.finish_batch(1, answer(Vec::new()));
    assert!(outcome.result.is_ok());
    assert!(outcome.report.is_empty());
    assert!(layer.batch().is_empty());
    assert!(layer.send_batch("1.2.3").is_none());
    assert_eq!(layer.create_trace_if_needed(), "T");
    assert!(layer.batch().is_empty());
}

#[test]
fn unreadable_answer_counts_as_acceptance() {
    let mut layer = waiting_layer();
    let outcome = layer.finish_batch(1, BatchReply::Unreadable);
    assert!(outcome.result.is_ok());
    assert!(layer.batch().is_empty());
}

#[test]
fn refused_batch_is_sent_again() {
    let mut layer = waiting_layer();
    let first = layer.send_batch("1.2.3").unwrap().payload;
    let outcome = layer.finish_batch(1, answer(vec![refusal(400, Some("bad"), None)]));
    assert_eq!(outcome.report, vec!["Langfuse ingestion error: 400 - bad - None"]);
    assert!(matches!(outcome.result, Err(SendError::Rejected)));
    assert_eq!(layer.send_batch("1.2.3").unwrap().payload, first);
}

#[test]
fn batch_that_did_not_arrive_is_sent_again() {
    let mut layer = waiting_layer();
    let outcome = layer.finish_batch(1, BatchReply::Failed("no route".to_string()));
    assert!(outcome.report.is_empty());
    assert_eq!(layer.batch().len(), 1);
    let error = outcome.result.unwrap_err();
    assert_eq!(error.message(), "no route");
    assert_eq!(error.failure_line(), "Failed to send batch to Langfuse: no route");
}

#[test]
fn refusal_has_words() {
    assert_eq!(SendError::Rejected.message(), "Langfuse ingestion contained errors");
    assert_eq!(
        SendError::Rejected.failure_line(),
        "Failed to send batch to Langfuse: Langfuse ingestion contained errors"
    );
}

#[test]
fn refused_events_are_reported_in_order() {
    let errors = vec![
        refusal(-1, None, Some(json(r#"{"code": 7, "text": "no"}"#))),
        refusal(0, Some(""), Some(json("[1.5]"))),
        refusal(i32::MIN, Some("worst"), None),
    ];
    let lines = error_lines(&errors);
    assert_eq!(
        lines,
        vec![
            "Langfuse ingestion error: -1 - No message - Some(Object {\"code\": Number(7), \"text\": String(\"no\")})",
            "Langfuse ingestion error: 0 -  - Some(Array [Number(1.5)])",
            "Langfuse ingestion error: -2147483648 - worst - None",
        ]
    );
    assert_eq!(error_line(&errors[0]), lines[0]);
    let outcome = judge(answer(errors));
    assert_eq!(outcome.report, lines);
    assert!(matches!(outcome.result, Err(SendError::Rejected)));
}
