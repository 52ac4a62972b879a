//! What passes between a layer and Langfuse when a batch of events is sent.
use serde_json::Value;
use vstd::prelude::*;
use vstd::string::*;

use crate::json::{
    copied_array, empty_fields, insert_field, insert_text, object_value, optional_debug_text, Json,
};
use crate::text::append_decimal;

verus! {

/// How the sender of a batch names itself.
pub const SDK_NAME: &'static str = "rust-tracing";

/// Where below its address Langfuse takes batches.
pub const INGESTION_PATH: &'static str = "/api/public/ingestion";

/// What is said of a refused event that comes without a message.
pub const NO_MESSAGE: &'static str = "No message";

/// How many seconds pass before the waiting events are sent again.
pub const SEND_INTERVAL_SECONDS: u64 = 5;

/// How many seconds Langfuse may take to answer.
pub const ANSWER_TIMEOUT_SECONDS: u64 = 10;

/// A batch on its way to Langfuse: where it goes, who sends it, the document, and
/// how many events that carries.
#[derive(Debug)]
pub struct BatchRequest {
    pub url: String,
    pub public_key: String,
    pub secret_key: String,
    pub payload: Value,
    pub events: usize,
}

/// An event that Langfuse took.
#[derive(Debug)]
pub struct IngestionSuccess {
    pub id: String,
    pub status: i32,
}

/// An event that Langfuse refused.
#[derive(Debug)]
pub struct IngestionError {
    pub id: String,
    pub status: i32,
    pub message: Option<String>,
    pub error: Option<Value>,
}

/// Langfuse's answer to a batch.
#[derive(Debug)]
pub struct IngestionResponse {
    pub successes: Vec<IngestionSuccess>,
    pub errors: Vec<IngestionError>,
}

/// What came of posting a batch.
#[derive(Debug)]
pub enum BatchReply {
    /// The batch could not be posted, or the answer did not arrive; with the reason.
    Failed(String),
    /// An answer arrived that is not in the form of one.
    Unreadable,
    /// An answer arrived.
    Answered(IngestionResponse),
}

/// Why a batch was not sent.
#[derive(Debug)]
pub enum SendError {
    /// It could not be posted, or the answer did not arrive; with the reason.
    Transport(String),
    /// Langfuse refused some of its events.
    Rejected,
}

/// What came of sending a batch: the lines to report, and whether it went through.
#[derive(Debug)]
pub struct BatchOutcome {
    pub report: Vec<String>,
    pub result: Result<(), SendError>,
}

/// The document that carries a batch.
pub open spec fn payload_json(batch: Seq<Json>, sdk_version: Seq<char>) -> Json {
    Json::Object(
        map![
            "batch"@ => Json::Array(batch),
            "metadata"@ => Json::Object(
                map![
                    "sdk"@ => Json::Str(SDK_NAME@),
                    "sdk_version"@ => Json::Str(sdk_version),
                ],
            ),
        ],
    )
}

/// The line that reports a refused event.
pub open spec fn error_line_of(error: IngestionError) -> Seq<char> {
    "Langfuse ingestion error: "@ + crate::text::decimal(error.status as int) + " - "@ + (
    match error.message {
        Some(message) => message@,
        None => NO_MESSAGE@,
    }) + " - "@ + crate::json::optional_debug_of(error.error)
}

/// Whether some lines are the reports of the events that an answer refuses, one
/// for each and in its order.
pub open spec fn reports(lines: Seq<String>, errors: Seq<IngestionError>) -> bool {
    &&& lines.len() == errors.len()
    &&& forall|i: int|
        #![trigger lines[i]]
        0 <= i < lines.len() ==> lines[i]@ == error_line_of(errors[i])
}

impl BatchReply {
    /// Whether a batch with this reply counts as sent: an answer arrived, and it
    /// refuses no event that can be read from it.
    pub open spec fn accepts(self) -> bool {
        match self {
            BatchReply::Failed(_) => false,
            BatchReply::Unreadable => true,
            BatchReply::Answered(response) => response.errors@.len() == 0,
        }
    }

    /// The events that the reply refuses.
    pub open spec fn refused(self) -> Seq<IngestionError> {
        match self {
            BatchReply::Answered(response) => response.errors@,
            _ => Seq::empty(),
        }
    }
}

impl BatchOutcome {
    /// Whether this is what a reply makes of a batch.
    pub open spec fn follows(self, reply: BatchReply) -> bool {
        &&& reports(self.report@, reply.refused())
        &&& match self.result {
            Ok(()) => reply.accepts(),
            Err(SendError::Transport(reason)) => reply matches BatchReply::Failed(r) && r@
                == reason@,
            Err(SendError::Rejected) => reply is Answered && !reply.accepts(),
        }
    }
}

impl SendError {
    /// The reason in words.
    pub open spec fn text(self) -> Seq<char> {
        match self {
            SendError::Transport(reason) => reason@,
            SendError::Rejected => "Langfuse ingestion contained errors"@,
        }
    }

    /// The reason in words.
    pub fn message(&self) -> (text: String)
        ensures
            text@ == self.text(),
    {
        match self {
            SendError::Transport(reason) => reason.clone(),
            SendError::Rejected => "Langfuse ingestion contained errors".to_owned(),
        }
    }

    /// The line that reports the failure.
    pub fn failure_line(&self) -> (line: String)
        ensures
            line@ == "Failed to send batch to Langfuse: "@ + self.text(),
    {
        let mut line = "Failed to send batch to Langfuse: ".to_owned();
        line.append(self.message().as_str());
        line
    }
}

/// The document that carries a batch.
pub fn batch_payload(batch: &Vec<Value>, sdk_version: &str) -> (payload: Value)
    ensures
        crate::json::json_of(payload) == payload_json(crate::json::jsons_of(batch@), sdk_version@),
{
    let mut metadata = empty_fields();
    insert_text(&mut metadata, "sdk", SDK_NAME);
    insert_text(&mut metadata, "sdk_version", sdk_version);
    let mut payload = empty_fields();
    insert_field(&mut payload, "batch".to_owned(), copied_array(batch));
    insert_field(&mut payload, "metadata".to_owned(), object_value(metadata));
    object_value(payload)
}

/// The line that reports a refused event.
pub fn error_line(error: &IngestionError) -> (line: String)
    ensures
        line@ == error_line_of(*error),
{
    let mut line = "Langfuse ingestion error: ".to_owned();
    append_decimal(&mut line, error.status as i64);
    line.append(" - ");
    match &error.message {
        Some(message) => {
            line.append(message.as_str());
        },
        None => {
            line.append(NO_MESSAGE);
        },
    }
    line.append(" - ");
    line.append(optional_debug_text(&error.error).as_str());
    line
}

/// The lines that report refused events.
pub fn error_lines(errors: &Vec<IngestionError>) -> (lines: Vec<String>)
    ensures
        reports(lines@, errors@),
{
    let mut lines: Vec<String> = Vec::new();
    let mut i: usize = 0;
    while i < errors.len()
        invariant
            i <= errors.len(),
            lines.len() == i,
            forall|j: int|
                #![trigger lines@[j]]
                0 <= j < i ==> lines@[j]@ == error_line_of(errors@[j]),
        decreases errors.len() - i,
    {
        lines.push(error_line(&errors[i]));
        i = i + 1;
    }
    lines
}

/// What a reply makes of a batch.
pub fn judge(reply: BatchReply) -> (outcome: BatchOutcome)
    ensures
        outcome.follows(reply),
{
    match reply {
        BatchReply::Failed(reason) => BatchOutcome {
            report: Vec::new(),
            result: Err(SendError::Transport(reason)),
        },
        BatchReply::Unreadable => BatchOutcome { report: Vec::new(), result: Ok(()) },
        BatchReply::Answered(response) => BatchOutcome {
            report: error_lines(&response.errors),
            result: if response.errors.len() == 0 {
                Ok(())
            } else {
                Err(SendError::Rejected)
            },
        },
    }
}

} // verus!
