//! The layer that turns spans and log events into events for Langfuse.
use serde_json::Value;
use std::collections::HashMap;
use vstd::prelude::*;
use vstd::string::*;

use crate::clock::{now, timestamp_now};
use crate::events::{
    event_create, event_name, observation_create, observation_end, observation_record, trace_create,
};
use crate::ids::{draw_id, Purpose};
use crate::ingestion::{batch_payload, judge, BatchOutcome, BatchReply, BatchRequest, INGESTION_PATH};
use crate::json::has_no_field;
use crate::model::{LayerView, NewSpanView, TraceSeed};
use crate::text::has_prefix;

verus! {

/// Where Langfuse is looked for if nobody says otherwise.
pub const DEFAULT_LANGFUSE_URL: &'static str = "http://localhost:3000";

/// The beginning of the targets whose spans and events are traced.
pub const TRACED_PREFIX: &'static str = "goose::";

/// How much attention a span or an event deserves.
#[derive(Clone, Copy, Debug, PartialEq, Eq, Structural)]
pub enum Level {
    Error,
    Warn,
    Info,
    Debug,
    Trace,
}

/// Langfuse's name for a level.
pub open spec fn level_name(level: Level) -> Seq<char> {
    match level {
        Level::Error => "ERROR"@,
        Level::Warn => "WARNING"@,
        Level::Info => "DEFAULT"@,
        Level::Debug => "DEBUG"@,
        Level::Trace => "DEBUG"@,
    }
}

/// The span that the run is in: its number, and that of the span around it.
#[derive(Clone, Copy, Debug, PartialEq, Eq, Structural)]
pub struct SpanContext {
    pub id: u64,
    pub parent: Option<u64>,
}

/// The number of the span that the run is in, if it is in one.
pub open spec fn span_of(current: Option<SpanContext>) -> Option<u64> {
    match current {
        Some(span) => Some(span.id),
        None => None,
    }
}

/// The number of the span around the one that the run is in, if there is one.
pub open spec fn parent_of(current: Option<SpanContext>) -> Option<u64> {
    match current {
        Some(span) => span.parent,
        None => None,
    }
}

/// What is known of a span when it begins.
#[derive(Debug)]
pub struct NewSpan {
    pub span_id: u64,
    pub langfuse_id: String,
    pub observation_id: String,
    pub name: String,
    pub start_time: String,
    pub level: &'static str,
    pub parent_span: Option<u64>,
    pub metadata: serde_json::Map<String, Value>,
}

impl View for NewSpan {
    type V = NewSpanView;

    open spec fn view(&self) -> NewSpanView {
        NewSpanView {
            span_id: self.span_id,
            langfuse_id: self.langfuse_id@,
            observation_id: self.observation_id@,
            name: self.name@,
            start_time: self.start_time@,
            level: self.level@,
            parent_span: self.parent_span,
            metadata: crate::json::fields_of(self.metadata),
        }
    }
}

impl NewSpan {
    /// Describes a span that begins now: it gets identifiers of its own, and the
    /// span around the one that the run is in counts as its parent.
    pub fn begin(
        span_id: u64,
        name: &str,
        level: &Level,
        current: Option<SpanContext>,
        metadata: serde_json::Map<String, Value>,
    ) -> (span: NewSpan)
        ensures
            crate::ids::is_uuid(span@.langfuse_id),
            crate::ids::is_uuid(span@.observation_id),
            crate::ids::is_drawn(Purpose::Span, span@.langfuse_id),
            crate::ids::is_drawn(Purpose::Observation, span@.observation_id),
            crate::clock::is_timestamp(span@.start_time),
            span@ == (NewSpanView {
                span_id,
                langfuse_id: span@.langfuse_id,
                observation_id: span@.observation_id,
                name: name@,
                start_time: span@.start_time,
                level: level_name(*level),
                parent_span: parent_of(current),
                metadata: crate::json::fields_of(metadata),
            }),
    {
        NewSpan {
            span_id,
            langfuse_id: draw_id(Purpose::Span),
            observation_id: draw_id(Purpose::Observation),
            name: name.to_owned(),
            start_time: timestamp_now(),
            level: LangfuseLayer::map_level(level),
            parent_span: match current {
                Some(span) => span.parent,
                None => None,
            },
            metadata,
        }
    }
}

/// What a layer knows of the run so far, and the events that wait to be sent.
#[derive(Debug)]
struct LangfuseState {
    public_key: String,
    secret_key: String,
    batch: Vec<Value>,
    current_trace_id: Option<String>,
    current_observation_id: Option<String>,
    active_spans: HashMap<u64, (String, String)>,
    span_hierarchy: HashMap<u64, u64>,
}

/// A layer that traces a run to Langfuse.
#[derive(Debug)]
pub struct LangfuseLayer {
    state: LangfuseState,
    base_url: String,
}

/// The characters of a pair of texts.
pub open spec fn pair_view(pair: (String, String)) -> (Seq<char>, Seq<char>) {
    (pair.0@, pair.1@)
}

impl View for LangfuseLayer {
    type V = LayerView;

    closed spec fn view(&self) -> LayerView {
        LayerView {
            public_key: self.state.public_key@,
            secret_key: self.state.secret_key@,
            base_url: self.base_url@,
            batch: crate::json::jsons_of(self.state.batch@),
            current_trace_id: crate::text::optional_view(self.state.current_trace_id),
            current_observation_id: crate::text::optional_view(self.state.current_observation_id),
            active_spans: self.state.active_spans@.map_values(
                |pair: (String, String)| pair_view(pair),
            ),
            span_hierarchy: self.state.span_hierarchy@,
        }
    }
}

impl LangfuseLayer {
    /// A layer for the Langfuse at `langfuse_url`, or at the usual place.
    pub fn new(public_key: String, secret_key: String, langfuse_url: Option<String>) -> (layer:
        Self)
        ensures
            layer@ == LayerView::initial(
                public_key@,
                secret_key@,
                match langfuse_url {
                    Some(url) => url@,
                    None => DEFAULT_LANGFUSE_URL@,
                },
            ),
    {
        let base_url = match langfuse_url {
            Some(url) => url,
            None => DEFAULT_LANGFUSE_URL.to_owned(),
        };
        let layer = LangfuseLayer {
            state: LangfuseState {
                public_key,
                secret_key,
                batch: Vec::new(),
                current_trace_id: None,
                current_observation_id: None,
                active_spans: HashMap::new(),
                span_hierarchy: HashMap::new(),
            },
            base_url,
        };
        proof {
            assert(layer@.batch =~= Seq::empty());
            assert(layer@.active_spans =~= Map::empty());
        }
        layer
    }

    /// Langfuse's name for a level.
    pub fn map_level(level: &Level) -> (name: &'static str)
        ensures
            name@ == level_name(*level),
    {
        match level {
            Level::Error => "ERROR",
            Level::Warn => "WARNING",
            Level::Info => "DEFAULT",
            Level::Debug => "DEBUG",
            Level::Trace => "DEBUG",
        }
    }

    /// Whether spans and events of a target are traced.
    pub fn enabled(target: &str) -> (yes: bool)
        ensures
            yes == TRACED_PREFIX@.is_prefix_of(target@),
    {
        has_prefix(target, TRACED_PREFIX)
    }

    /// The events that wait to be sent, oldest first.
    pub fn batch(&self) -> (batch: &Vec<Value>)
        ensures
            crate::json::jsons_of(batch@) == self@.batch,
    {
        &self.state.batch
    }

    /// The trace that has begun.
    pub fn current_trace_id(&self) -> (trace_id: &Option<String>)
        ensures
            crate::text::optional_view(*trace_id) == self@.current_trace_id,
    {
        &self.state.current_trace_id
    }

    /// The observation that the run is in.
    pub fn current_observation_id(&self) -> (observation_id: &Option<String>)
        ensures
            crate::text::optional_view(*observation_id) == self@.current_observation_id,
    {
        &self.state.current_observation_id
    }

    /// The identifier of the trace that has begun.
    fn trace_id(&self) -> (trace_id: String)
        requires
            self@.current_trace_id is Some,
        ensures
            Some(trace_id@) == self@.current_trace_id,
    {
        self.state.current_trace_id.as_ref().unwrap().clone()
    }

    /// Adds an event to those that wait to be sent.
    fn push_event(&mut self, event: Value)
        ensures
            final(self)@ == old(self)@.pushed(crate::json::json_of(event)),
    {
        self.state.batch.push(event);
        proof {
            assert(self@.batch =~= old(self)@.batch.push(crate::json::json_of(event)));
        }
    }

    /// Begins the trace and announces it.
    pub fn create_trace(
        &mut self,
        trace_id: String,
        event_id: &str,
        timestamp: &str,
        seconds: i64,
    )
        requires
            old(self)@.current_trace_id is None,
        ensures
            final(self)@ == old(self)@.trace_created(
                trace_id@,
                event_id@,
                timestamp@,
                seconds as int,
            ),
    {
        let event = trace_create(event_id, timestamp, trace_id.as_str(), seconds);
        self.push_event(event);
        self.state.current_trace_id = Some(trace_id);
    }

    /// The identifier of the trace. The first call begins one.
    pub fn create_trace_if_needed(&mut self) -> (trace_id: String)
        ensures
            old(self)@.traces_to(final(self)@),
            final(self)@.current_trace_id == Some(trace_id@),
    {
        match &self.state.current_trace_id {
            Some(trace_id) => trace_id.clone(),
            None => {
                let trace_id = draw_id(Purpose::Trace);
                let moment = now();
                let event_id = draw_id(Purpose::Announcement);
                let timestamp = moment.to_rfc3339();
                proof {
                    let seed = TraceSeed { trace_id: trace_id@, event_id: event_id@, moment };
                    assert(seed.drawn());
                }
                self.create_trace(
                    trace_id.clone(),
                    event_id.as_str(),
                    timestamp.as_str(),
                    moment.seconds,
                );
                trace_id
            },
        }
    }

    /// Notes the observation that the run is in.
    pub fn set_current_observation_id(&mut self, observation_id: Option<String>)
        ensures
            final(self)@ == (LayerView {
                current_observation_id: crate::text::optional_view(observation_id),
                ..old(self)@
            }),
    {
        self.state.current_observation_id = observation_id;
    }

    /// The identifiers of an open span: that with Langfuse and the observation's.
    pub fn is_active_span(&self, span_id: u64) -> (ids: Option<(String, String)>)
        ensures
            match ids {
                Some(pair) => self@.active_spans.contains_key(span_id)
                    && self@.active_spans[span_id] == pair_view(pair),
                None => !self@.active_spans.contains_key(span_id),
            },
    {
        broadcast use vstd::std_specs::hash::group_hash_axioms;

        match self.state.active_spans.get(&span_id) {
            Some(pair) => Some((pair.0.clone(), pair.1.clone())),
            None => None,
        }
    }

    /// Counts a span among the open ones.
    pub fn add_active_span(&mut self, span_id: u64, langfuse_id: String, observation_id: String)
        ensures
            final(self)@ == (LayerView {
                active_spans: old(self)@.active_spans.insert(
                    span_id,
                    (langfuse_id@, observation_id@),
                ),
                ..old(self)@
            }),
    {
        broadcast use vstd::std_specs::hash::group_hash_axioms;

        self.state.active_spans.insert(span_id, (langfuse_id, observation_id));
        proof {
            assert(self@.active_spans =~= old(self)@.active_spans.insert(
                span_id,
                (langfuse_id@, observation_id@),
            ));
        }
    }

    /// Counts a span among the open ones no longer, and hands back its identifiers.
    pub fn remove_active_span(&mut self, span_id: u64) -> (ids: Option<(String, String)>)
        ensures
            final(self)@ == (LayerView {
                active_spans: old(self)@.active_spans.remove(span_id),
                ..old(self)@
            }),
            match ids {
                Some(pair) => old(self)@.active_spans.contains_key(span_id)
                    && old(self)@.active_spans[span_id] == pair_view(pair),
                None => !old(self)@.active_spans.contains_key(span_id),
            },
    {
        broadcast use vstd::std_specs::hash::group_hash_axioms;

        let ids = self.state.active_spans.remove(&span_id);
        proof {
            assert(self@.active_spans =~= old(self)@.active_spans.remove(span_id));
        }
        ids
    }

    /// The observation of the span that encloses the given one, if that span is
    /// still open.
    pub fn get_parent_observation_id(&self, span_id: u64) -> (observation_id: Option<String>)
        ensures
            crate::text::optional_view(observation_id) == self@.parent_observation(span_id),
    {
        broadcast use vstd::std_specs::hash::group_hash_axioms;

        match self.state.span_hierarchy.get(&span_id) {
            Some(parent) => match self.is_active_span(*parent) {
                Some((_, observation_id)) => Some(observation_id),
                None => None,
            },
            None => None,
        }
    }

    /// Notes which span encloses another one.
    pub fn add_span_to_hierarchy(&mut self, child_span: u64, parent_span: u64)
        ensures
            final(self)@ == (LayerView {
                span_hierarchy: old(self)@.span_hierarchy.insert(child_span, parent_span),
                ..old(self)@
            }),
    {
        broadcast use vstd::std_specs::hash::group_hash_axioms;

        self.state.span_hierarchy.insert(child_span, parent_span);
    }

    /// Files a span that has begun under the trace.
    pub fn open_span(&mut self, span: NewSpan, event_id: &str)
        requires
            old(self)@.current_trace_id is Some,
        ensures
            final(self)@ == old(self)@.span_opened(span@, event_id@),
    {
        let parent_observation_id = match span.parent_span {
            Some(parent) => self.get_parent_observation_id(parent),
            None => None,
        };
        if let Some(parent) = span.parent_span {
            self.add_span_to_hierarchy(span.span_id, parent);
        }
        self.add_active_span(
            span.span_id,
            span.langfuse_id.clone(),
            span.observation_id.clone(),
        );
        let event = observation_create(
            event_id,
            span.start_time.as_str(),
            span.observation_id.as_str(),
            self.trace_id().as_str(),
            span.name.as_str(),
            &parent_observation_id,
            span.metadata,
            span.level,
        );
        self.push_event(event);
    }

    /// A span has begun: it counts as open and is announced.
    pub fn on_new_span(&mut self, span: NewSpan)
        ensures
            old(self)@.opens_to(span@, final(self)@),
    {
        self.create_trace_if_needed();
        let ghost traced = self@;
        let event_id = draw_id(Purpose::Event);
        self.open_span(span, event_id.as_str());
        proof {
            assert(old(self)@.traces_to(traced) && crate::ids::is_drawn(
                Purpose::Event,
                event_id@,
            ));
        }
    }

    /// Files the end of a span under the trace.
    pub fn close_span(&mut self, span_id: u64, end_time: &str, event_id: &str)
        requires
            old(self)@.current_trace_id is Some,
        ensures
            final(self)@ == old(self)@.span_closed(span_id, end_time@, event_id@),
    {
        let ids = self.remove_active_span(span_id);
        proof {
            assert(ids is None ==> self@.active_spans =~= old(self)@.active_spans);
        }
        if let Some((_langfuse_id, observation_id)) = ids {
            let event = observation_end(
                event_id,
                end_time,
                observation_id.as_str(),
                self.trace_id().as_str(),
            );
            self.push_event(event);
        }
    }

    /// A span has ended: if it was open, it no longer is, and its end is announced.
    pub fn on_close(&mut self, span_id: u64, end_time: &str)
        ensures
            old(self)@.closes_to(span_id, end_time@, final(self)@),
    {
        if self.is_active_span(span_id).is_some() {
            self.create_trace_if_needed();
            let ghost traced = self@;
            let event_id = draw_id(Purpose::Event);
            self.close_span(span_id, end_time, event_id.as_str());
            proof {
                assert(old(self)@.traces_to(traced) && crate::ids::is_drawn(
                    Purpose::Event,
                    event_id@,
                ));
            }
        }
    }

    /// Files fields that a span has recorded under the trace.
    pub fn record_span(
        &mut self,
        span_id: u64,
        metadata: serde_json::Map<String, Value>,
        event_id: &str,
        timestamp: &str,
    )
        requires
            old(self)@.current_trace_id is Some,
        ensures
            final(self)@ == old(self)@.span_recorded(
                span_id,
                crate::json::fields_of(metadata),
                event_id@,
                timestamp@,
            ),
    {
        if !has_no_field(&metadata) {
            if let Some((_, observation_id)) = self.is_active_span(span_id) {
                let event = observation_record(
                    event_id,
                    timestamp,
                    observation_id.as_str(),
                    self.trace_id().as_str(),
                    metadata,
                );
                self.push_event(event);
            }
        }
    }

    /// A span has recorded fields: if it is open and there are any, they are
    /// announced.
    pub fn on_record(&mut self, span_id: u64, metadata: serde_json::Map<String, Value>)
        ensures
            old(self)@.records_to(span_id, crate::json::fields_of(metadata), final(self)@),
    {
        if !has_no_field(&metadata) {
            if self.is_active_span(span_id).is_some() {
                self.create_trace_if_needed();
                let ghost traced = self@;
                let event_id = draw_id(Purpose::Event);
                let timestamp = timestamp_now();
                self.record_span(
                    span_id,
                    metadata,
                    event_id.as_str(),
                    timestamp.as_str(),
                );
                proof {
                    assert(old(self)@.traces_to(traced) && crate::ids::is_drawn(
                        Purpose::Event,
                        event_id@,
                    ) && crate::clock::is_timestamp(timestamp@));
                }
            }
        }
    }

    /// Files something logged under the trace.
    pub fn log_event(
        &mut self,
        span_id: Option<u64>,
        metadata: serde_json::Map<String, Value>,
        event_id: &str,
        timestamp: &str,
    )
        requires
            old(self)@.current_trace_id is Some,
        ensures
            final(self)@ == old(self)@.event_logged(
                span_id,
                crate::json::fields_of(metadata),
                event_id@,
                timestamp@,
            ),
    {
        let name = event_name(&metadata);
        let parent_observation_id = match span_id {
            Some(id) => match self.is_active_span(id) {
                Some((_, observation_id)) => Some(observation_id),
                None => {
                    return;
                },
            },
            None => None,
        };
        let event = event_create(
            event_id,
            timestamp,
            self.trace_id().as_str(),
            &parent_observation_id,
            name.as_str(),
            metadata,
        );
        self.push_event(event);
    }

    /// Something was logged: it is announced, unless that happened inside a span
    /// which is not open.
    pub fn on_event(
        &mut self,
        current: Option<SpanContext>,
        metadata: serde_json::Map<String, Value>,
    )
        ensures
            old(self)@.logs_to(span_of(current), crate::json::fields_of(metadata), final(self)@),
    {
        let span_id = match current {
            Some(span) => Some(span.id),
            None => None,
        };
        if let Some(id) = span_id {
            if self.is_active_span(id).is_none() {
                return;
            }
        }
        self.create_trace_if_needed();
        let ghost traced = self@;
        let event_id = draw_id(Purpose::Event);
        let timestamp = timestamp_now();
        self.log_event(
            span_id,
            metadata,
            event_id.as_str(),
            timestamp.as_str(),
        );
        proof {
            assert(old(self)@.traces_to(traced) && crate::ids::is_drawn(
                Purpose::Event,
                event_id@,
            ) && crate::clock::is_timestamp(timestamp@));
        }
    }

    /// The run has entered a span: if it is open, the run is in its observation.
    pub fn on_enter(&mut self, span_id: u64)
        ensures
            final(self)@ == old(self)@.span_entered(span_id),
    {
        if let Some((_, observation_id)) = self.is_active_span(span_id) {
            self.set_current_observation_id(Some(observation_id));
        }
    }

    /// The run has left a span: it is in the observation of the span around the
    /// one that it is in now, or in none.
    pub fn on_exit(&mut self, current: Option<SpanContext>)
        ensures
            final(self)@ == old(self)@.span_exited(parent_of(current)),
    {
        if let Some(span) = current {
            if let Some(parent_id) = span.parent {
                if let Some((_, parent_observation_id)) = self.is_active_span(parent_id) {
                    self.set_current_observation_id(Some(parent_observation_id));
                } else {
                    self.set_current_observation_id(None);
                }
            } else {
                self.set_current_observation_id(None);
            }
        } else {
            self.set_current_observation_id(None);
        }
    }

    /// The batch to post, if any event waits to be sent. It carries all of them, and
    /// they stay until [`LangfuseLayer::finish_batch`] takes in the reply.
    pub fn send_batch(&self, sdk_version: &str) -> (request: Option<BatchRequest>)
        ensures
            match request {
                None => self@.batch.len() == 0,
                Some(request) => {
                    &&& self@.batch.len() > 0
                    &&& request.url@ == self@.base_url + INGESTION_PATH@
                    &&& request.public_key@ == self@.public_key
                    &&& request.secret_key@ == self@.secret_key
                    &&& crate::json::json_of(request.payload) == crate::ingestion::payload_json(
                        self@.batch,
                        sdk_version@,
                    )
                    &&& request.events == self@.batch.len()
                },
            },
    {
        if self.state.batch.len() == 0 {
            return None;
        }
        let mut url = self.base_url.clone();
        url.append(INGESTION_PATH);
        Some(
            BatchRequest {
                url,
                public_key: self.state.public_key.clone(),
                secret_key: self.state.secret_key.clone(),
                payload: batch_payload(&self.state.batch, sdk_version),
                events: self.state.batch.len(),
            },
        )
    }

    /// Takes in the reply to a batch that carried the first `sent` of the waiting
    /// events: they are done with if the batch counts as sent, and else they stay
    /// for the next one. Events that came later stay in any case.
    pub fn finish_batch(&mut self, sent: usize, reply: BatchReply) -> (outcome: BatchOutcome)
        ensures
            outcome.follows(reply),
            final(self)@ == old(self)@.replied(sent as nat, reply),
    {
        let outcome = judge(reply);
        if outcome.result.is_ok() {
            let carried = if sent <= self.state.batch.len() {
                sent
            } else {
                self.state.batch.len()
            };
            let later = self.state.batch.split_off(carried);
            self.state.batch = later;
            proof {
                assert(self@.batch =~= old(self)@.batch.skip(carried as int));
            }
        }
        outcome
    }
}

/// What the environment says of the Langfuse to trace to; each entry is absent
/// where its variable is not set to a text.
#[derive(Debug)]
pub struct LangfuseEnvironment {
    /// `LANGFUSE_PUBLIC_KEY`
    pub public_key: Option<String>,
    /// `LANGFUSE_INIT_PROJECT_PUBLIC_KEY`
    pub init_project_public_key: Option<String>,
    /// `LANGFUSE_SECRET_KEY`
    pub secret_key: Option<String>,
    /// `LANGFUSE_INIT_PROJECT_SECRET_KEY`
    pub init_project_secret_key: Option<String>,
    /// `LANGFUSE_URL`
    pub url: Option<String>,
}

/// The first of two texts that is present, or else a third.
pub open spec fn first_present(
    first: Option<String>,
    second: Option<String>,
    otherwise: Seq<char>,
) -> Seq<char> {
    match first {
        Some(text) => text@,
        None => match second {
            Some(text) => text@,
            None => otherwise,
        },
    }
}

/// The first of two texts that is present, or else a third.
fn choose_text(first: Option<String>, second: Option<String>, otherwise: &str) -> (text: String)
    ensures
        text@ == first_present(first, second, otherwise@),
{
    match first {
        Some(text) => text,
        None => match second {
            Some(text) => text,
            None => otherwise.to_owned(),
        },
    }
}

/// The layer that the environment asks for. Keys of a local Langfuse stand in
/// for those that it does not give.
pub fn create_langfuse_layer(environment: LangfuseEnvironment) -> (layer: Option<LangfuseLayer>)
    ensures
        layer is Some,
        layer->0@ == LayerView::initial(
            first_present(
                environment.public_key,
                environment.init_project_public_key,
                "publickey-local"@,
            ),
            first_present(
                environment.secret_key,
                environment.init_project_secret_key,
                "secretkey-local"@,
            ),
            first_present(environment.url, None, DEFAULT_LANGFUSE_URL@),
        ),
{
    let public_key = choose_text(
        environment.public_key,
        environment.init_project_public_key,
        "publickey-local",
    );
    let secret_key = choose_text(
        environment.secret_key,
        environment.init_project_secret_key,
        "secretkey-local",
    );
    Some(LangfuseLayer::new(public_key, secret_key, environment.url))
}

} // verus!
