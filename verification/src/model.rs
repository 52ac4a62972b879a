//! What a Langfuse layer knows and has yet to send, as a mathematical value, and
//! what each happening makes of it.
use vstd::prelude::*;

use crate::json::Json;

verus! {

/// What a layer knows of the run so far, and the events that wait to be sent.
pub struct LayerView {
    pub public_key: Seq<char>,
    pub secret_key: Seq<char>,
    pub base_url: Seq<char>,
    pub batch: Seq<Json>,
    pub current_trace_id: Option<Seq<char>>,
    pub current_observation_id: Option<Seq<char>>,
    /// For each open span, its identifier with Langfuse and its observation.
    pub active_spans: Map<u64, (Seq<char>, Seq<char>)>,
    /// For each span that began inside another one, the enclosing span.
    pub span_hierarchy: Map<u64, u64>,
}

/// What a new trace is made of: identifiers for the trace and for the event that
/// announces it, and the time.
pub struct TraceSeed {
    pub trace_id: Seq<char>,
    pub event_id: Seq<char>,
    pub moment: crate::clock::Moment,
}

impl TraceSeed {
    /// Whether the identifiers were drawn, each for itself, and the clock gave the time.
    pub open spec fn drawn(self) -> bool {
        &&& crate::ids::is_uuid(self.trace_id)
        &&& crate::ids::is_uuid(self.event_id)
        &&& self.moment.valid()
        &&& crate::ids::is_drawn(crate::ids::Purpose::Trace, self.trace_id)
        &&& crate::ids::is_drawn(crate::ids::Purpose::Announcement, self.event_id)
        &&& call_ensures(crate::clock::now, (), self.moment)
    }
}

/// What is known of a span when it begins.
pub struct NewSpanView {
    pub span_id: u64,
    pub langfuse_id: Seq<char>,
    pub observation_id: Seq<char>,
    pub name: Seq<char>,
    pub start_time: Seq<char>,
    pub level: Seq<char>,
    pub parent_span: Option<u64>,
    pub metadata: Map<Seq<char>, Json>,
}

impl LayerView {
    /// A layer at the start: nothing known, nothing to send.
    pub open spec fn initial(
        public_key: Seq<char>,
        secret_key: Seq<char>,
        base_url: Seq<char>,
    ) -> LayerView {
        LayerView {
            public_key,
            secret_key,
            base_url,
            batch: Seq::empty(),
            current_trace_id: None,
            current_observation_id: None,
            active_spans: Map::empty(),
            span_hierarchy: Map::empty(),
        }
    }

    /// One more event waits to be sent.
    pub open spec fn pushed(self, event: Json) -> LayerView {
        LayerView { batch: self.batch.push(event), ..self }
    }

    /// A trace has begun and is announced.
    pub open spec fn trace_created(
        self,
        trace_id: Seq<char>,
        event_id: Seq<char>,
        timestamp: Seq<char>,
        seconds: int,
    ) -> LayerView {
        LayerView { current_trace_id: Some(trace_id), ..self }.pushed(
            crate::events::trace_create_json(event_id, timestamp, trace_id, seconds),
        )
    }

    /// Whether `after` comes of seeing to it that there is a trace: nothing
    /// changes where there is one, and else one begins.
    pub open spec fn traces_to(self, after: LayerView) -> bool {
        match self.current_trace_id {
            Some(_) => after == self,
            None => exists|seed: TraceSeed|
                #[trigger] seed.drawn() && after == self.trace_created(
                    seed.trace_id,
                    seed.event_id,
                    seed.moment.text(),
                    seed.moment.seconds as int,
                ),
        }
    }

    /// The observation of an open span.
    pub open spec fn observation(self, span_id: u64) -> Option<Seq<char>> {
        if self.active_spans.contains_key(span_id) {
            Some(self.active_spans[span_id].1)
        } else {
            None
        }
    }

    /// The observation of the span that encloses the given one, if that span is
    /// still open.
    pub open spec fn parent_observation(self, span_id: u64) -> Option<Seq<char>> {
        if self.span_hierarchy.contains_key(span_id) {
            self.observation(self.span_hierarchy[span_id])
        } else {
            None
        }
    }

    /// The observation under which a span is filed that begins inside
    /// `parent_span`: that of the span which encloses `parent_span`.
    pub open spec fn filed_under(self, parent_span: Option<u64>) -> Option<Seq<char>> {
        match parent_span {
            Some(parent) => self.parent_observation(parent),
            None => None,
        }
    }

    /// A span has begun within the trace.
    pub open spec fn span_opened(
        self,
        span: NewSpanView,
        event_id: Seq<char>,
    ) -> LayerView
        recommends
            self.current_trace_id is Some,
    {
        LayerView {
            active_spans: self.active_spans.insert(
                span.span_id,
                (span.langfuse_id, span.observation_id),
            ),
            span_hierarchy: match span.parent_span {
                Some(parent) => self.span_hierarchy.insert(span.span_id, parent),
                None => self.span_hierarchy,
            },
            ..self
        }.pushed(
            crate::events::observation_create_json(
                event_id,
                span.start_time,
                span.observation_id,
                self.current_trace_id->0,
                span.name,
                self.filed_under(span.parent_span),
                span.metadata,
                span.level,
            ),
        )
    }

    /// A span has ended within the trace. One that is not open leaves no mark.
    pub open spec fn span_closed(
        self,
        span_id: u64,
        end_time: Seq<char>,
        event_id: Seq<char>,
    ) -> LayerView
        recommends
            self.current_trace_id is Some,
    {
        match self.observation(span_id) {
            Some(observation_id) => LayerView {
                active_spans: self.active_spans.remove(span_id),
                ..self
            }.pushed(
                crate::events::observation_end_json(event_id, end_time, observation_id, self.current_trace_id->0),
            ),
            None => self,
        }
    }

    /// A span has recorded fields within the trace. One that is not open leaves no
    /// mark, nor does a record without fields.
    pub open spec fn span_recorded(
        self,
        span_id: u64,
        metadata: Map<Seq<char>, Json>,
        event_id: Seq<char>,
        timestamp: Seq<char>,
    ) -> LayerView
        recommends
            self.current_trace_id is Some,
    {
        if metadata.dom().is_empty() {
            self
        } else {
            match self.observation(span_id) {
                Some(observation_id) => self.pushed(
                    crate::events::observation_record_json(
                        event_id,
                        timestamp,
                        observation_id,
                        self.current_trace_id->0,
                        metadata,
                    ),
                ),
                None => self,
            }
        }
    }

    /// Something was logged within the trace: inside a span, or outside of any.
    /// Inside a span that is not open it leaves no mark.
    pub open spec fn event_logged(
        self,
        span_id: Option<u64>,
        metadata: Map<Seq<char>, Json>,
        event_id: Seq<char>,
        timestamp: Seq<char>,
    ) -> LayerView
        recommends
            self.current_trace_id is Some,
    {
        if self.silent(span_id) {
            self
        } else {
            self.pushed(
                crate::events::event_create_json(
                    event_id,
                    timestamp,
                    self.current_trace_id->0,
                    self.logged_under(span_id),
                    crate::events::event_name_of(metadata),
                    metadata,
                ),
            )
        }
    }

    /// Whether what is logged inside a span goes unnoticed: the span is not open.
    pub open spec fn silent(self, span_id: Option<u64>) -> bool {
        match span_id {
            Some(id) => self.observation(id) is None,
            None => false,
        }
    }

    /// The observation under which something is filed that is logged inside a
    /// span, or outside of any.
    pub open spec fn logged_under(self, span_id: Option<u64>) -> Option<Seq<char>> {
        match span_id {
            Some(id) => self.observation(id),
            None => None,
        }
    }

    /// The run has entered a span. One that is not open changes nothing.
    pub open spec fn span_entered(self, span_id: u64) -> LayerView {
        match self.observation(span_id) {
            Some(observation_id) => LayerView {
                current_observation_id: Some(observation_id),
                ..self
            },
            None => self,
        }
    }

    /// The run has left a span and is back in the given one, or in none.
    pub open spec fn span_exited(self, parent_span: Option<u64>) -> LayerView {
        LayerView { current_observation_id: self.logged_under(parent_span), ..self }
    }

    /// Whether `after` can come of a span's beginning.
    pub open spec fn opens_to(self, span: NewSpanView, after: LayerView) -> bool {
        exists|traced: LayerView, event_id: Seq<char>| #[trigger]
            self.traces_to(traced) && #[trigger] crate::ids::is_drawn(
                crate::ids::Purpose::Event,
                event_id,
            ) && after == traced.span_opened(span, event_id)
    }

    /// Whether `after` can come of a span's end.
    pub open spec fn closes_to(
        self,
        span_id: u64,
        end_time: Seq<char>,
        after: LayerView,
    ) -> bool {
        match self.observation(span_id) {
            None => after == self,
            Some(_) => exists|traced: LayerView, event_id: Seq<char>| #[trigger]
                self.traces_to(traced) && #[trigger] crate::ids::is_drawn(
                    crate::ids::Purpose::Event,
                    event_id,
                ) && after == traced.span_closed(span_id, end_time, event_id),
        }
    }

    /// Whether `after` can come of a span's recording fields.
    pub open spec fn records_to(
        self,
        span_id: u64,
        metadata: Map<Seq<char>, Json>,
        after: LayerView,
    ) -> bool {
        if metadata.dom().is_empty() || self.observation(span_id) is None {
            after == self
        } else {
            exists|traced: LayerView, event_id: Seq<char>, timestamp: Seq<char>| #[trigger]
                self.traces_to(traced) && #[trigger] crate::ids::is_drawn(
                    crate::ids::Purpose::Event,
                    event_id,
                ) && #[trigger] crate::clock::is_timestamp(timestamp) && after == traced.span_recorded(
                    span_id,
                    metadata,
                    event_id,
                    timestamp,
                )
        }
    }

    /// Whether `after` can come of something's being logged, inside a span or
    /// outside of any.
    pub open spec fn logs_to(
        self,
        span_id: Option<u64>,
        metadata: Map<Seq<char>, Json>,
        after: LayerView,
    ) -> bool {
        if self.silent(span_id) {
            after == self
        } else {
            exists|traced: LayerView, event_id: Seq<char>, timestamp: Seq<char>| #[trigger]
                self.traces_to(traced) && #[trigger] crate::ids::is_drawn(
                    crate::ids::Purpose::Event,
                    event_id,
                ) && #[trigger] crate::clock::is_timestamp(timestamp) && after == traced.event_logged(
                    span_id,
                    metadata,
                    event_id,
                    timestamp,
                )
        }
    }

    /// The first so many of the waiting events have been taken.
    pub open spec fn sent(self, count: nat) -> LayerView {
        LayerView {
            batch: self.batch.skip(
                if count <= self.batch.len() {
                    count as int
                } else {
                    self.batch.len() as int
                },
            ),
            ..self
        }
    }

    /// The reply to a batch of the first so many of the waiting events is in.
    pub open spec fn replied(self, count: nat, reply: crate::ingestion::BatchReply) -> LayerView {
        if reply.accepts() {
            self.sent(count)
        } else {
            self
        }
    }
}

} // verus!
