//! What a layer is made of, what is traced, and what the configuration dialogue
//! offers and makes of the answers.
use serde_json::Value;
use vstd::prelude::*;

use crate::configure::{
    AcceleratorStep, AfterSave, CheckRequest, NameStep, ProcessorStep, Profile, Prompt,
    ProviderStep, RecommendedModels, SaveOutcome, SaveStep,
};
use crate::ids::Purpose;
use crate::ingestion::BatchRequest;
use crate::layer::{LangfuseEnvironment, LangfuseLayer, Level, NewSpan, SpanContext};

verus! {

/// A layer that the environment asks for sends with the keys that the environment
/// gives, whatever else it says; with those of the project where it gives none; and
/// with those of a local Langfuse otherwise. The address is the given one, or that
/// of a local Langfuse.
pub proof fn law_environment_decides_keys_and_address(
    environment: LangfuseEnvironment,
    layer: Option<LangfuseLayer>,
)
    requires
        call_ensures(crate::layer::create_langfuse_layer, (environment,), layer),
    ensures
        layer is Some,
        environment.public_key matches Some(key) ==> layer->0@.public_key == key@,
        environment.public_key is None && environment.init_project_public_key is Some
            ==> layer->0@.public_key == environment.init_project_public_key->0@,
        environment.public_key is None && environment.init_project_public_key is None
            ==> layer->0@.public_key == "publickey-local"@,
        environment.secret_key matches Some(key) ==> layer->0@.secret_key == key@,
        environment.secret_key is None && environment.init_project_secret_key is Some
            ==> layer->0@.secret_key == environment.init_project_secret_key->0@,
        environment.secret_key is None && environment.init_project_secret_key is None
            ==> layer->0@.secret_key == "secretkey-local"@,
        environment.url matches Some(url) ==> layer->0@.base_url == url@,
        environment.url is None ==> layer->0@.base_url == "http://localhost:3000"@,
        layer->0@.batch.len() == 0,
        layer->0@.current_trace_id is None,
        layer->0@.current_observation_id is None,
        forall|span_id: u64| !(#[trigger] layer->0@.active_spans.contains_key(span_id)),
        forall|span_id: u64| !(#[trigger] layer->0@.span_hierarchy.contains_key(span_id)),
{
}

/// A new layer has the keys and the address that it is made with, and has seen
/// nothing.
pub proof fn law_new_layer_has_seen_nothing(
    public_key: String,
    secret_key: String,
    langfuse_url: Option<String>,
    layer: LangfuseLayer,
)
    requires
        call_ensures(LangfuseLayer::new, (public_key, secret_key, langfuse_url), layer),
    ensures
        layer@.public_key == public_key@,
        layer@.secret_key == secret_key@,
        langfuse_url matches Some(url) ==> layer@.base_url == url@,
        langfuse_url is None ==> layer@.base_url == "http://localhost:3000"@,
        layer@.batch.len() == 0,
        layer@.current_trace_id is None,
        layer@.current_observation_id is None,
        forall|span_id: u64| !(#[trigger] layer@.active_spans.contains_key(span_id)),
        forall|span_id: u64| !(#[trigger] layer@.span_hierarchy.contains_key(span_id)),
{
}

/// A batch goes to the ingestion path below the layer's address, with the layer's
/// keys, and carries all that waits; there is none exactly if nothing waits.
pub proof fn law_batch_goes_to_the_layers_langfuse(
    layer: &LangfuseLayer,
    sdk_version: &str,
    request: Option<BatchRequest>,
)
    requires
        call_ensures(LangfuseLayer::send_batch, (layer, sdk_version), request),
    ensures
        request is None <==> layer@.batch.len() == 0,
        request matches Some(batch) ==> {
            &&& batch.url@ == layer@.base_url + "/api/public/ingestion"@
            &&& batch.public_key@ == layer@.public_key
            &&& batch.secret_key@ == layer@.secret_key
            &&& batch.events == layer@.batch.len()
            &&& crate::document_laws::holds(
                crate::json::json_of(batch.payload),
                "batch"@,
                crate::json::Json::Array(layer@.batch),
            )
            &&& crate::json::json_of(batch.payload)->Object_0.contains_key("metadata"@)
            &&& crate::document_laws::holds(
                crate::json::json_of(batch.payload)->Object_0["metadata"@],
                "sdk_version"@,
                crate::json::Json::Str(sdk_version@),
            )
        },
{
    crate::document_laws::law_payload_tells(layer@.batch, sdk_version@);
}

/// Waiting events are sent every five seconds, and Langfuse has ten to answer: twice
/// the time between two batches.
pub proof fn law_langfuse_has_two_intervals_to_answer()
    ensures
        crate::ingestion::SEND_INTERVAL_SECONDS == 5,
        crate::ingestion::ANSWER_TIMEOUT_SECONDS == 2 * crate::ingestion::SEND_INTERVAL_SECONDS,
{
}

/// Spans and events are traced exactly if their target begins with `goose::`.
pub proof fn law_only_goose_is_traced(target: &str, yes: bool)
    requires
        call_ensures(LangfuseLayer::enabled, (target,), yes),
    ensures
        yes <==> "goose::"@.is_prefix_of(target@),
{
}

/// Each level has a name with Langfuse; only the two lowest share theirs.
pub proof fn law_levels_are_told_apart(level: &Level, name: &'static str)
    requires
        call_ensures(LangfuseLayer::map_level, (level,), name),
    ensures
        *level == Level::Error ==> name@ == "ERROR"@,
        *level == Level::Warn ==> name@ == "WARNING"@,
        *level == Level::Info ==> name@ == "DEFAULT"@,
        *level == Level::Debug || *level == Level::Trace ==> name@ == "DEBUG"@,
{
}

/// A span that begins has its own name, level and recorded fields; its parent is the
/// span around the one that the run is in; its identifiers are drawn, each for
/// itself; and it starts at the present time.
pub proof fn law_span_begins_as_it_is(
    span_id: u64,
    name: &str,
    level: &Level,
    current: Option<SpanContext>,
    metadata: serde_json::Map<String, Value>,
    span: NewSpan,
)
    requires
        call_ensures(NewSpan::begin, (span_id, name, level, current, metadata), span),
    ensures
        span.span_id == span_id,
        span.name@ == name@,
        *level == Level::Error ==> span.level@ == "ERROR"@,
        *level == Level::Warn ==> span.level@ == "WARNING"@,
        *level == Level::Info ==> span.level@ == "DEFAULT"@,
        *level == Level::Debug || *level == Level::Trace ==> span.level@ == "DEBUG"@,
        current is None ==> span.parent_span is None,
        current matches Some(around) ==> span.parent_span == around.parent,
        crate::json::fields_of(span.metadata) == crate::json::fields_of(metadata),
        exists|id: String| #[trigger]
            call_ensures(crate::ids::draw_id, (Purpose::Span,), id) && id@ == span.langfuse_id@,
        exists|id: String| #[trigger]
            call_ensures(crate::ids::draw_id, (Purpose::Observation,), id) && id@
                == span.observation_id@,
        exists|moment: crate::clock::Moment| #[trigger]
            call_ensures(crate::clock::now, (), moment) && span.start_time@
                == crate::clock::rfc3339_of(moment.seconds, moment.nanos),
{
    let moment = choose|moment: crate::clock::Moment| #[trigger]
        call_ensures(crate::clock::now, (), moment) && moment.valid() && span.start_time@
            == moment.text();
    assert(call_ensures(crate::clock::now, (), moment));
}

/// What is known of a new span is what it holds.
pub proof fn law_new_span_is_seen_as_it_is(span: NewSpan)
    ensures
        span@.span_id == span.span_id,
        span@.langfuse_id == span.langfuse_id@,
        span@.observation_id == span.observation_id@,
        span@.name == span.name@,
        span@.start_time == span.start_time@,
        span@.level == span.level@,
        span@.parent_span == span.parent_span,
        span@.metadata == crate::json::fields_of(span.metadata),
{
}

/// The present time is written as RFC 3339 writes the instant that the clock gives.
pub proof fn law_present_time_is_the_clocks(text: String)
    requires
        call_ensures(crate::clock::timestamp_now, (), text),
    ensures
        exists|moment: crate::clock::Moment| #[trigger]
            call_ensures(crate::clock::now, (), moment) && text@ == crate::clock::rfc3339_of(
                moment.seconds,
                moment.nanos,
            ),
{
    let moment = choose|moment: crate::clock::Moment| #[trigger]
        call_ensures(crate::clock::now, (), moment) && moment.valid() && text@ == moment.text();
    assert(call_ensures(crate::clock::now, (), moment));
}

/// An instant between the start of 1970 and the last nameable second can be written,
/// and it is written by its own seconds and nanoseconds.
pub proof fn law_moment_is_written_as_it_is(moment: &crate::clock::Moment, text: String)
    requires
        call_ensures(crate::clock::Moment::to_rfc3339, (moment,), text),
    ensures
        text@ == crate::clock::rfc3339_of(moment.seconds, moment.nanos),
        0 <= moment.seconds <= 8_210_266_876_799 && moment.nanos < 1_000_000_000
            <==> moment.valid(),
{
}

/// The span that the run is in is known by its number, and the one around it by the
/// number that comes with it.
pub proof fn law_context_tells_span_and_parent(span: SpanContext)
    ensures
        crate::layer::span_of(Some(span)) == Some(span.id),
        crate::layer::span_of(None) == None::<u64>,
        crate::layer::parent_of(Some(span)) == span.parent,
        crate::layer::parent_of(None) == None::<u64>,
{
}

/// The identifiers of an open span are seen in their order: that with Langfuse, and
/// then the observation's.
pub proof fn law_pair_is_seen_in_order(pair: (String, String))
    ensures
        crate::layer::pair_view(pair).0 == pair.0@,
        crate::layer::pair_view(pair).1 == pair.1@,
{
}

/// A profile that is named is not asked for; else its name is asked for, with
/// `default` offered.
pub proof fn law_named_profile_is_not_asked_for(name: Option<String>, step: NameStep)
    requires
        call_ensures(crate::configure::handle_configure, (name,), step),
    ensures
        name matches Some(given) ==> (step matches NameStep::Known(known) && known@ == given@),
        name is None ==> (step matches NameStep::Ask(prompt) && prompt.message@
            == "Enter profile name:"@ && prompt.default_value@ == "default"@),
{
}

/// For the provider, that of the profile to be replaced is offered, or else the
/// usual one.
pub proof fn law_known_provider_is_offered(
    existing: Option<&Profile>,
    default_provider: &str,
    prompt: Prompt,
)
    requires
        call_ensures(crate::configure::select_provider, (existing, default_provider), prompt),
    ensures
        prompt.message@ == "Select provider:"@,
        existing matches Some(profile) ==> prompt.default_value@ == profile.provider@,
        existing is None ==> prompt.default_value@ == default_provider@,
{
}

/// For the processor, that of the profile to be replaced is offered, or else the
/// recommended one.
pub proof fn law_known_processor_is_offered(
    existing: Option<&Profile>,
    models: &RecommendedModels,
    prompt: Prompt,
)
    requires
        call_ensures(crate::configure::set_processor, (existing, models), prompt),
    ensures
        prompt.message@ == "Enter processor:"@,
        existing matches Some(profile) ==> prompt.default_value@ == profile.processor@,
        existing is None ==> prompt.default_value@ == models.processor@,
{
}

/// For the accelerator, that of the profile to be replaced is offered, or else the
/// recommended one.
pub proof fn law_known_accelerator_is_offered(
    existing: Option<&Profile>,
    models: &RecommendedModels,
    prompt: Prompt,
)
    requires
        call_ensures(crate::configure::set_accelerator, (existing, models), prompt),
    ensures
        prompt.message@ == "Enter accelerator:"@,
        existing matches Some(profile) ==> prompt.default_value@ == profile.accelerator@,
        existing is None ==> prompt.default_value@ == models.accelerator@,
{
}

/// A dialogue for a new profile offers the usual provider and the recommended models,
/// and one that replaces a profile offers what that one holds.
pub proof fn law_dialogue_offers_what_is_known(
    name: String,
    existing: Option<Profile>,
    default_provider: &str,
    first: ProviderStep,
    provider: String,
    models: RecommendedModels,
    second: ProcessorStep,
    processor: Result<String, String>,
    third: Result<AcceleratorStep, String>,
)
    requires
        call_ensures(ProviderStep::begin, (name, existing, default_provider), first),
        call_ensures(ProviderStep::choose_provider, (first, provider, models), second),
        call_ensures(ProcessorStep::choose_processor::<String>, (second, processor), third),
        third is Ok,
    ensures
        existing is Some ==> {
            &&& first.announcement@
                == "Profile already exists. We are going to overwriting the existing profile..."@
            &&& first.prompt.default_value@ == existing->0.provider@
            &&& second.prompt.default_value@ == existing->0.processor@
            &&& third->Ok_0.prompt.default_value@ == existing->0.accelerator@
        },
        existing is None ==> {
            &&& first.announcement@ == "We are creating a new profile..."@
            &&& first.prompt.default_value@ == default_provider@
            &&& second.prompt.default_value@ == models.processor@
            &&& third->Ok_0.prompt.default_value@ == models.accelerator@
        },
        first.prompt.message@ == "Select provider:"@,
        second.prompt.message@ == "Enter processor:"@,
        third->Ok_0.prompt.message@ == "Enter accelerator:"@,
{
}

/// The profile that is saved holds the answers, each in its place and under the name
/// of the profile, and it is its provider and its processor that are tried out.
pub proof fn law_answers_make_the_profile(
    name: String,
    existing: Option<Profile>,
    default_provider: &str,
    first: ProviderStep,
    provider: String,
    models: RecommendedModels,
    second: ProcessorStep,
    processor: String,
    third: AcceleratorStep,
    accelerator: String,
    last: SaveStep,
    request: CheckRequest,
)
    requires
        call_ensures(ProviderStep::begin, (name, existing, default_provider), first),
        call_ensures(ProviderStep::choose_provider, (first, provider, models), second),
        call_ensures(
            ProcessorStep::choose_processor::<String>,
            (second, Ok::<String, String>(processor)),
            Ok::<AcceleratorStep, String>(third),
        ),
        call_ensures(
            AcceleratorStep::choose_accelerator::<String>,
            (third, Ok::<String, String>(accelerator)),
            Ok::<SaveStep, String>(last),
        ),
        call_ensures(SaveStep::check, (&last,), request),
    ensures
        last.profile_name@ == name@,
        last.profile.provider@ == provider@,
        last.profile.processor@ == processor@,
        last.profile.accelerator@ == accelerator@,
        request.provider_name@ == provider@,
        request.model@ == processor@,
{
}

/// A question that fails ends the dialogue with its own reason, and one that is
/// answered never does.
pub proof fn law_failed_question_ends_dialogue(
    second: ProcessorStep,
    third: AcceleratorStep,
    answer: Result<String, String>,
    after_second: Result<AcceleratorStep, String>,
    after_third: Result<SaveStep, String>,
)
    requires
        call_ensures(ProcessorStep::choose_processor::<String>, (second, answer), after_second),
        call_ensures(AcceleratorStep::choose_accelerator::<String>, (third, answer), after_third),
    ensures
        answer is Err ==> after_second is Err && after_second->Err_0 == answer->Err_0,
        answer is Err ==> after_third is Err && after_third->Err_0 == answer->Err_0,
        answer is Ok ==> after_second is Ok && after_third is Ok,
{
}

/// After saving, the profile is tried out and the line tells where it went or why it
/// did not; only a saved profile that cannot be located ends the dialogue.
pub proof fn law_profile_is_tried_out_after_saving(
    request: CheckRequest,
    outcome: SaveOutcome<String>,
    next: AfterSave<String>,
)
    requires
        call_ensures(crate::configure::after_saving::<String>, (request, outcome), next),
    ensures
        outcome is Unlocated <==> next is Stop,
        outcome matches SaveOutcome::Unlocated(reason) ==> next == AfterSave::<String>::Stop(
            reason,
        ),
        next matches AfterSave::Check { line, request: tried } ==> tried == request,
        outcome matches SaveOutcome::Saved(path) ==> next->line@ == "\nProfile saved to: "@ + path@,
        outcome matches SaveOutcome::Refused(reason) ==> next->line@ == "Failed to save profile: "@
            + reason@,
{
}

} // verus!
