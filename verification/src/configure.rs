//! The dialogue that configures a profile.
//!
//! Each step of the dialogue is a value that says what to ask or to do next, and
//! takes the answer to the following step: the name of the profile, the provider,
//! the processor, the accelerator, saving, and a first request as a trial.
use vstd::prelude::*;
use vstd::string::*;

verus! {

/// The name of a profile that nobody names.
pub const DEFAULT_PROFILE_NAME: &'static str = "default";

/// What the model is told of itself in the trial request.
pub const CHECK_SYSTEM: &'static str =
    "You are an AI agent called Goose. You use tools of connected systems to solve problems.";

/// What the model is asked in the trial request.
pub const CHECK_MESSAGE: &'static str =
    "Please give a nice welcome messsage (one sentence) and let them know they are all set to use this agent ";

/// Which provider and which models an agent uses.
#[derive(Debug)]
pub struct Profile {
    pub provider: String,
    pub processor: String,
    pub accelerator: String,
}

/// The names that a profile holds.
pub struct ProfileView {
    pub provider: Seq<char>,
    pub processor: Seq<char>,
    pub accelerator: Seq<char>,
}

impl View for Profile {
    type V = ProfileView;

    open spec fn view(&self) -> ProfileView {
        ProfileView {
            provider: self.provider@,
            processor: self.processor@,
            accelerator: self.accelerator@,
        }
    }
}

/// The models that suit a provider.
#[derive(Clone, Copy, Debug)]
pub struct RecommendedModels {
    pub processor: &'static str,
    pub accelerator: &'static str,
}

/// A question, and the answer that is offered with it.
#[derive(Debug)]
pub struct Prompt {
    pub message: &'static str,
    pub default_value: String,
}

impl Prompt {
    /// Whether this is the given question, with the given answer offered.
    pub open spec fn asks(self, message: Seq<char>, default_value: Seq<char>) -> bool {
        &&& self.message@ == message
        &&& self.default_value@ == default_value
    }
}

/// The provider that is offered: that of the profile to be replaced, if any.
pub open spec fn offered_provider(
    existing: Option<ProfileView>,
    default_provider: Seq<char>,
) -> Seq<char> {
    match existing {
        Some(profile) => profile.provider,
        None => default_provider,
    }
}

/// The processor that is offered: that of the profile to be replaced, or else
/// the recommended one.
pub open spec fn offered_processor(
    existing: Option<ProfileView>,
    models: RecommendedModels,
) -> Seq<char> {
    match existing {
        Some(profile) => profile.processor,
        None => models.processor@,
    }
}

/// The accelerator that is offered: that of the profile to be replaced, or else
/// the recommended one.
pub open spec fn offered_accelerator(
    existing: Option<ProfileView>,
    models: RecommendedModels,
) -> Seq<char> {
    match existing {
        Some(profile) => profile.accelerator,
        None => models.accelerator@,
    }
}

/// The names that an optional profile holds.
pub open spec fn existing_view(existing: Option<Profile>) -> Option<ProfileView> {
    match existing {
        Some(profile) => Some(profile@),
        None => None,
    }
}

/// The names that an optional profile holds.
pub open spec fn borrowed_view(existing: Option<&Profile>) -> Option<ProfileView> {
    match existing {
        Some(profile) => Some(profile@),
        None => None,
    }
}

/// How a dialogue begins: with the name of the profile, or with asking for it.
#[derive(Debug)]
pub enum NameStep {
    Ask(Prompt),
    Known(String),
}

/// The profile has a name: what to tell of it, and which provider to ask for.
#[derive(Debug)]
pub struct ProviderStep {
    pub profile_name: String,
    pub existing: Option<Profile>,
    pub announcement: &'static str,
    pub prompt: Prompt,
}

/// The provider is chosen: which processor to ask for.
#[derive(Debug)]
pub struct ProcessorStep {
    pub profile_name: String,
    pub existing: Option<Profile>,
    pub provider: String,
    pub models: RecommendedModels,
    pub prompt: Prompt,
}

/// The processor is chosen: which accelerator to ask for.
#[derive(Debug)]
pub struct AcceleratorStep {
    pub profile_name: String,
    pub provider: String,
    pub processor: String,
    pub prompt: Prompt,
}

/// Everything is chosen: the profile to save, and its name.
#[derive(Debug)]
pub struct SaveStep {
    pub profile_name: String,
    pub profile: Profile,
}

/// The request that tries a profile out.
#[derive(Debug)]
pub struct CheckRequest {
    pub provider_name: String,
    pub model: String,
    pub system: &'static str,
    pub message: &'static str,
}

/// What came of saving a profile.
#[derive(Debug)]
pub enum SaveOutcome<E> {
    /// It was saved; with the place.
    Saved(String),
    /// It was saved, but the place could not be found out; with the reason.
    Unlocated(E),
    /// It could not be saved; with the reason.
    Refused(String),
}

/// What follows on saving a profile.
#[derive(Debug)]
pub enum AfterSave<E> {
    /// The dialogue ends; with the reason.
    Stop(E),
    /// A line is to be told, and the profile to be tried out.
    Check { line: String, request: CheckRequest },
}

/// Begins the dialogue, for a profile that may have been named already.
pub fn handle_configure(provided_profile_name: Option<String>) -> (step: NameStep)
    ensures
        match provided_profile_name {
            Some(name) => step matches NameStep::Known(known) && known@ == name@,
            None => step matches NameStep::Ask(prompt) && prompt.asks(
                "Enter profile name:"@,
                DEFAULT_PROFILE_NAME@,
            ),
        },
{
    match provided_profile_name {
        Some(name) => NameStep::Known(name),
        None => NameStep::Ask(
            Prompt {
                message: "Enter profile name:",
                default_value: DEFAULT_PROFILE_NAME.to_owned(),
            },
        ),
    }
}

/// What to tell of a profile that was found under the name, or of none.
pub fn get_existing_profile(existing_profile: Option<&Profile>) -> (announcement: &'static str)
    ensures
        announcement@ == if existing_profile is Some {
            "Profile already exists. We are going to overwriting the existing profile..."@
        } else {
            "We are creating a new profile..."@
        },
{
    if existing_profile.is_some() {
        "Profile already exists. We are going to overwriting the existing profile..."
    } else {
        "We are creating a new profile..."
    }
}

/// The question for the provider.
pub fn select_provider(existing_profile: Option<&Profile>, default_provider: &str) -> (prompt:
    Prompt)
    ensures
        prompt.asks(
            "Select provider:"@,
            offered_provider(borrowed_view(existing_profile), default_provider@),
        ),
{
    let default_value = match existing_profile {
        Some(profile) => profile.provider.clone(),
        None => default_provider.to_owned(),
    };
    Prompt { message: "Select provider:", default_value }
}

/// The question for the processor.
pub fn set_processor(
    existing_profile: Option<&Profile>,
    recommended_models: &RecommendedModels,
) -> (prompt: Prompt)
    ensures
        prompt.asks(
            "Enter processor:"@,
            offered_processor(borrowed_view(existing_profile), *recommended_models),
        ),
{
    let default_value = match existing_profile {
        Some(profile) => profile.processor.clone(),
        None => recommended_models.processor.to_owned(),
    };
    Prompt { message: "Enter processor:", default_value }
}

/// The question for the accelerator.
pub fn set_accelerator(
    existing_profile: Option<&Profile>,
    recommended_models: &RecommendedModels,
) -> (prompt: Prompt)
    ensures
        prompt.asks(
            "Enter accelerator:"@,
            offered_accelerator(borrowed_view(existing_profile), *recommended_models),
        ),
{
    let default_value = match existing_profile {
        Some(profile) => profile.accelerator.clone(),
        None => recommended_models.accelerator.to_owned(),
    };
    Prompt { message: "Enter accelerator:", default_value }
}

/// The request that tries a provider and a model out.
pub fn check_configuration(provider_name: &str, processor: &str) -> (request: CheckRequest)
    ensures
        request.provider_name@ == provider_name@,
        request.model@ == processor@,
        request.system@ == CHECK_SYSTEM@,
        request.message@ == CHECK_MESSAGE@,
{
    CheckRequest {
        provider_name: provider_name.to_owned(),
        model: processor.to_owned(),
        system: CHECK_SYSTEM,
        message: CHECK_MESSAGE,
    }
}

impl ProviderStep {
    /// Goes on with a named profile, and the one that was found under the name.
    pub fn begin(profile_name: String, existing: Option<Profile>, default_provider: &str) -> (step:
        ProviderStep)
        ensures
            step.profile_name@ == profile_name@,
            existing_view(step.existing) == existing_view(existing),
            step.announcement@ == if existing is Some {
                "Profile already exists. We are going to overwriting the existing profile..."@
            } else {
                "We are creating a new profile..."@
            },
            step.prompt.asks(
                "Select provider:"@,
                offered_provider(existing_view(existing), default_provider@),
            ),
    {
        let announcement = get_existing_profile(existing.as_ref());
        let prompt = select_provider(existing.as_ref(), default_provider);
        ProviderStep { profile_name, existing, announcement, prompt }
    }

    /// Goes on with the chosen provider, and the models that suit it.
    pub fn choose_provider(self, provider: String, models: RecommendedModels) -> (step:
        ProcessorStep)
        ensures
            step.profile_name@ == self.profile_name@,
            existing_view(step.existing) == existing_view(self.existing),
            step.provider@ == provider@,
            step.models == models,
            step.prompt.asks(
                "Enter processor:"@,
                offered_processor(existing_view(self.existing), models),
            ),
    {
        let prompt = set_processor(self.existing.as_ref(), &models);
        ProcessorStep {
            profile_name: self.profile_name,
            existing: self.existing,
            provider,
            models,
            prompt,
        }
    }
}

impl ProcessorStep {
    /// Goes on with the chosen processor. Where none could be asked for, the
    /// dialogue ends.
    pub fn choose_processor<E>(self, answer: Result<String, E>) -> (next: Result<
        AcceleratorStep,
        E,
    >)
        ensures
            match answer {
                Ok(processor) => {
                    &&& next is Ok
                    &&& next->Ok_0.profile_name@ == self.profile_name@
                    &&& next->Ok_0.provider@ == self.provider@
                    &&& next->Ok_0.processor@ == processor@
                    &&& next->Ok_0.prompt.asks(
                        "Enter accelerator:"@,
                        offered_accelerator(existing_view(self.existing), self.models),
                    )
                },
                Err(reason) => next == Err::<AcceleratorStep, E>(reason),
            },
    {
        match answer {
            Ok(processor) => {
                let prompt = set_accelerator(self.existing.as_ref(), &self.models);
                Ok(
                    AcceleratorStep {
                        profile_name: self.profile_name,
                        provider: self.provider,
                        processor,
                        prompt,
                    },
                )
            },
            Err(reason) => Err(reason),
        }
    }
}

impl AcceleratorStep {
    /// Goes on with the chosen accelerator. Where none could be asked for, the
    /// dialogue ends.
    pub fn choose_accelerator<E>(self, answer: Result<String, E>) -> (next: Result<SaveStep, E>)
        ensures
            match answer {
                Ok(accelerator) => {
                    &&& next is Ok
                    &&& next->Ok_0.profile_name@ == self.profile_name@
                    &&& next->Ok_0.profile@ == (ProfileView {
                        provider: self.provider@,
                        processor: self.processor@,
                        accelerator: accelerator@,
                    })
                },
                Err(reason) => next == Err::<SaveStep, E>(reason),
            },
    {
        match answer {
            Ok(accelerator) => Ok(
                SaveStep {
                    profile_name: self.profile_name,
                    profile: Profile {
                        provider: self.provider,
                        processor: self.processor,
                        accelerator,
                    },
                },
            ),
            Err(reason) => Err(reason),
        }
    }
}

impl SaveStep {
    /// The request that tries the profile out.
    pub fn check(&self) -> (request: CheckRequest)
        ensures
            request.provider_name@ == self.profile@.provider,
            request.model@ == self.profile@.processor,
            request.system@ == CHECK_SYSTEM@,
            request.message@ == CHECK_MESSAGE@,
    {
        check_configuration(self.profile.provider.as_str(), self.profile.processor.as_str())
    }
}

/// Goes on after saving. The profile is tried out whether or not it could be
/// saved; only where a saved profile cannot be located does the dialogue end.
pub fn after_saving<E>(request: CheckRequest, outcome: SaveOutcome<E>) -> (next: AfterSave<E>)
    ensures
        match outcome {
            SaveOutcome::Saved(path) => {
                &&& next is Check
                &&& next->line@ == "\nProfile saved to: "@ + path@
                &&& next->request == request
            },
            SaveOutcome::Refused(reason) => {
                &&& next is Check
                &&& next->line@ == "Failed to save profile: "@ + reason@
                &&& next->request == request
            },
            SaveOutcome::Unlocated(reason) => next == AfterSave::Stop(reason),
        },
{
    match outcome {
        SaveOutcome::Saved(path) => {
            let mut line = "\nProfile saved to: ".to_owned();
            line.append(path.as_str());
            AfterSave::Check { line, request }
        },
        SaveOutcome::Refused(reason) => {
            let mut line = "Failed to save profile: ".to_owned();
            line.append(reason.as_str());
            AfterSave::Check { line, request }
        },
        SaveOutcome::Unlocated(reason) => AfterSave::Stop(reason),
    }
}

} // verus!
