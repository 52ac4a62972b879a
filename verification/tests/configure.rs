use goose_cli::configure::{
    after_saving, check_configuration, get_existing_profile, handle_configure, select_provider,
    set_accelerator, set_processor, AfterSave, NameStep, Profile, ProviderStep, RecommendedModels,
    SaveOutcome,
};

const MODELS: RecommendedModels = RecommendedModels { processor: "big", accelerator: "small" };

fn profile() -> Profile {
    Profile {
        provider: "databricks".to_string(),
        processor: "slow".to_string(),
        accelerator: "fast".to_string(),
    }
}

fn said(text: &str) -> Result<String, String> {
    Ok(text.to_string())
}

fn unsaid() -> Result<String, String> {
    Err("closed".to_string())
}

#[test]
fn given_name_is_not_asked_for() {
    assert!(matches!(
        handle_configure(Some("work".to_string())),
        NameStep::Known(name) if name == "work"
    ));
}

#[test]
fn missing_name_is_asked_for() {
    match handle_configure(None) {
        NameStep::Ask(prompt) => {
            assert_eq!(prompt.message, "Enter profile name:");
            assert_eq!(prompt.default_value, "default");
        }
        NameStep::Known(_) => panic!("nobody named the profile"),
    }
}

#[test]
fn existing_profile_is_announced() {
    assert_eq!(
        get_existing_profile(Some(&profile())),
        "Profile already exists. We are going to overwriting the existing profile..."
    );
    assert_eq!(get_existing_profile(None), "We are creating a new profile...");
}

#[test]
fn existing_profile_is_offered() {
    let existing = profile();
    let provider = select_provider(Some(&existing), "openai");
    assert_eq!((provider.message, provider.default_value.as_str()), ("Select provider:", "databricks"));
    let processor = set_processor(Some(&existing), &MODELS);
    assert_eq!((processor.message, processor.default_value.as_str()), ("Enter processor:", "slow"));
    let accelerator = set_accelerator(Some(&existing), &MODELS);
    assert_eq!((accelerator.message, accelerator.default_value.as_str()), ("Enter accelerator:", "fast"));
}

#[test]
fn recommended_models_are_offered_for_a_new_profile() {
    assert_eq!(select_provider(None, "openai").default_value, "openai");
    assert_eq!(set_processor(None, &MODELS).default_value, "big");
    assert_eq!(set_accelerator(None, &MODELS).default_value, "small");
}

#[test]
fn answers_make_the_profile() {
    let provider = ProviderStep::begin("work".to_string(), None, "openai");
    assert_eq!(provider.announcement, "We are creating a new profile...");
    assert_eq!(provider.prompt.default_value, "openai");
    let processor = provider.choose_provider("ollama".to_string(), MODELS);
    assert_eq!(processor.prompt.message, "Enter processor:");
    assert_eq!(processor.prompt.default_value, "big");
    let accelerator = processor.choose_processor(said("p")).unwrap();
    assert_eq!(accelerator.prompt.message, "Enter accelerator:");
    assert_eq!(accelerator.prompt.default_value, "small");
    let save = accelerator.choose_accelerator(said("a")).unwrap();
    assert_eq!(save.profile_name, "work");
    assert_eq!(save.profile.provider, "ollama");
    assert_eq!(save.profile.processor, "p");
    assert_eq!(save.profile.accelerator, "a");
    let request = save.check();
    assert_eq!(request.provider_name, "ollama");
    assert_eq!(request.model, "p");
}

#[test]
fn accepting_every_offer_keeps_the_profile() {
    let provider = ProviderStep::begin("work".to_string(), Some(profile()), "openai");
    let chosen = provider.prompt.default_value.clone();
    let processor = provider.choose_provider(chosen, MODELS);
    let chosen = processor.prompt.default_value.clone();
    let accelerator = processor.choose_processor(said(&chosen)).unwrap();
    let chosen = accelerator.prompt.default_value.clone();
    let save = accelerator.choose_accelerator(said(&chosen)).unwrap();
    assert_eq!(save.profile.provider, "databricks");
    assert_eq!(save.profile.processor, "slow");
    assert_eq!(save.profile.accelerator, "fast");
}

#[test]
fn failed_question_ends_the_dialogue() {
    let begin = || {
        ProviderStep::begin("work".to_string(), None, "openai")
            .choose_provider("ollama".to_string(), MODELS)
    };
    assert_eq!(begin().choose_processor(unsaid()).unwrap_err(), "closed");
    let accelerator = begin().choose_processor(said("p")).unwrap();
    assert_eq!(accelerator.choose_accelerator(unsaid()).unwrap_err(), "closed");
}

fn after(outcome: SaveOutcome<String>) -> Result<(String, String, String), String> {
    match after_saving(check_configuration("openai", "big"), outcome) {
        AfterSave::Stop(reason) => Err(reason),
        AfterSave::Check { line, request } => Ok((line, request.provider_name, request.model)),
    }
}

#[test]
fn saved_profile_is_tried_out() {
    assert_eq!(
        after(SaveOutcome::Saved("\"/home/profiles\"".to_string())),
        Ok((
            "\nProfile saved to: \"/home/profiles\"".to_string(),
            "openai".to_string(),
            "big".to_string()
        ))
    );
}

#[test]
fn profile_that_could_not_be_saved_is_tried_out_too() {
    assert_eq!(
        after(SaveOutcome::Refused("full".to_string())),
        Ok((
            "Failed to save profile: full".to_string(),
            "openai".to_string(),
            "big".to_string()
        ))
    );
}

#[test]
fn profile_that_cannot_be_located_ends_the_dialogue() {
    assert_eq!(after(SaveOutcome::Unlocated("no home".to_string())), Err("no home".to_string()));
}

#[test]
fn trial_request_asks_for_a_welcome() {
    let request = check_configuration("openai", "big");
    assert_eq!(request.provider_name, "openai");
    assert_eq!(request.model, "big");
    assert_eq!(
        request.system,
        "You are an AI agent called Goose. You use tools of connected systems to solve problems."
    );
    assert_eq!(
        request.message,
        "Please give a nice welcome messsage (one sentence) and let them know they are all set to use this agent "
    );
}
