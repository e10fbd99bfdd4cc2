use chat_api::model_config::{Capabilities, Company, ModelConfig, Provider};

fn model(name: &str, provider: Provider, image_generation: bool) -> ModelConfig {
    ModelConfig {
        name: name.to_string(),
        provider,
        company: Company::Meta,
        max_tokens: 4096,
        capabilities: Capabilities { image_generation, ..Capabilities::default() },
        description: String::new(),
    }
}

#[test]
fn default_model_record() {
    let model = ModelConfig::default();
    assert_eq!(model.name, "gpt-4o");
    assert_eq!(model.provider, Provider::OpenAI);
    assert_eq!(model.company, Company::OpenAI);
    assert_eq!(model.max_tokens, 128000);
    assert_eq!(model.description, "OpenAI's most advanced model");
    assert_eq!(model.capabilities, Capabilities::default());
}

#[test]
fn default_capabilities_are_all_off() {
    let caps = Capabilities::default();
    assert!(!caps.text);
    assert!(!caps.image_generation);
    assert!(!caps.image_understanding);
    assert!(!caps.web_search);
    assert!(!caps.file_upload);
    assert!(!caps.function_calling);
}

#[test]
fn default_model_without_a_list_is_the_fallback() {
    assert_eq!(ModelConfig::default_model(None), ModelConfig::default());
}

#[test]
fn default_model_of_an_empty_list_is_the_fallback() {
    assert_eq!(ModelConfig::default_model(Some(Vec::new())), ModelConfig::default());
}

#[test]
fn default_model_is_the_last_of_the_list() {
    let list = vec![
        model("first", Provider::Google, false),
        model("middle", Provider::Groq, true),
        model("last", Provider::Anthropic, false),
    ];
    assert_eq!(ModelConfig::default_model(Some(list)), model("last", Provider::Anthropic, false));
    let single = vec![model("only", Provider::XAI, true)];
    assert_eq!(ModelConfig::default_model(Some(single)), model("only", Provider::XAI, true));
}

#[test]
fn is_dalle_follows_image_generation() {
    assert!(model("painter", Provider::OpenAI, true).is_dalle());
    assert!(!model("writer", Provider::OpenAI, false).is_dalle());
    assert!(!ModelConfig::default().is_dalle());
}

#[test]
fn clone_is_equal() {
    let model = model("m", Provider::DeepSeek, true);
    assert_eq!(model.clone(), model);
}

#[test]
fn provider_tags() {
    assert_eq!(Provider::OpenAI.as_str(), "openai");
    assert_eq!(Provider::Anthropic.as_str(), "anthropic");
    assert_eq!(Provider::Google.as_str(), "google");
    assert_eq!(Provider::XAI.as_str(), "xai");
    assert_eq!(Provider::Groq.as_str(), "groq");
    assert_eq!(Provider::DeepSeek.as_str(), "deepseek");
    assert_eq!(Provider::OpenRouter.as_str(), "openrouter");
}

#[test]
fn company_tags() {
    assert_eq!(Company::OpenAI.as_str(), "openai");
    assert_eq!(Company::Anthropic.as_str(), "anthropic");
    assert_eq!(Company::Google.as_str(), "google");
    assert_eq!(Company::XAI.as_str(), "xai");
    assert_eq!(Company::DeepSeek.as_str(), "deepseek");
    assert_eq!(Company::Meta.as_str(), "meta");
}
