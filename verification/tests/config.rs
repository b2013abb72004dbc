use nlsh_rs::config::migration::{
    can_migrate_config, can_migrate_explain_prompt, migrate_config, migrate_explain_prompt,
    OLD_EXPLAIN_PROMPT_V1,
};
use nlsh_rs::config::{
    configure_gemini, configure_ollama, configure_openai, offers_saved_credentials, provider_key,
    provider_label, set_model_name, store_provider, Config, GeminiConfig, MultiProviderConfig,
    OllamaConfig, OpenAIConfig, ProviderSpecificConfig, GEMINI_DEFAULT_MODEL, OLLAMA_DEFAULT_URL,
    OPENAI_DEFAULT_URL, PROVIDER_COUNT,
};
use nlsh_rs::prompt::DEFAULT_EXPLAIN_PROMPT;

fn providers() -> MultiProviderConfig {
    MultiProviderConfig {
        gemini: Some(GeminiConfig { api_key: "k".to_string(), model: "g".to_string() }),
        ollama: Some(OllamaConfig { base_url: "http://o".to_string(), model: "l".to_string() }),
        openai: None,
    }
}

fn config(active: &str) -> Config {
    Config { active_provider: active.to_string(), providers: providers() }
}

#[test]
fn the_active_provider_is_found() {
    let gemini = config("gemini").get_provider_config();
    assert_eq!(gemini.provider_type, "gemini");
    assert_eq!(
        gemini.config,
        ProviderSpecificConfig::Gemini {
            gemini: GeminiConfig { api_key: "k".to_string(), model: "g".to_string() }
        }
    );
    assert_eq!(gemini.config.model(), "g");
    let ollama = config("ollama").find_provider_config().unwrap();
    assert_eq!(ollama.provider_type, "ollama");
    assert_eq!(ollama.config.model(), "l");
}

#[test]
fn a_provider_without_settings_is_not_found() {
    assert_eq!(config("openai").find_provider_config(), None);
    assert_eq!(config("other").find_provider_config(), None);
    assert_eq!(config("").find_provider_config(), None);
    assert_eq!(config("Gemini").find_provider_config(), None);
}

#[test]
fn settings_are_stored_by_kind() {
    let mut all = MultiProviderConfig::new();
    assert_eq!(all, MultiProviderConfig { gemini: None, ollama: None, openai: None });
    let openai = configure_openai("http://x/v1".to_string(), None, "m".to_string());
    store_provider(&mut all, &openai);
    assert_eq!(
        all.openai,
        Some(OpenAIConfig { base_url: "http://x/v1".to_string(), api_key: None, model: "m".to_string() })
    );
    assert!(all.gemini.is_none() && all.ollama.is_none());
    store_provider(&mut all, &configure_gemini("key".to_string(), "flash".to_string()));
    store_provider(&mut all, &configure_ollama("http://o".to_string(), "llama".to_string()));
    store_provider(&mut all, &configure_openai("u".to_string(), Some("s".to_string()), "n".to_string()));
    assert_eq!(all.gemini.unwrap().model, "flash");
    assert_eq!(all.ollama.unwrap().base_url, "http://o");
    assert_eq!(all.openai.unwrap().api_key.as_deref(), Some("s"));
    assert_eq!(openai.provider_type, "openai");
}

#[test]
fn saved_credentials_are_offered_for_another_provider_only() {
    let all = providers();
    assert!(offers_saved_credentials(0, Some("ollama"), &all));
    assert!(!offers_saved_credentials(0, Some("gemini"), &all));
    assert!(offers_saved_credentials(1, None, &all));
    assert!(!offers_saved_credentials(2, Some("gemini"), &all));
    assert!(!offers_saved_credentials(2, None, &all));
}

#[test]
fn the_kinds_of_provider() {
    assert_eq!(PROVIDER_COUNT, 3);
    let keys: Vec<&str> = (0..PROVIDER_COUNT).map(provider_key).collect();
    assert_eq!(keys, ["gemini", "ollama", "openai"]);
    let labels: Vec<&str> = (0..PROVIDER_COUNT).map(provider_label).collect();
    assert_eq!(labels, ["Gemini API", "Ollama", "OpenAI Compatible"]);
    assert_eq!(GEMINI_DEFAULT_MODEL, "gemini-flash-latest");
    assert_eq!(OLLAMA_DEFAULT_URL, "http://localhost:11434");
    assert_eq!(OPENAI_DEFAULT_URL, "https://api.openai.com/v1");
}

#[test]
fn a_blank_model_name_is_refused() {
    assert!(set_model_name("llama3"));
    assert!(set_model_name(" x "));
    assert!(!set_model_name(""));
    assert!(!set_model_name(" \t\n"));
}

#[test]
fn a_configuration_of_the_first_version_is_recognised() {
    assert!(can_migrate_config("[provider]\ntype = \"ollama\"\n"));
    assert!(!can_migrate_config("provider = \"ollama\"\n"));
    assert!(!can_migrate_config("[provider]\nkind = 1\n"));
    let upgraded = migrate_config("ollama".to_string(), providers());
    assert_eq!(upgraded, config("ollama"));
}

#[test]
fn the_first_explain_prompt_is_renewed() {
    assert!(can_migrate_explain_prompt(OLD_EXPLAIN_PROMPT_V1));
    assert!(!can_migrate_explain_prompt("describe: {command}"));
    assert_eq!(
        migrate_explain_prompt(Some(OLD_EXPLAIN_PROMPT_V1)).as_deref(),
        Some(DEFAULT_EXPLAIN_PROMPT)
    );
    assert_eq!(migrate_explain_prompt(Some("mine")), None);
    assert_eq!(migrate_explain_prompt(None), None);
}
