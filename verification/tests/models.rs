use corgiterm::models::{cache_ttl, cache_valid, CachedModelList};
use corgiterm::models::{
    create_openai_model, extract_model_family, format_gemini_name,
    format_ollama_name, format_openai_name, ModelInfo,
};

#[test]
fn test_format_ollama_name() {
    assert_eq!(format_ollama_name("llama3.2:3b"), "Llama 3.2 (3B)");
    assert_eq!(format_ollama_name("mistral:latest"), "Mistral (LATEST)");
}

#[test]
fn test_format_openai_name() {
    assert_eq!(format_openai_name("gpt-4o"), "GPT-4o");
    assert_eq!(format_openai_name("gpt-4o-mini"), "GPT-4o Mini");
}

#[test]
fn test_model_info_new() {
    let model = ModelInfo::new("gpt-4o", "openai");
    assert_eq!(model.id, "gpt-4o");
    assert_eq!(model.provider, "openai");
}

#[test]
fn other_names() {
    assert_eq!(format_openai_name("my-model"), "my-model");
    assert_eq!(format_gemini_name("gemini-1.5-flash-8b"), "Gemini 1.5 Flash 8B");
    assert_eq!(format_ollama_name("codellama:7b"), "codeLlama (7B)");
    assert_eq!(format_ollama_name("phi3"), "Phi 3");
    assert_eq!(format_ollama_name("deepseek-r1:1.5b:x"), "DeepSeek -r1 (1.5B)");
}

#[test]
fn families_and_builders() {
    assert_eq!(extract_model_family("gpt-4o-mini"), Some("GPT-4".to_string()));
    assert_eq!(extract_model_family("gpt-3.5-turbo"), Some("GPT-3.5".to_string()));
    assert_eq!(extract_model_family("o3-mini"), Some("o3".to_string()));
    assert_eq!(extract_model_family("davinci"), None);
    let m = create_openai_model("gpt-4-turbo", "GPT-4 Turbo", 128000, false);
    assert!(m.supports_vision && m.supports_tools);
    assert_eq!(m.family, Some("GPT-4".to_string()));
    assert!(!create_openai_model("gpt-4", "GPT-4", 8192, false).supports_vision);
}

#[test]
fn model_cache_validity() {
    assert_eq!(cache_ttl("ollama", 3_600_000, 300_000), 300_000);
    assert_eq!(cache_ttl("openai", 3_600_000, 300_000), 3_600_000);
    assert!(cache_valid(1_000, 1_999, 1_000));
    assert!(!cache_valid(1_000, 2_000, 1_000));
    assert!(cache_valid(5_000, 1_000, 1));
    assert!(cache_valid(i64::MAX, i64::MIN, 0));
    assert!(!cache_valid(i64::MIN, i64::MAX, i64::MAX));
    let list = CachedModelList {
        models: vec![ModelInfo::new("llama3", "ollama")],
        fetched_at_ms: 10_000,
        provider: "ollama".to_string(),
    };
    assert!(list.is_valid_at(10_500, 1_000));
    assert!(!list.is_valid_at(11_000, 1_000));
    // Fetched long ago by the clock.
    assert!(!list.is_valid(1_000));
}
