use corgiterm::ai::{Message, Role};
use corgiterm::model_lists::{
    gemini_cli_models, gemini_known_models, gemini_models_from, ollama_models_from, openai_known_models,
    openai_models_at, openai_models_from, GeminiListing, OllamaDetails, OllamaListing, OpenAiListing,
};
use corgiterm::providers::{
    chat_stream_chunk, event_data, first_text, single_prompt, sse_step, stream_event, system_and_turns,
    token_usage, StreamAcc, REQUEST_MAX_TOKENS,
};

fn listing(id: &str, created: Option<i64>) -> OpenAiListing {
    OpenAiListing { id: id.to_string(), created }
}

#[test]
fn openai_listing_keeps_chat_models_in_order() {
    let list = vec![
        listing("gpt-4-turbo", Some(1_700_000_000)),
        listing("text-embedding-3-small", None),
        listing("gpt-4o", Some(1)),
        listing("gpt-4o-realtime-preview", None),
        listing("o1-mini", None),
        listing("GPT-3.5-TURBO-16K", None),
        listing("gpt-4o-audio", None),
        listing("o1", Some(i64::MAX)),
        listing("dall-e-3", None),
    ];
    let models = openai_models_at(&list, 42);
    let ids: Vec<&str> = models.iter().map(|m| m.id.as_str()).collect();
    // Recommended first (GPT-4o, then o1), then by name: upper case before lower.
    assert_eq!(ids, vec!["gpt-4o", "o1", "GPT-3.5-TURBO-16K", "gpt-4-turbo", "o1-mini"]);
    let g = &models[0];
    assert_eq!(g.name, "GPT-4o");
    assert_eq!(g.context_window, Some(128_000));
    assert!(g.supports_vision && g.supports_tools && g.recommended);
    assert_eq!(g.family.as_deref(), Some("GPT-4"));
    assert_eq!(g.created_at, Some(1));
    // A creation time chrono cannot hold is replaced by the time given.
    assert_eq!(models[1].created_at, Some(42));
    let old = &models[2];
    assert_eq!(old.context_window, None);
    assert!(!old.supports_tools && !old.recommended);
    assert_eq!(old.family, None);
    let turbo = &models[3];
    assert_eq!((turbo.name.as_str(), turbo.context_window), ("GPT-4 Turbo", Some(128_000)));
    assert_eq!(turbo.created_at, Some(1_700_000_000));
    assert_eq!((models[4].name.as_str(), models[4].context_window), ("o1 Mini", Some(128_000)));
    assert_eq!(openai_models_from(&list).len(), 5);
    assert!(openai_models_at(&vec![], 0).is_empty());
}

#[test]
fn gemini_listing() {
    let list = vec![
        GeminiListing {
            name: "models/gemini-1.5-pro".to_string(),
            display_name: None,
            description: Some("Pro".to_string()),
            input_token_limit: Some(2_000_000),
            output_token_limit: Some(8192),
            supported_generation_methods: Some(vec!["countTokens".to_string(), "generateContent".to_string()]),
        },
        GeminiListing {
            name: "models/embedding-001".to_string(),
            display_name: Some("Embedding".to_string()),
            description: None,
            input_token_limit: None,
            output_token_limit: None,
            supported_generation_methods: Some(vec!["embedContent".to_string()]),
        },
        GeminiListing {
            name: "tuned-x".to_string(),
            display_name: Some("Tuned".to_string()),
            description: None,
            input_token_limit: None,
            output_token_limit: None,
            supported_generation_methods: Some(vec!["generateContent".to_string()]),
        },
        GeminiListing {
            name: "models/gemini-2.0-flash".to_string(),
            display_name: None,
            description: None,
            input_token_limit: None,
            output_token_limit: None,
            supported_generation_methods: None,
        },
    ];
    let models = gemini_models_from(&list);
    assert_eq!(models.len(), 2);
    assert_eq!(models[0].id, "gemini-1.5-pro");
    assert_eq!(models[0].name, "Gemini 1.5 Pro");
    assert_eq!(models[0].description.as_deref(), Some("Pro"));
    assert_eq!((models[0].context_window, models[0].max_output), (Some(2_000_000), Some(8192)));
    assert!(models[0].supports_vision && models[0].supports_tools && models[0].recommended);
    assert_eq!(models[0].family.as_deref(), Some("Gemini"));
    assert_eq!(models[1].id, "tuned-x");
    assert_eq!(models[1].name, "Tuned");
    assert!(!models[1].supports_vision && !models[1].recommended);
}

#[test]
fn ollama_listing() {
    let list = vec![
        OllamaListing {
            name: "llama3.2:3b".to_string(),
            size: Some(2_000_000_000),
            modified_at: Some("2024-10-01T12:00:00Z".to_string()),
            details: Some(OllamaDetails {
                family: Some("llama".to_string()),
                parameter_size: Some("3.2B".to_string()),
                quantization_level: Some("Q4_K_M".to_string()),
            }),
        },
        OllamaListing { name: "Nomic-Embed-Text".to_string(), size: None, modified_at: None, details: None },
        OllamaListing {
            name: "llava:7b".to_string(),
            size: None,
            modified_at: Some("not a time".to_string()),
            details: Some(OllamaDetails { family: None, parameter_size: Some("7B".to_string()), quantization_level: None }),
        },
    ];
    let models = ollama_models_from(&list);
    assert_eq!(models.len(), 2);
    assert_eq!(models[0].name, "Llama 3.2 (3B)");
    assert_eq!(models[0].description.as_deref(), Some("3.2B parameters, Q4_K_M"));
    assert_eq!(models[0].family.as_deref(), Some("llama"));
    assert_eq!(models[0].size_bytes, Some(2_000_000_000));
    assert_eq!(models[0].created_at, Some(1_727_784_000));
    assert!(!models[0].supports_vision && !models[0].supports_tools);
    assert_eq!(models[1].description.as_deref(), Some("7B parameters"));
    assert!(models[1].supports_vision);
    assert_eq!(models[1].created_at, None);
}

#[test]
fn known_model_lists() {
    let o = openai_known_models();
    assert_eq!(o.len(), 8);
    assert_eq!((o[0].id.as_str(), o[0].name.as_str()), ("gpt-4o", "GPT-4o"));
    assert_eq!(o[6].context_window, Some(8_192));
    assert!(!o[7].supports_vision);
    let g = gemini_known_models();
    assert_eq!(g.len(), 5);
    assert_eq!(g[2].context_window, Some(2_000_000));
    let c = gemini_cli_models();
    assert_eq!(c.len(), 4);
    assert_eq!(c[0].provider, "gemini-cli");
    assert!(c[0].recommended && !c[2].recommended);
}

fn msg(role: Role, content: &str) -> Message {
    Message { role, content: content.to_string() }
}

#[test]
fn request_forms() {
    let ms = vec![
        msg(Role::User, "hi"),
        msg(Role::System, "be brief"),
        msg(Role::Assistant, "hello"),
        msg(Role::System, "ignored"),
    ];
    let (system, turns) = system_and_turns(&ms);
    assert_eq!(system.as_deref(), Some("be brief"));
    assert_eq!(
        turns,
        vec![("user".to_string(), "hi".to_string()), ("assistant".to_string(), "hello".to_string())]
    );
    assert_eq!(system_and_turns(&vec![msg(Role::User, "x")]).0, None);
    assert_eq!(
        single_prompt(&ms),
        "User: hi\nSystem: be brief\nAssistant: hello\nSystem: ignored\nAssistant: "
    );
    assert_eq!(single_prompt(&vec![]), "Assistant: ");
    assert_eq!(REQUEST_MAX_TOKENS, 4096);
}

#[test]
fn server_sent_events() {
    let (rest, events) = sse_step("data: a\n", b"\ndata: b\r\n\ndata: [DONE]\n\nda");
    assert_eq!(events, vec!["data: a".to_string(), "data: b\r".to_string(), "data: [DONE]".to_string()]);
    assert_eq!(rest, "da");
    let (rest, events) = sse_step("", b"\n\n\n");
    assert_eq!(events, vec!["".to_string()]);
    assert_eq!(rest, "\n");
    let (rest, events) = sse_step("x", &[0xff, b'y']);
    assert!(events.is_empty());
    assert_eq!(rest, "x\u{fffd}y");
    assert_eq!(event_data("event: e\r\ndata: one\r\ndata: [DONE]\ndata: two\r"), vec!["one", "two\r"]);
    assert!(event_data("").is_empty());
}

#[test]
fn stream_accumulation() {
    let mut acc = StreamAcc { content: String::new(), usage: None };
    assert_eq!(stream_event(&mut acc, "content_block_delta", Some("Hel"), None), Some("Hel".to_string()));
    assert_eq!(stream_event(&mut acc, "content_block_delta", Some(""), None), None);
    assert_eq!(stream_event(&mut acc, "ping", Some("x"), Some((1, 1))), None);
    assert_eq!(stream_event(&mut acc, "message_delta", None, Some((10, 5))), None);
    assert_eq!(stream_event(&mut acc, "message_delta", None, None), None);
    assert_eq!(stream_event(&mut acc, "content_block_delta", Some("lo"), None), Some("lo".to_string()));
    assert_eq!(acc.content, "Hello");
    assert_eq!(acc.usage, Some((10, 5)));
    let u = token_usage(10, 5);
    assert_eq!((u.prompt, u.completion, u.total), (10, 5, 15));
    let mut content = "a".to_string();
    let shown = chat_stream_chunk(&mut content, &vec![Some("b".to_string()), None, Some("c".to_string())]);
    assert_eq!(content, "abc");
    assert_eq!(shown, vec!["b".to_string(), "c".to_string()]);
    assert_eq!(first_text(&vec!["x".to_string(), "y".to_string()]), "x");
    assert_eq!(first_text(&vec![]), "");
}
