use corgiterm::ai::{
    completion_messages, explanation_messages, read_completions, read_translation, translation_messages,
    AiError, AiManager, CommandContext, CompletionContext, CompletionKind, Role,
};
use corgiterm::conversation::{Conversation, ConversationStore, StoredRole};

#[test]
fn test_command_context_default() {
    let ctx = CommandContext::from_environment("/home".to_string(), None, "linux");
    assert!(!ctx.shell.is_empty());
    assert!(!ctx.os.is_empty());
}

#[test]
fn context_uses_shell_variable() {
    let ctx = CommandContext::from_environment("/".to_string(), Some("/bin/zsh".to_string()), "macos");
    assert_eq!(ctx.shell, "/bin/zsh");
    let c = CompletionContext::from_environment("/".to_string(), None, vec![]);
    assert_eq!(c.shell, "/bin/bash");
}

#[test]
fn translation_round() {
    let ctx = CommandContext::from_environment("/tmp".to_string(), None, "linux");
    let msgs = translation_messages("list files", &ctx);
    assert_eq!(msgs.len(), 2);
    assert_eq!(msgs[0].role, Role::System);
    assert!(msgs[0].content.contains("Current directory: /tmp\nShell: /bin/bash\nOS: linux\n\nRules:"));
    assert!(msgs[0].content.ends_with("lsof -i :3000\n"));
    assert_eq!(msgs[1].content, "list files");
    assert_eq!(read_translation("  ls -la \n"), ("ls -la".to_string(), false));
    assert_eq!(read_translation("# WARNING: rm -rf /").1, true);
    let e = explanation_messages("ls");
    assert_eq!(e[1].content, "What does this command do? ls");
}

#[test]
fn completions_from_answer() {
    let mut ctx = CompletionContext::from_environment("/w".to_string(), None, vec![]);
    ctx.recent_output = vec!["a".to_string(), "b".to_string()];
    let m = completion_messages("gi", &ctx);
    assert!(m[1].content.ends_with("Recent commands:\na\nb\n\nPartial input: gi"));
    let r = read_completions("git status\r\n\n git log\n1\n2\n3\n4\n");
    let texts: Vec<&str> = r.iter().map(|c| c.text.as_str()).collect();
    assert_eq!(texts, vec!["git status", " git log", "1", "2", "3"]);
    assert!(r.iter().all(|c| c.kind == CompletionKind::Command && c.description.is_none()));
    assert!(read_completions("").is_empty());
}

#[test]
fn provider_positions_and_errors() {
    let mut manager = AiManager::new();
    assert_eq!(manager.default_provider(), None);
    manager.add_provider("ollama");
    manager.add_provider("openai");
    manager.add_provider("openai");
    assert_eq!(manager.default_provider(), Some(0));
    assert_eq!(manager.get_provider("openai"), Some(1));
    assert_eq!(manager.get_provider("gemini"), None);
    assert!(manager.set_default("openai"));
    assert_eq!(manager.default_provider(), Some(1));
    assert!(!manager.set_default("gemini"));
    assert_eq!(manager.default_provider(), Some(1));
    assert_eq!(manager.list_providers(), vec!["ollama", "openai", "openai"]);
    assert_eq!(AiManager::default().list_providers().len(), 0);
    assert_eq!(AiError::RateLimited.message(), "Rate limited");
    assert_eq!(AiError::ApiError("x".to_string()).message(), "API error: x");
}

#[test]
fn test_new_conversation() {
    let conv = Conversation::new("chat");
    assert!(conv.is_empty());
    assert_eq!(conv.mode, "chat");
}

#[test]
fn test_add_message() {
    let mut conv = Conversation::new("chat");
    conv.add_message(Role::User, "Hello");
    conv.add_message(Role::Assistant, "Hi there!");
    assert_eq!(conv.len(), 2);
    assert_eq!(conv.title, "Hello");
}

#[test]
fn conversation_titles_and_limits() {
    let mut conv = Conversation::new_at("chat", 5);
    assert_eq!(conv.title, "New chat conversation");
    conv.add_message_at(Role::System, "setup", 6);
    assert_eq!(conv.title, "New chat conversation");
    let long = "x".repeat(60);
    conv.add_message_at(Role::User, &long, 7);
    assert_eq!(conv.title, format!("{}...", "x".repeat(50)));
    conv.add_message_at(Role::User, "second", 8);
    assert_eq!(conv.title, format!("{}...", "x".repeat(50)));
    for i in 0..120 {
        conv.add_message_at(Role::Assistant, "a", 10 + i);
    }
    assert_eq!(conv.len(), 100);
    assert_eq!(conv.updated_at, 129);
    assert_eq!(conv.to_messages()[0].role, Role::Assistant);
    assert_eq!(StoredRole::from(Role::User), StoredRole::User);
    assert_eq!(Role::from(StoredRole::System), Role::System);
}

#[test]
fn test_conversation_store() {
    let mut store = ConversationStore::with_path("/tmp/test_conv.json");
    store.add_message("chat", Role::User, "Test message");
    store.add_message("chat", Role::Assistant, "Test response");
    let stats = store.stats();
    assert_eq!(stats.total_conversations, 0);
    store.new_conversation("chat");
    let stats = store.stats();
    assert_eq!(stats.total_conversations, 1);
    assert_eq!(stats.chat_count, 1);
}

#[test]
fn store_modes_display_and_load() {
    let mut store = ConversationStore::with_path("/tmp/x.json");
    assert!(!store.is_dirty());
    store.add_message("chat", Role::System, "sys");
    store.add_message("chat", Role::User, "hi");
    store.add_message("chat", Role::Assistant, "hello");
    assert_eq!(store.current_chat_display(), "You: hi\n\nAssistant: hello\n\n");
    store.add_message("command", Role::User, "list");
    store.set_provider("command", "ollama");
    assert_eq!(store.active_of(1).and_then(|c| c.provider.clone()), Some("ollama".to_string()));
    assert_eq!(store.conversations_to_save().len(), 2);
    store.new_conversation("command");
    store.new_conversation("chat");
    assert_eq!(store.recent_conversations("chat", 5).len(), 1);
    assert_eq!(store.recent_conversations("command", 0).len(), 0);
    let id = store.all_conversations()[0].id.clone();
    assert!(store.load_conversation(&id, "chat"));
    assert_eq!(store.active_of(0).map(|c| c.len()), Some(3));
    assert!(!store.load_conversation("missing", "chat"));
    store.mark_saved();
    assert!(!store.is_dirty());
    let c = store.active_conversation("weird");
    assert_eq!(c.len(), 3);
}

#[test]
fn load_conversation_replaces_and_archives() {
    let mut store = ConversationStore::with_path("/tmp/y.json");
    store.add_message("chat", Role::User, "first");
    store.new_conversation("chat");
    store.add_message("chat", Role::User, "second");
    assert_eq!(store.all_conversations().len(), 1);
    let first_id = store.all_conversations()[0].id.clone();
    let second_id = store.active_of(0).unwrap().id.clone();
    assert!(store.load_conversation(&first_id, "chat"));
    // The replaced conversation had messages, so it went to the archive.
    assert_eq!(store.active_of(0).unwrap().id, first_id);
    assert_eq!(store.all_conversations().len(), 1);
    assert_eq!(store.all_conversations()[0].id, second_id);
    // An unknown mode takes the conversation out of the archive all the same.
    store.mark_saved();
    assert!(!store.load_conversation(&second_id, "other"));
    assert_eq!(store.all_conversations().len(), 0);
    assert!(!store.is_dirty());
}
