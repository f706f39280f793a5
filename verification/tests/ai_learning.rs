use corgiterm::ai::{CommandContext, Role};
use corgiterm::ai_learning::{
    directory_suggestions, explain_suggestion_messages, learning_messages, learning_prompt_text,
    next_command_messages, pattern_suggestions, read_learned_answer, usage_insights, CommandPatternInfo,
    CommandPreference, FrequentCommand, LearningContext, LEARNED_RULES,
};

fn context() -> CommandContext {
    CommandContext {
        cwd: "/home/user/project".to_string(),
        shell: "/bin/zsh".to_string(),
        os: "linux".to_string(),
        recent_commands: Vec::new(),
    }
}

#[test]
fn test_learning_context_default() {
    let ctx = LearningContext::default();
    assert!(ctx.frequent_commands.is_empty());
    assert!(ctx.preferences.is_empty());
}

#[test]
fn test_directory_suggestions() {
    let mut context = LearningContext::default();
    context
        .directory_commands
        .push(("/home/user/project".to_string(), vec!["cargo build".to_string(), "cargo test".to_string()]));
    assert_eq!(context.directory_commands.len(), 1);
    let s = directory_suggestions(&context, "/home/user/project", 1);
    assert_eq!(s, vec![("cargo build".to_string(), "Frequently used in /home/user/project".to_string())]);
    assert!(directory_suggestions(&context, "/tmp", 5).is_empty());
}

#[test]
fn prompt_without_learning() {
    let l = LearningContext::default();
    let p = learning_prompt_text(&l, &context());
    let expected = format!(
        "You are a shell command expert. Convert natural language requests into shell commands.\n\nCurrent directory: /home/user/project\nShell: /bin/zsh\nOS: linux\n\n{}",
        LEARNED_RULES
    );
    assert_eq!(p, expected);
    let m = learning_messages("list files", &l, &context());
    assert_eq!(m.len(), 2);
    assert_eq!(m[0].role, Role::System);
    assert_eq!(m[1].content, "list files");
}

#[test]
fn prompt_with_learning() {
    let l = LearningContext {
        frequent_commands: vec![FrequentCommand { command: "git".to_string(), count: 12, success_percent: 91 }],
        preferences: vec![CommandPreference { standard: "ls".to_string(), preferred: "eza".to_string(), percent: 80 }],
        patterns: vec![CommandPatternInfo {
            sequence: vec!["git add".to_string(), "git commit".to_string()],
            frequency: 4,
            percent: 40,
        }],
        directory_commands: vec![("/home/user/project".to_string(), vec!["cargo test".to_string()])],
    };
    let p = learning_prompt_text(&l, &context());
    assert!(p.contains("USER PREFERENCES (always use these when applicable):\n- Prefers 'eza' over 'ls' (80% of the time)\n\n"));
    assert!(p.contains("USER'S MOST COMMON COMMANDS:\n- git (used 12 times, 91% success rate)\n\n"));
    assert!(p.contains("COMMANDS COMMONLY USED IN THIS DIRECTORY:\n- cargo test\n\n"));
    assert!(p.contains("LEARNED COMMAND PATTERNS:\n- git add → git commit (seen 4 times)\n\n"));
    assert!(p.ends_with(LEARNED_RULES));
    assert_eq!(
        usage_insights(&l),
        "You prefer modern alternatives: eza (instead of ls)\n• Your most used command is 'git' with 12 executions\n• I've learned 1 command patterns from your workflow"
    );
    let s = pattern_suggestions(&l.patterns, "git add .");
    assert_eq!(s, vec![(0, "git commit".to_string(), "Often follows git add (40% of the time)".to_string())]);
    assert!(pattern_suggestions(&l.patterns, "ls").is_empty());
}

#[test]
fn insights_without_data() {
    assert_eq!(usage_insights(&LearningContext::default()), "Not enough data yet to generate insights. Keep using commands!");
}

#[test]
fn learned_answers_and_messages() {
    assert_eq!(read_learned_answer("  rm -rf build \n"), ("rm -rf build".to_string(), true));
    assert_eq!(read_learned_answer("ls -la"), ("ls -la".to_string(), false));
    let m = next_command_messages("git add .");
    assert_eq!(m[0].content, "You are a shell command expert. Suggest logical next commands.");
    assert!(m[1].content.starts_with("User just executed: git add .\n\n"));
    let e = explain_suggestion_messages("ls", "you list often");
    assert_eq!(
        e[1].content,
        "I was suggested the command 'ls' because: you list often\n\nProvide a brief explanation of what this command does and why it was suggested."
    );
}
