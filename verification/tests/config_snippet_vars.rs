use corgiterm::config::{
    AdvancedConfig, BellStyle, CloseOnExit, GeneralConfig, KeybindingsConfig, LearningConfig, LocalLlmConfig, Padding,
    PerformanceConfig, SafeModeConfig, SessionsConfig, ShortcutsConfig, TerminalConfig,
};
use corgiterm::snippets::{parse_variable, replacement_for, Snippet};

#[test]
fn config_defaults() {
    let t = TerminalConfig::default();
    assert_eq!(t.scrollback_lines, 10000);
    assert_eq!(t.bell_style, BellStyle::Visual);
    assert_eq!(t.close_on_exit, CloseOnExit::IfClean);
    assert_eq!(t.term, "xterm-256color");
    assert_eq!(Padding::default().left, 8);
    assert_eq!(ShortcutsConfig::default().prev_tab.as_deref(), Some("Ctrl+Shift+Tab"));
    assert_eq!(KeybindingsConfig::default().shortcuts.quit.as_deref(), Some("Ctrl+Q"));
    assert_eq!(LearningConfig::default().window_size, 100);
    assert_eq!(LocalLlmConfig::default().endpoint, "http://localhost:11434");
    assert!(SafeModeConfig::default().preview_dangerous_only);
    assert_eq!(SessionsConfig::default().max_per_project, 50);
    assert_eq!(PerformanceConfig::default().target_fps, 60);
    assert_eq!(AdvancedConfig::default().log_level, "info");
    let g = GeneralConfig::from_environment(None, None);
    assert_eq!(g.shell, "/bin/bash");
    assert_eq!(g.working_directory, "/");
    assert!(!g.telemetry);
}

#[test]
fn snippet_variables() {
    let s = Snippet::new(
        "x".to_string(),
        "git checkout -b {{branch_name|short branch name}} && git push {{remote:origin}} {{branch_name}}".to_string(),
        String::new(),
        vec![],
    );
    let vars = s.extract_variables();
    assert_eq!(vars.len(), 2);
    assert_eq!(vars[0].name, "branch_name");
    assert_eq!(vars[0].hint.as_deref(), Some("short branch name"));
    assert_eq!(vars[0].default, None);
    assert_eq!(vars[1].name, "remote");
    assert_eq!(vars[1].default.as_deref(), Some("origin"));
    let values = vec![("branch_name".to_string(), "feat".to_string())];
    assert_eq!(
        s.substitute_variables(&values),
        "git checkout -b feat && git push origin feat"
    );
    let t = Snippet::new("y".to_string(), "ssh {{user:deploy}}@{{host}} -p {{port:22}}".to_string(), String::new(), vec![]);
    assert_eq!(t.substitute_variables(&[("host".to_string(), "example.com".to_string())]), "ssh deploy@example.com -p 22");
    assert_eq!(t.substitute_variables(&[]), "ssh deploy@{{host}} -p 22");
    let v = parse_variable(" a : b | c ");
    assert_eq!(v.name, "a");
    assert_eq!(v.default.as_deref(), Some("b"));
    assert_eq!(v.hint.as_deref(), Some(" c "));
    assert_eq!(replacement_for("x|h", &[]), "{{x}}");
}
