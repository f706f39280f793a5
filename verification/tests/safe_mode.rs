use corgiterm::safe_mode::{affected_candidates, estimate_size, join_path, RiskLevel, SafeMode};

#[test]
fn test_safe_command() {
    let safe_mode = SafeMode::new();
    let preview = safe_mode.analyze("ls -la", None, None);
    assert_eq!(preview.risk, RiskLevel::Safe);
}

#[test]
fn test_dangerous_command() {
    let safe_mode = SafeMode::new();
    let preview = safe_mode.analyze("rm -rf /", Some(vec!["/".to_string()]), None);
    assert_eq!(preview.risk, RiskLevel::Danger);
}

#[test]
fn test_caution_command() {
    let safe_mode = SafeMode::new();
    let preview = safe_mode.analyze("rm -rf node_modules", None, None);
    assert_eq!(preview.risk, RiskLevel::Caution);
    assert!(!preview.alternatives.is_empty());
}

#[test]
fn preview_details() {
    let s = SafeMode::new();
    let p = s.analyze("rm -rf /", Some(vec!["/".to_string()]), Some(42));
    assert_eq!(p.explanation.len(), 3);
    assert_eq!(p.undo_hint.as_deref(), Some("Consider: trash-put <file> (recoverable)"));
    assert_eq!(p.affected_count, Some(1));
    assert_eq!(p.affected_size, Some(42));
    assert_eq!(p.alternatives.len(), 2);
    assert_eq!(p.alternatives[0].command, "trash-put -rf /");
    assert_eq!(p.alternatives[1].command, "rm -ri /");
    let q = s.analyze("sudo apt install curl", None, None);
    assert_eq!(q.risk, RiskLevel::Caution);
    assert!(q.needs_sudo);
    assert!(q.network_access);
    assert!(q.explanation.is_empty());
    let u = s.analyze("make", None, None);
    assert_eq!(u.risk, RiskLevel::Unknown);
    let g = s.analyze("git push --force", None, None);
    assert_eq!(g.risk, RiskLevel::Caution);
    assert_eq!(g.undo_hint.as_deref(), Some("git reflog to find lost commits"));
    let c = s.analyze("cat x > /dev/sda", None, None);
    assert_eq!(c.risk, RiskLevel::Safe);
    assert_eq!(c.explanation, vec!["This is a safe, read-only command".to_string()]);
}

#[test]
fn risk_labels() {
    assert_eq!(RiskLevel::Danger.label(), "DANGER");
    assert_eq!(RiskLevel::Safe.emoji(), "✅");
}

#[test]
fn candidates_and_sizes() {
    assert_eq!(
        affected_candidates("rm -rf build /tmp/x", "/home/u"),
        vec!["/home/u/build".to_string(), "/tmp/x".to_string()]
    );
    assert!(affected_candidates("ls build", "/home").is_empty());
    assert_eq!(join_path("/", &"a".chars().collect()), "/a");
    assert_eq!(estimate_size(&[(true, 0), (false, 10)]), Some(1048586));
    assert_eq!(estimate_size(&[(false, 0)]), None);
    let mut m = SafeMode::default();
    m.set_enabled(true);
    assert!(m.enabled);
}
