use corgiterm::ai_history::{CommandHistoryStore, HistoryEntry};
use corgiterm::error::CoreError;
use corgiterm::history::{CommandEntry, CommandHistory, OutputChunk, OutputHistory};
use corgiterm::init;
use corgiterm::learning::{average_interval_ms, extract_base_command, should_create_pattern, TimeCategory};
use corgiterm::pty::{PtySize, Winsize};
use corgiterm::tally::{count_distinct, most_frequent};

#[test]
fn test_init() {
    assert!(init().is_ok());
}

#[test]
fn core_error_messages() {
    assert_eq!(CoreError::Pty("closed".to_string()).message(), "PTY error: closed");
    assert_eq!(CoreError::Config("bad".to_string()).message(), "Configuration error: bad");
    assert_eq!(CoreError::ProcessSpawn("x".to_string()).message(), "Failed to spawn process: x");
}

#[test]
fn test_pty_size_default() {
    let size = PtySize::default();
    assert_eq!(size.rows, 24);
    assert_eq!(size.cols, 80);
}

#[test]
fn test_winsize_conversion() {
    let size = PtySize { rows: 40, cols: 120, pixel_width: 0, pixel_height: 0 };
    let winsize = Winsize::from(size);
    assert_eq!(winsize.ws_row, 40);
    assert_eq!(winsize.ws_col, 120);
}

#[test]
fn winsize_keeps_pixels() {
    let w = Winsize::from(PtySize { rows: 1, cols: 2, pixel_width: 800, pixel_height: 600 });
    assert_eq!((w.ws_xpixel, w.ws_ypixel), (800, 600));
}

#[test]
fn test_extract_base_command() {
    assert_eq!(extract_base_command("ls -la /home"), "ls");
    assert_eq!(extract_base_command("git status"), "git");
    assert_eq!(extract_base_command("cargo build --release"), "cargo");
}

#[test]
fn base_command_of_blank_line() {
    assert_eq!(extract_base_command("   "), "");
    assert_eq!(extract_base_command("\t make  all"), "make");
}

#[test]
fn time_categories() {
    assert_eq!(TimeCategory::from_hour(9), TimeCategory::Morning);
    assert_eq!(TimeCategory::from_hour(20), TimeCategory::Evening);
    assert_eq!(TimeCategory::from_hour(12), TimeCategory::Afternoon);
    assert_eq!(TimeCategory::from_hour(3), TimeCategory::Night);
    assert_eq!(TimeCategory::from_hour(24), TimeCategory::Night);
}

#[test]
fn pattern_candidates() {
    let s = |v: &[&str]| v.iter().map(|x| x.to_string()).collect::<Vec<_>>();
    assert!(!should_create_pattern(&s(&["git", "git"])));
    assert!(should_create_pattern(&s(&["git", "cargo"])));
    assert!(!should_create_pattern(&s(&["ls"])));
    assert!(should_create_pattern(&s(&["make"])));
    assert!(should_create_pattern(&s(&["ls", "ls", "ls"])));
}

#[test]
fn average_intervals() {
    assert_eq!(average_interval_ms(&[]), 0);
    assert_eq!(average_interval_ms(&[5]), 0);
    assert_eq!(average_interval_ms(&[1000, 1500, 2500]), 750);
    assert_eq!(average_interval_ms(&[1000, 500, 700]), 100);
}

#[test]
fn test_command_history() {
    let mut history = CommandHistory::new(100);
    history.push(CommandEntry::new("ls -la", "/home"));
    history.push(CommandEntry::new("cd projects", "/home"));
    assert_eq!(history.recent(10).len(), 2);
}

#[test]
fn test_command_search() {
    let mut history = CommandHistory::new(100);
    history.push(CommandEntry::new("ls -la", "/home"));
    history.push(CommandEntry::new("git status", "/home"));
    history.push(CommandEntry::new("git push", "/home"));
    let results = history.search("git");
    assert_eq!(results.len(), 2);
}

#[test]
fn command_history_limit_order_and_frequency() {
    let mut history = CommandHistory::new(3);
    for c in ["a", "b", "a", "c", "a"] {
        history.push(CommandEntry::new(c, "/x"));
    }
    let recent: Vec<&str> = history.recent(10).iter().map(|e| e.command.as_str()).collect();
    assert_eq!(recent, vec!["a", "c", "a"]);
    assert_eq!(history.frequent(1), vec![("a".to_string(), 2)]);
    assert_eq!(history.frequent(5).len(), 2);
    assert_eq!(history.search("A").len(), 2);
    assert_eq!(history.in_directory("/y").len(), 0);
    let mut e = CommandEntry::new("make", "/p");
    e.complete(2, 40);
    assert_eq!(e.success, Some(false));
    assert_eq!(e.exit_code, Some(2));
}

#[test]
fn output_history_limits() {
    let chunk = |t: &str, ts: i64| OutputChunk { text: t.to_string(), timestamp: ts, command: None, is_stderr: false };
    let mut out = OutputHistory::new(10, 8);
    out.push(chunk("abcd", 1));
    out.push(chunk("efgh", 2));
    assert_eq!(out.bytes(), 8);
    out.push(chunk("ij", 3));
    assert_eq!(out.bytes(), 6);
    assert_eq!(out.at_time(2).len(), 1);
    assert_eq!(out.at_time(3).len(), 2);
    out.push(chunk("0123456789", 4));
    assert_eq!(out.bytes(), 0);
    assert!(out.at_time(10).is_empty());
}

#[test]
fn tally_helpers() {
    let keys: Vec<String> = ["x", "y", "x", "z", "x", "y"].iter().map(|s| s.to_string()).collect();
    assert_eq!(count_distinct(&keys), 3);
    let top = most_frequent(&keys, 2);
    assert_eq!(top, vec![("x".to_string(), 3), ("y".to_string(), 2)]);
    assert!(most_frequent(&keys, 0).is_empty());
}

#[test]
fn test_record_command() {
    let mut store = CommandHistoryStore::new();
    store.record("ls -la".to_string(), "/home/user".to_string(), Some(0), Some(100));
    assert_eq!(store.len(), 1);
}

#[test]
fn history_store_queries() {
    let mut store = CommandHistoryStore::from_parts(Vec::new(), 3);
    store.record_at("git status".to_string(), "/a".to_string(), Some(0), None, 1);
    store.record_at("ls".to_string(), "/b".to_string(), Some(1), None, 2);
    store.record_at("GIT push".to_string(), "/a".to_string(), None, None, 3);
    store.record_at("   ".to_string(), "/c".to_string(), Some(0), None, 4);
    assert_eq!(store.len(), 3);
    let recent: Vec<u64> = store.recent(2).iter().map(|e| e.timestamp).collect();
    assert_eq!(recent, vec![4, 3]);
    let in_a: Vec<u64> = store.for_directory("/a", 5).iter().map(|e| e.timestamp).collect();
    assert_eq!(in_a, vec![3]);
    assert_eq!(store.search("git", 5).len(), 1);
    let stats = store.stats();
    assert_eq!(stats.total_commands, 3);
    assert_eq!(stats.successful_commands, 1);
    assert_eq!(stats.failed_commands, 1);
    assert_eq!(stats.unique_commands, 2);
    assert_eq!(stats.unique_directories, 3);
    assert!(!store.is_empty());
    let e: &HistoryEntry = store.entry_list().first().unwrap();
    assert_eq!(e.command, "ls");
}

#[test]
fn test_output_search() {
    let mut output = OutputHistory::new(1000, 1024 * 1024);
    output.push(OutputChunk {
        text: "Error: file not found".to_string(),
        timestamp: 1_700_000_000_000,
        command: Some("cat missing.txt".to_string()),
        is_stderr: true,
    });

    let results = output.search("error");
    assert_eq!(results.len(), 1);
}

#[test]
fn output_search_positions_and_context() {
    let mut output = OutputHistory::new(10, 4096);
    output.push(OutputChunk {
        text: "ab ab".to_string(),
        timestamp: 5,
        command: None,
        is_stderr: false,
    });
    let long = format!("{}NEEDLE{}", "x".repeat(60), "y".repeat(60));
    output.push(OutputChunk { text: long, timestamp: 9, command: Some("run".to_string()), is_stderr: false });
    let results = output.search("Needle");
    assert_eq!(results.len(), 1);
    assert_eq!(results[0].chunk_index, 0);
    assert_eq!(results[0].position, 60);
    assert_eq!(results[0].context, format!("{}NEEDLE{}", "x".repeat(50), "y".repeat(50)));
    assert_eq!(results[0].command.as_deref(), Some("run"));
    let ab = output.search("AB");
    assert_eq!(ab.len(), 2);
    assert_eq!((ab[0].chunk_index, ab[0].position), (1, 0));
    assert_eq!((ab[1].chunk_index, ab[1].position), (1, 3));
    assert_eq!(ab[1].context, "ab ab");
    assert_eq!(output.search("aa").len(), 0);
    // An empty pattern matches at every character boundary.
    assert_eq!(output.search("").len(), 127 + 6);
}

#[test]
fn test_frequent_commands() {
    let mut store = CommandHistoryStore::new();
    for _ in 0..10 {
        store.record("git status".to_string(), "/home/user".to_string(), Some(0), None);
    }
    for _ in 0..5 {
        store.record("ls".to_string(), "/home/user".to_string(), Some(0), None);
    }
    let frequent = store.frequent_commands(20);
    assert!(!frequent.is_empty());
    assert_eq!(frequent[0].0, "git");
    assert_eq!(frequent[0].1, 10);
    assert_eq!(frequent[0].2, 10);

    let context = store.extract_learning_context();
    assert!(!context.frequent_commands.is_empty());
    assert_eq!(context.frequent_commands[0].command, "git");
    assert_eq!(context.frequent_commands[0].success_percent, 100);
}

#[test]
fn test_patterns() {
    let now = std::time::SystemTime::now()
        .duration_since(std::time::UNIX_EPOCH)
        .unwrap()
        .as_secs();
    let mut entries = Vec::new();
    // A make -> pytest sequence (different base commands)
    for i in 0..5 {
        entries.push(HistoryEntry {
            command: "make build".to_string(),
            directory: "/project".to_string(),
            timestamp: now + i * 60,
            exit_code: Some(0),
            duration_ms: None,
        });
        entries.push(HistoryEntry {
            command: "pytest tests/".to_string(),
            directory: "/project".to_string(),
            timestamp: now + i * 60 + 30,
            exit_code: Some(0),
            duration_ms: None,
        });
    }
    let store = CommandHistoryStore::from_parts(entries, 10000);

    let context = store.extract_learning_context();
    assert!(!context.patterns.is_empty());
    assert_eq!(context.patterns[0].sequence, vec!["make".to_string(), "pytest".to_string()]);
    assert_eq!(context.patterns[0].frequency, 5);
    assert_eq!(context.patterns[0].percent, 95);
    assert_eq!(context.patterns[1].sequence, vec!["pytest".to_string(), "make".to_string()]);
    assert_eq!(context.patterns[1].frequency, 4);
    assert_eq!(context.patterns.len(), 2);
}

#[test]
fn test_preferences() {
    let mut store = CommandHistoryStore::new();
    // The user runs eza more than ls
    for _ in 0..10 {
        store.record("eza".to_string(), "/home".to_string(), Some(0), None);
    }
    for _ in 0..2 {
        store.record("ls".to_string(), "/home".to_string(), Some(0), None);
    }

    let context = store.extract_learning_context();
    let has_eza_pref = context.preferences.iter().any(|p| p.preferred == "eza");
    assert!(has_eza_pref);
    assert_eq!(context.preferences.len(), 1);
    assert_eq!(context.preferences[0].standard, "ls");
    assert_eq!(context.preferences[0].percent, 83);
}

#[test]
fn preference_thresholds() {
    // Five uses in all are not enough; an alternative used 30% exactly is not preferred.
    let mut store = CommandHistoryStore::new();
    for _ in 0..5 {
        store.record("bat x".to_string(), "/h".to_string(), Some(0), None);
    }
    assert!(store.preferences().is_empty());
    let mut store = CommandHistoryStore::new();
    for _ in 0..3 {
        store.record("fd".to_string(), "/h".to_string(), Some(0), None);
    }
    for _ in 0..7 {
        store.record("find .".to_string(), "/h".to_string(), Some(0), None);
    }
    assert!(store.preferences().is_empty());
    store.record("fdfind".to_string(), "/h".to_string(), Some(0), None);
    store.record("fdfind".to_string(), "/h".to_string(), Some(0), None);
    store.record("fdfind".to_string(), "/h".to_string(), Some(0), None);
    store.record("fdfind".to_string(), "/h".to_string(), Some(0), None);
    // The first alternative still fails; the second (4 of 11) is preferred.
    let prefs = store.preferences();
    assert_eq!(prefs.len(), 1);
    assert_eq!((prefs[0].standard.as_str(), prefs[0].preferred.as_str(), prefs[0].percent), ("find", "fdfind", 36));
}

#[test]
fn patterns_need_proximity_and_repeats() {
    let entry = |c: &str, d: &str, t: u64| HistoryEntry {
        command: c.to_string(),
        directory: d.to_string(),
        timestamp: t,
        exit_code: None,
        duration_ms: None,
    };
    let mut entries = Vec::new();
    for i in 0..3u64 {
        entries.push(entry("git add .", "/r", 1000 * i));
        entries.push(entry("git commit", "/r", 1000 * i + 10));
        entries.push(entry("cargo test", "/r", 1000 * i + 20));
        entries.push(entry("cargo build", "/other", 1000 * i + 30));
        entries.push(entry("ls", "/other", 1000 * i + 400));
    }
    let store = CommandHistoryStore::from_parts(entries, 100);
    let p = store.patterns(10);
    // git -> git has equal words; git -> cargo is seen 3 times; cargo -> cargo
    // changes directory; cargo -> ls is 370 s apart; ls -> git changes directory.
    assert_eq!(p.len(), 1);
    assert_eq!(p[0].sequence, vec!["git".to_string(), "cargo".to_string()]);
    assert_eq!(p[0].frequency, 3);
    // 3 of 15 commands, ten times over, is 200%: at most 95.
    assert_eq!(p[0].percent, 95);
    assert!(store.patterns(0).is_empty());
}

#[test]
fn directory_learning() {
    let mut store = CommandHistoryStore::new();
    store.record("cargo test".to_string(), "/p".to_string(), Some(1), None);
    store.record("cargo test".to_string(), "/p".to_string(), Some(0), None);
    store.record("cargo build".to_string(), "/p".to_string(), Some(0), None);
    store.record("ls".to_string(), "/q".to_string(), None, None);
    store.record("   ".to_string(), "/p".to_string(), None, None);
    assert_eq!(store.directory_list(), vec!["/p".to_string(), "/q".to_string()]);
    let p = store.directory_commands("/p", 10);
    assert_eq!(p[0], ("cargo test".to_string(), 2));
    assert_eq!(p.len(), 3);
    let f = store.frequent_commands(1);
    assert_eq!(f, vec![("cargo".to_string(), 3, 2)]);
    assert!(store.directory_commands("/none", 10).is_empty());
}

#[test]
fn empty_queries_match_everything() {
    let mut history = CommandHistory::new(100);
    history.push(CommandEntry::new("Git Status", "/a"));
    history.push(CommandEntry::new("ÉCHO ü", "/a"));
    assert_eq!(history.search("").len(), 2);
    let mut store = CommandHistoryStore::new();
    store.record("ls".to_string(), "/a".to_string(), None, None);
    store.record("ÉCHO".to_string(), "/a".to_string(), None, None);
    store.record("cd".to_string(), "/a".to_string(), None, None);
    let found = store.search("", 2);
    assert_eq!(found.len(), 2);
    assert_eq!(found[0].command, "cd");
    assert_eq!(found[1].command, "ÉCHO");
}
