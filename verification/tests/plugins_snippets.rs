use corgiterm::fonts::{all_fonts, AsciiFont};
use corgiterm::plugins::{validate_manifest, Plugin, PluginManager, PluginManifest, PluginType};
use corgiterm::snippets::{Snippet, SnippetsConfig};

fn snippet(name: &str, command: &str, tags: &[&str], category: &str) -> Snippet {
    Snippet::with_category(
        name.to_string(),
        command.to_string(),
        String::new(),
        tags.iter().map(|t| t.to_string()).collect(),
        category.to_string(),
    )
}

fn sample() -> SnippetsConfig {
    let mut c = SnippetsConfig::default();
    c.add(snippet("List", "ls -la", &["shell"], ""));
    c.add(snippet("Status", "git status", &["git", "vcs"], "Git"));
    c.add(snippet("Branch", "git checkout -b {{name}}", &["git"], "Git/Branches"));
    c
}

#[test]
fn snippet_new_has_an_id_and_no_use() {
    let s = Snippet::new("a".to_string(), "b".to_string(), "c".to_string(), vec![]);
    assert_eq!(s.id.len(), 36);
    assert_eq!(s.use_count, 0);
    assert!(s.last_used.is_none());
    assert!(s.category.is_empty());
    let t = Snippet::new("a".to_string(), "b".to_string(), "c".to_string(), vec![]);
    assert_ne!(s.id, t.id);
}

#[test]
fn snippet_record_use_and_variables() {
    let mut s = snippet("x", "ssh {{user}}@{{host}}", &[], "Net/SSH/Prod");
    assert!(s.has_variables());
    s.record_use();
    assert_eq!(s.use_count, 1);
    assert!(s.last_used.is_some());
    s.record_use_at(1_700_000_000);
    assert_eq!(s.use_count, 2);
    assert_eq!(s.last_used, Some(1_700_000_000));
    assert_eq!(s.command, "ssh {{user}}@{{host}}");
    assert_eq!(s.category_parts(), vec!["Net", "SSH", "Prod"]);
    assert_eq!(s.top_category(), Some("Net".to_string()));
    let plain = snippet("y", "echo {{", &[], "");
    assert!(!plain.has_variables());
    assert!(plain.category_parts().is_empty());
    assert_eq!(plain.top_category(), None);
}

#[test]
fn snippets_find_update_remove() {
    let mut c = sample();
    let id = c.snippets[1].id.clone();
    assert_eq!(c.find(&id).map(|s| s.name.clone()), Some("Status".to_string()));
    let mut changed = c.snippets[1].clone();
    changed.name = "Stat".to_string();
    assert!(c.update(changed));
    assert_eq!(c.snippets[1].name, "Stat");
    assert!(c.remove(&id));
    assert!(!c.remove(&id));
    assert_eq!(c.snippets.len(), 2);
    assert!(c.find(&id).is_none());
    assert!(!c.update(snippet("n", "n", &[], "")));
}

#[test]
fn snippets_search_is_case_insensitive() {
    let c = sample();
    let r = c.search("GIT");
    assert_eq!(r.len(), 2);
    assert_eq!(r[0].name, "Status");
    assert_eq!(c.search("LS").len(), 1);
    assert_eq!(c.search("vcs").len(), 1);
    assert_eq!(c.search("nothing").len(), 0);
}

#[test]
fn snippets_tags_and_categories() {
    let c = sample();
    assert_eq!(c.tags(), vec!["git", "shell", "vcs"]);
    assert_eq!(c.categories(), vec!["Git", "Git/Branches"]);
    assert_eq!(c.top_categories(), vec!["Git"]);
    assert_eq!(c.with_tag("GIT").len(), 2);
    assert_eq!(c.with_tag("GIT")[0].name, "Branch");
    assert_eq!(c.with_category("Git").len(), 2);
    assert_eq!(c.uncategorized().len(), 1);
    assert_eq!(
        c.category_tree(),
        vec![("Git".to_string(), 0, 1), ("Git/Branches".to_string(), 1, 1)]
    );
}

#[test]
fn snippets_orderings() {
    let mut c = sample();
    c.snippets[2].use_count = 5;
    c.snippets[0].use_count = 2;
    c.snippets[1].pinned = true;
    c.snippets[0].pinned = true;
    let names: Vec<String> = c.by_usage().iter().map(|s| s.name.clone()).collect();
    assert_eq!(names, vec!["Branch", "List", "Status"]);
    let pinned: Vec<String> = c.pinned().iter().map(|s| s.name.clone()).collect();
    assert_eq!(pinned, vec!["List", "Status"]);
}

fn plugin(name: &str) -> Plugin {
    Plugin {
        manifest: PluginManifest {
            name: name.to_string(),
            version: "1.0.0".to_string(),
            description: None,
            author: None,
            homepage: None,
            plugin_type: PluginType::Lua,
            entry: "main.lua".to_string(),
            corgiterm_version: None,
            permissions: vec![],
        },
        path: format!("/plugins/{}", name),
        enabled: false,
    }
}

#[test]
fn plugin_manager_enables_by_name() {
    let mut m = PluginManager::new("/plugins".to_string());
    assert_eq!(m.plugin_dir(), "/plugins");
    assert!(m.plugins().is_empty());
    m.add(plugin("one"));
    m.add(plugin("two"));
    assert!(m.enable("two"));
    assert!(m.plugins()[1].enabled);
    assert!(!m.plugins()[0].enabled);
    assert!(!m.enable("three"));
    assert!(m.disable("two"));
    assert!(!m.plugins()[1].enabled);
}

#[test]
fn fonts_render_rows() {
    let fonts = all_fonts();
    assert_eq!(fonts.len(), 25);
    for f in fonts {
        let h = f.height();
        assert!(h > 0);
        let out = f.render("A");
        assert_eq!(out.split('\n').count(), h);
        assert!(!f.name().is_empty());
    }
    assert_eq!(AsciiFont::Standard.name(), "Standard");
    assert!(AsciiFont::Standard.glyph('A').is_some());
}

#[test]
fn manifest_validation() {
    let mut p = plugin("ok").manifest;
    assert_eq!(validate_manifest(&p), Ok(()));
    p.version = "1.0".to_string();
    assert_eq!(validate_manifest(&p), Err("Plugin version must be valid semver".to_string()));
    p.version = String::new();
    assert_eq!(validate_manifest(&p), Err("Plugin version is required".to_string()));
    p.name = String::new();
    assert_eq!(validate_manifest(&p), Err("Plugin name is required".to_string()));
    let mut q = plugin("e").manifest;
    q.entry = String::new();
    assert_eq!(validate_manifest(&q), Err("Plugin entry point is required".to_string()));
}

#[test]
fn placeholders_follow_the_grammar() {
    assert!(!snippet("a", "a }} b {{", &[], "").has_variables());
    assert!(!snippet("b", "{{}}", &[], "").has_variables());
    assert!(snippet("c", "{{x}}", &[], "").has_variables());
    assert!(!snippet("d", "{{a}b}}", &[], "").has_variables());
    let s = snippet("e", "{{{a}} and {{b:7}} {{}} {{c|hint}}", &[], "");
    let names: Vec<String> = s.extract_variables().into_iter().map(|v| v.name).collect();
    assert_eq!(names, vec!["{a".to_string(), "b".to_string(), "c".to_string()]);
    assert_eq!(s.substitute_variables(&[("c".to_string(), "C".to_string())]), "{{{a}} and 7 {{}} C");
    for c in ["a }} b {{", "{{}}", "{{x}}", "{{a}b}}", "{{ :d}}", "none"] {
        let t = snippet("f", c, &[], "");
        assert_eq!(t.has_variables(), !t.extract_variables().is_empty());
    }
}

#[test]
fn font_glyphs_and_rendering() {
    let iso = AsciiFont::Isometric;
    assert_eq!(
        iso.glyph('i'),
        Some(vec!["   _____ ", "  /\\__  \\", " |::| | |", " |::| | |", " |::| | |", " |::|_|/ ", "  \\/__/  "])
    );
    assert_eq!(iso.glyph('i'), iso.glyph('I'));
    for font in all_fonts() {
        for (lower, upper) in [('a', 'A'), ('q', 'Q'), ('z', 'Z')] {
            assert_eq!(font.glyph(lower), font.glyph(upper));
        }
    }
    let mini = AsciiFont::Mini;
    assert_eq!(mini.render("hi"), "|-|i\n|-||\n    ");
    assert_eq!(mini.render(""), "\n\n");
}
