use corgiterm::ssh::{parse_ssh_config, SshConfig, SshHost};
use corgiterm::themes::{Theme, ThemeManager};

fn host(name: &str, port: u16, user: Option<&str>) -> SshHost {
    SshHost {
        name: name.to_string(),
        hostname: "example.com".to_string(),
        port,
        username: user.map(|u| u.to_string()),
        identity_file: None,
        options: Vec::new(),
        tags: Vec::new(),
        favorite: false,
    }
}

#[test]
fn test_ssh_host_command() {
    let host = SshHost {
        name: "Test Server".to_string(),
        hostname: "example.com".to_string(),
        port: 2222,
        username: Some("user".to_string()),
        identity_file: Some("/home/user/.ssh/id_rsa".to_string()),
        options: vec!["-o".to_string(), "StrictHostKeyChecking=no".to_string()],
        tags: vec!["production".to_string()],
        favorite: false,
    };
    let cmd = host.build_command();
    assert_eq!(cmd[0], "ssh");
    assert!(cmd.contains(&"-p".to_string()));
    assert!(cmd.contains(&"2222".to_string()));
    assert!(cmd.contains(&"-i".to_string()));
    assert_eq!(*cmd.last().unwrap(), "user@example.com");
}

#[test]
fn ssh_command_exact_layout() {
    let mut h = host("x", 22, None);
    assert_eq!(h.build_command(), vec!["ssh".to_string(), "example.com".to_string()]);
    h.port = 2200;
    h.username = Some("bob".to_string());
    h.identity_file = Some("/k".to_string());
    h.options = vec!["-A".to_string()];
    assert_eq!(
        h.build_command(),
        vec!["ssh", "-p", "2200", "-i", "/k", "-A", "bob@example.com"]
            .into_iter()
            .map(|s| s.to_string())
            .collect::<Vec<_>>()
    );
}

#[test]
fn test_ssh_host_display() {
    let host = host("Test", 22, Some("user"));
    assert_eq!(host.display_string(), "user@example.com:22");
}

#[test]
fn ssh_display_without_user() {
    let h = host("Test", 2022, None);
    assert_eq!(h.display_string(), "example.com:2022");
}

#[test]
fn test_merge_host() {
    let mut base = SshHost {
        name: "Base".to_string(),
        hostname: "example.com".to_string(),
        port: 22,
        username: Some("user".to_string()),
        identity_file: None,
        options: vec!["-o StrictHostKeyChecking=no".to_string()],
        tags: vec!["prod".to_string()],
        favorite: false,
    };
    let other = SshHost {
        name: "Other".to_string(),
        hostname: "example.com".to_string(),
        port: 22,
        username: Some("user".to_string()),
        identity_file: Some("/id_ed25519".to_string()),
        options: vec!["-o LogLevel=ERROR".to_string()],
        tags: vec!["db".to_string()],
        favorite: true,
    };
    base.merge_from(&other);
    assert_eq!(base.identity_file, other.identity_file);
    assert!(base.tags.contains(&"prod".to_string()));
    assert!(base.tags.contains(&"db".to_string()));
    assert!(base.options.contains(&"-o StrictHostKeyChecking=no".to_string()));
    assert!(base.options.contains(&"-o LogLevel=ERROR".to_string()));
    assert!(base.favorite);
}

#[test]
fn merge_does_not_duplicate() {
    let mut base = host("a", 22, None);
    base.tags = vec!["t".to_string()];
    let mut other = host("b", 22, Some("u"));
    other.tags = vec!["T".to_string(), "t".to_string(), "s".to_string()];
    base.merge_from(&other);
    assert_eq!(base.tags, vec!["t".to_string(), "s".to_string()]);
    assert_eq!(base.username, None);
    assert!(!base.favorite);
}

#[test]
fn test_parse_basic_ssh_config() {
    let cfg = r#"
Host mybox
  HostName example.com
  User alice
  Port 2200
  IdentityFile ~/.ssh/id_ed25519
  ForwardAgent yes
        "#;
    let hosts = parse_ssh_config(cfg, 22);
    assert_eq!(hosts.len(), 1);
    let h = &hosts[0];
    assert_eq!(h.name, "mybox");
    assert_eq!(h.hostname, "example.com");
    assert_eq!(h.username.as_deref(), Some("alice"));
    assert_eq!(h.port, 2200);
    assert!(h.identity_file.is_some());
    assert!(h.options.iter().any(|o| o.contains("ForwardAgent")));
}

#[test]
fn parse_ssh_config_keeps_every_host_block() {
    let cfg = "# comment\nUser before\nHost *\n  User nobody\nHost a b\n  Port nope\n\nHost c\n  HostName 10.0.0.1\n  Compression  yes\n";
    let hosts = parse_ssh_config(cfg, 2022);
    let names: Vec<&str> = hosts.iter().map(|h| h.name.as_str()).collect();
    assert_eq!(names, vec!["*", "a b", "c"]);
    assert_eq!(hosts[0].username.as_deref(), Some("nobody"));
    assert_eq!(hosts[1].port, 2022);
    assert_eq!(hosts[1].hostname, "a b");
    assert_eq!(hosts[2].hostname, "10.0.0.1");
    assert_eq!(hosts[2].options, vec!["Compression yes".to_string()]);
    assert!(parse_ssh_config("", 22).is_empty());
}

#[test]
fn ssh_config_default() {
    let c = SshConfig::default();
    assert!(c.hosts.is_empty());
    assert!(c.auto_import);
    assert_eq!(c.default_port, 22);
    assert!(c.merge_imports);
}

#[test]
fn test_builtin_themes() {
    let manager = ThemeManager::new();
    assert!(manager.list().contains(&"Corgi Dark".to_string()));
    assert!(manager.list().contains(&"Corgi Light".to_string()));
}

#[test]
fn test_theme_switching() {
    let mut manager = ThemeManager::new();
    assert!(manager.set_current("Corgi Light"));
    assert_eq!(manager.current().name, "Corgi Light");
}

#[test]
fn theme_switching_to_unknown_keeps_current() {
    let mut manager = ThemeManager::new();
    assert!(!manager.set_current("Nope"));
    assert_eq!(manager.current().name, "Corgi Dark");
    assert!(manager.get("Pembroke").is_some());
    assert!(manager.get("Nope").is_none());
    let mut t = Theme::corgi_sunset();
    t.name = "Mine".to_string();
    manager.insert(t);
    assert!(manager.set_current("Mine"));
    assert_eq!(manager.list().len(), 5);
}

#[test]
fn builtin_theme_colors() {
    let t = Theme::corgi_dark();
    assert!(t.is_dark);
    assert_eq!(t.name, "Corgi Dark");
    assert!(!Theme::corgi_light().is_dark);
}


/// An `~/.ssh/config` with three hosts: a production web host behind a
/// bastion, a staging database on the default port, and a wildcard block.
const SSH_CONFIG_SAMPLE: &str = "# Sample SSH configuration
Host prod-web
    HostName prod-web.example.com
    User deploy
    Port 2222
    IdentityFile ~/.ssh/prod_web
    ProxyJump bastion
    ServerAliveInterval 30

Host staging-db
    HostName 10.20.30.40
    User postgres

Host *
    AddKeysToAgent yes
";

#[test]
fn ssh_fixture_parses_hosts_options_and_commands() {
    let hosts = parse_ssh_config(SSH_CONFIG_SAMPLE, 22);

    assert_eq!(hosts.len(), 3);

    let prod = hosts.iter().find(|host| host.name == "prod-web").expect("prod-web host should be parsed");
    assert_eq!(prod.hostname, "prod-web.example.com");
    assert_eq!(prod.username.as_deref(), Some("deploy"));
    assert_eq!(prod.port, 2222);
    assert_eq!(prod.identity_file.clone(), Some("~/.ssh/prod_web".to_string()));
    assert!(prod.options.contains(&"ProxyJump bastion".to_string()));
    assert!(prod.options.contains(&"ServerAliveInterval 30".to_string()));
    assert_eq!(
        prod.build_command(),
        vec![
            "ssh",
            "-p",
            "2222",
            "-i",
            "~/.ssh/prod_web",
            "ProxyJump bastion",
            "ServerAliveInterval 30",
            "deploy@prod-web.example.com",
        ]
    );

    let staging = hosts.iter().find(|host| host.name == "staging-db").expect("staging-db host should be parsed");
    assert_eq!(staging.port, 22, "default port should be applied");
    assert_eq!(staging.display_string(), "postgres@10.20.30.40:22");
}
