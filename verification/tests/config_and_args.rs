use alpenrose::cli::{parse_args, unknown_option_text, usage_text, version_text, ArgsOutcome};
use alpenrose::config::{path_in_dir, Config, DisplayConfig, Features, InboxConfig, SmtpConfig, SortKey, ThreadStyle};
use alpenrose::mail::{Address, MessageFlags};

fn args(v: &[&str]) -> Vec<String> {
    v.iter().map(|s| s.to_string()).collect()
}

fn run_config(o: ArgsOutcome) -> Option<String> {
    match o {
        ArgsOutcome::Run(a) => a.config_file,
        _ => panic!("expected a normal start"),
    }
}

#[test]
fn config_defaults() {
    let c = Config::default();
    assert_eq!(c.personal_name, "");
    assert_eq!(c.user_domain, "");
    assert!(c.smtp_server.is_none());
    assert_eq!(c.inbox.port, 993);
    assert!(c.inbox.use_tls);
    assert_eq!(c.inbox.mailbox, "INBOX");
    assert!(c.folder_collections.is_empty());
    assert!(c.editor.is_none());
    assert_eq!(c.display.sort_key, SortKey::Arrival);
    assert!(!c.display.sort_reverse);
    assert_eq!(c.display.threading, ThreadStyle::NoThreading);
    assert_eq!(c.display.index_format, "STATUS MSGNO DATE FROM SIZE SUBJECT");
    assert!(c.display.use_colors);
    assert!(c.signature_file.is_none());
    assert_eq!(c.features, Features::default());
    assert!(!c.features.quit_without_confirm);
}

#[test]
fn section_defaults() {
    let s = SmtpConfig::default();
    assert_eq!(s.port, 587);
    assert!(s.use_tls);
    assert_eq!(s.server, "");
    assert!(s.username.is_none());
    let i = InboxConfig::default();
    assert_eq!(i.server, "");
    let d = DisplayConfig::default();
    assert_eq!(d.index_format, "STATUS MSGNO DATE FROM SIZE SUBJECT");
    assert_eq!(SortKey::default(), SortKey::Arrival);
    assert_eq!(ThreadStyle::default(), ThreadStyle::NoThreading);
}

#[test]
fn config_path_in_home() {
    assert_eq!(Config::path_for_home(Some("/home/alice".to_string())), "/home/alice/.alpenrose.toml");
    assert_eq!(Config::path_for_home(Some("/".to_string())), "/.alpenrose.toml");
    assert_eq!(Config::path_for_home(None), "./.alpenrose.toml");
}

#[test]
fn default_config_path_names_the_file() {
    let p = Config::default_path();
    assert!(p.ends_with("/.alpenrose.toml"));
}

#[test]
fn joining_paths() {
    assert_eq!(path_in_dir("a/b/", "c"), "a/b/c");
    assert_eq!(path_in_dir("a/b", "c"), "a/b/c");
    assert_eq!(path_in_dir("", "c"), "c");
}

#[test]
fn address_display() {
    let a = Address { personal: Some("Ada Lovelace".to_string()), mailbox: "ada".to_string(), host: "example.com".to_string() };
    assert_eq!(a.display(), "Ada Lovelace <ada@example.com>");
    let b = Address { personal: None, mailbox: "bob".to_string(), host: "example.org".to_string() };
    assert_eq!(b.display(), "bob@example.org");
}

#[test]
fn message_flags_default_to_unset() {
    let f = MessageFlags::default();
    assert!(!f.seen && !f.answered && !f.flagged && !f.deleted && !f.draft && !f.recent);
}

#[test]
fn args_empty_runs_with_default_config() {
    assert_eq!(run_config(parse_args(&args(&[]))), None);
}

#[test]
fn args_config_file() {
    assert_eq!(run_config(parse_args(&args(&["-c", "my.toml"]))), Some("my.toml".to_string()));
    assert_eq!(run_config(parse_args(&args(&["--config", "a.toml", "-c", "b.toml"]))), Some("b.toml".to_string()));
    assert_eq!(run_config(parse_args(&args(&["-c", "a.toml", "-c"]))), None);
    // The file name is taken as it is, even when it looks like an option.
    assert_eq!(run_config(parse_args(&args(&["-c", "-h"]))), Some("-h".to_string()));
}

#[test]
fn args_help_version_unknown() {
    assert!(matches!(parse_args(&args(&["-h"])), ArgsOutcome::ShowHelp));
    assert!(matches!(parse_args(&args(&["--help", "--bogus"])), ArgsOutcome::ShowHelp));
    assert!(matches!(parse_args(&args(&["-c", "x", "--version"])), ArgsOutcome::ShowVersion));
    assert!(matches!(parse_args(&args(&["-v"])), ArgsOutcome::ShowVersion));
    match parse_args(&args(&["-x", "-h"])) {
        ArgsOutcome::UnknownOption(o) => assert_eq!(o, "-x"),
        _ => panic!("expected an unknown option"),
    }
}

#[test]
fn printed_texts() {
    let u = usage_text("0.1.0");
    assert!(u.starts_with("Alpenrose 0.1.0 -- A Rust port of the Alpine email client\n\nUsage: alpenrose [OPTIONS]\n"));
    assert!(u.contains("\n  -c, --config <FILE>  Use specified config file\n"));
    assert!(u.ends_with("Import legacy Alpine/Pine config file\n"));
    assert_eq!(version_text("0.1.0"), "Alpenrose 0.1.0");
    let (a, b) = unknown_option_text("-z");
    assert_eq!(a, "Unknown option: -z");
    assert_eq!(b, "Try 'alpenrose --help' for more information.");
}
