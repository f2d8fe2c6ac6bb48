use horto_os_ui_tui::cli::{Cli, CliError};
use horto_os_ui_tui::text::{
    contains_text, is_control, lines_of, split_field, str_eq, trim_text, usize_text,
};

fn args(a: &[&str]) -> Vec<String> {
    a.iter().map(|s| s.to_string()).collect()
}

fn parse(a: &[&str]) -> Result<Cli, CliError> {
    Cli::try_parse_from(&args(a), None, None)
}

#[test]
fn decimal_text() {
    assert_eq!(usize_text(0), "0");
    assert_eq!(usize_text(7), "7");
    assert_eq!(usize_text(10), "10");
    assert_eq!(usize_text(12345), "12345");
    assert_eq!(usize_text(usize::MAX), usize::MAX.to_string());
}

#[test]
fn trimming() {
    assert_eq!(trim_text("  dev-preview \t"), "dev-preview");
    assert_eq!(trim_text("\u{3000}v0.1.0\u{a0}"), "v0.1.0");
    assert_eq!(trim_text("   "), "");
    assert_eq!(trim_text(""), "");
    assert_eq!(trim_text("a b"), "a b");
}

#[test]
fn lines_like_str_lines() {
    for s in ["a\r\nb\n", "a\r", "", "\n", "a\n\nb", "x\ny\r\n\r\n", "\r\n"] {
        let expect: Vec<String> = s.lines().map(|l| l.to_string()).collect();
        assert_eq!(lines_of(s), expect, "input {s:?}");
    }
}

#[test]
fn fields_like_str_split() {
    for s in ["s1 | pending | Title *", " | | ", "a", "", "x |  | y", "a | b"] {
        for n in 0..4 {
            let expect = s.split(" | ").nth(n).map(|x| x.to_string());
            assert_eq!(split_field(s, n), expect, "input {s:?} field {n}");
        }
    }
}

#[test]
fn contains_and_equality() {
    assert!(contains_text("s2 | … | Netplan *", " *"));
    assert!(!contains_text("s2 | … | Netplan", " *"));
    assert!(contains_text("abc", ""));
    assert!(!contains_text("", "a"));
    assert!(str_eq("pending", "pending"));
    assert!(!str_eq("pending", "pendin"));
    assert!(is_control('\u{0}') && is_control('\u{9f}') && !is_control('\u{a0}') && !is_control('a'));
}

#[test]
fn cli_defaults_and_options() {
    let c = parse(&["tui"]).unwrap();
    assert!(!c.dry_run && !c.minimal && !c.skip_piper && !c.install_ssh_key);
    assert_eq!(c.remote, None);
    let c = parse(&[
        "tui",
        "--remote",
        "horto-box",
        "--install-ssh-key",
        "--bin-dir=target/debug",
        "--release-tag",
        "dev-preview",
    ])
    .unwrap();
    assert_eq!(c.remote.as_deref(), Some("horto-box"));
    assert!(c.install_ssh_key);
    assert_eq!(c.bin_dir.as_deref(), Some("target/debug"));
    assert_eq!(c.release_tag.as_deref(), Some("dev-preview"));
    let c = parse(&["tui", "--remote", "-", "--"]).unwrap();
    assert_eq!(c.remote.as_deref(), Some("-"));
    let c = parse(&["tui", "--release-tag="]).unwrap();
    assert_eq!(c.release_tag.as_deref(), Some(""));
}

#[test]
fn cli_help_and_version() {
    assert_eq!(parse(&["tui", "--help"]), Err(CliError::Help));
    assert_eq!(parse(&["tui", "-h"]), Err(CliError::Help));
    assert_eq!(parse(&["tui", "--dry-run", "-V"]), Err(CliError::Version));
    assert_eq!(parse(&["tui", "--version"]), Err(CliError::Version));
}

#[test]
fn cli_refuses_bad_arguments() {
    assert_eq!(parse(&["tui", "--dry-run", "--dry-run"]), Err(CliError::Invalid));
    assert_eq!(parse(&["tui", "--nope"]), Err(CliError::Invalid));
    assert_eq!(parse(&["tui", "extra"]), Err(CliError::Invalid));
    assert_eq!(parse(&["tui", "--remote"]), Err(CliError::Invalid));
    assert_eq!(parse(&["tui", "--remote", "--dry-run"]), Err(CliError::Invalid));
    assert_eq!(parse(&["tui", "--remote", "-h"]), Err(CliError::Invalid));
    assert_eq!(parse(&["tui", "--remote=a", "--remote=b"]), Err(CliError::Invalid));
    assert_eq!(parse(&["tui", "--bin-dir="]), Err(CliError::Invalid));
    assert_eq!(parse(&["tui", "--dry-run=true"]), Err(CliError::Invalid));
    assert_eq!(parse(&["tui", "--", "x"]), Err(CliError::Invalid));
    assert_eq!(parse(&["tui", "-x"]), Err(CliError::Invalid));
}

#[test]
fn cli_env_fallbacks() {
    let c = Cli::try_parse_from(&args(&["tui"]), Some("/opt/bins"), Some("v0.1.0")).unwrap();
    assert_eq!(c.bin_dir.as_deref(), Some("/opt/bins"));
    assert_eq!(c.release_tag.as_deref(), Some("v0.1.0"));
    let c = Cli::try_parse_from(&args(&["tui", "--bin-dir", "d"]), Some("/opt/bins"), None).unwrap();
    assert_eq!(c.bin_dir.as_deref(), Some("d"));
    assert_eq!(Cli::try_parse_from(&args(&["tui"]), Some(""), None), Err(CliError::Invalid));
}
