//! The library's flag parser against clap's, built with the same flags as
//! the program's clap definition, on many argument lists.

use clap::builder::PathBufValueParser;
use clap::error::ErrorKind;
use clap::{Arg, ArgAction, Command};
use horto_os_ui_tui::cli::{Cli, CliError};

fn clap_command() -> Command {
    Command::new("horto-os-ui-tui")
        .about("Horto OS UI terminal")
        .version("0.1.0")
        .long_version("0.1.0 (abc)")
        .arg(Arg::new("dry_run").long("dry-run").action(ArgAction::SetTrue))
        .arg(Arg::new("minimal").long("minimal").action(ArgAction::SetTrue))
        .arg(Arg::new("skip_piper").long("skip-piper").action(ArgAction::SetTrue))
        .arg(Arg::new("remote").long("remote").action(ArgAction::Set))
        .arg(Arg::new("install_ssh_key").long("install-ssh-key").action(ArgAction::SetTrue))
        .arg(
            Arg::new("bin_dir")
                .long("bin-dir")
                .action(ArgAction::Set)
                .value_parser(PathBufValueParser::new()),
        )
        .arg(Arg::new("release_tag").long("release-tag").action(ArgAction::Set))
}

fn by_clap(args: &[&str]) -> Result<Cli, CliError> {
    let mut all = vec!["horto-os-ui-tui"];
    all.extend_from_slice(args);
    match clap_command().try_get_matches_from(all) {
        Ok(m) => Ok(Cli {
            dry_run: m.get_flag("dry_run"),
            minimal: m.get_flag("minimal"),
            skip_piper: m.get_flag("skip_piper"),
            remote: m.get_one::<String>("remote").cloned(),
            install_ssh_key: m.get_flag("install_ssh_key"),
            bin_dir: m
                .get_one::<std::path::PathBuf>("bin_dir")
                .map(|p| p.to_string_lossy().into_owned()),
            release_tag: m.get_one::<String>("release_tag").cloned(),
        }),
        Err(e) => Err(match e.kind() {
            ErrorKind::DisplayHelp => CliError::Help,
            ErrorKind::DisplayVersion => CliError::Version,
            _ => CliError::Invalid,
        }),
    }
}

fn by_library(args: &[&str]) -> Result<Cli, CliError> {
    let mut all = vec!["horto-os-ui-tui".to_string()];
    all.extend(args.iter().map(|s| s.to_string()));
    Cli::try_parse_from(&all, None, None)
}

fn same(a: &Result<Cli, CliError>, b: &Result<Cli, CliError>) -> bool {
    match (a, b) {
        (Ok(x), Ok(y)) => {
            x.dry_run == y.dry_run
                && x.minimal == y.minimal
                && x.skip_piper == y.skip_piper
                && x.remote == y.remote
                && x.install_ssh_key == y.install_ssh_key
                && x.bin_dir == y.bin_dir
                && x.release_tag == y.release_tag
        }
        (Err(x), Err(y)) => x == y,
        _ => false,
    }
}

fn check(cases: &[&[&str]]) {
    for args in cases {
        let lib = by_library(args);
        let clap = by_clap(args);
        assert!(same(&lib, &clap), "args {args:?}: library {lib:?}, clap {clap:?}");
    }
}

#[test]
fn flags_agree_with_clap() {
    check(&[
        &[],
        &["--dry-run"],
        &["--minimal"],
        &["--skip-piper"],
        &["--install-ssh-key"],
        &["--dry-run", "--minimal", "--skip-piper", "--install-ssh-key"],
        &["--skip-piper", "--dry-run"],
    ]);
}

#[test]
fn values_agree_with_clap() {
    check(&[
        &["--remote", "horto"],
        &["--remote=horto"],
        &["--remote", ""],
        &["--remote="],
        &["--remote", "user@box", "--dry-run"],
        &["--release-tag", "dev-preview"],
        &["--release-tag=v0.1.0"],
        &["--release-tag", ""],
        &["--bin-dir", "target/debug"],
        &["--bin-dir=bins"],
        &["--remote", "a=b"],
        &["--remote", "-x"],
    ]);
}

#[test]
fn refusals_agree_with_clap() {
    check(&[
        &["--remote"],
        &["--bin-dir"],
        &["--bin-dir", ""],
        &["--bin-dir="],
        &["--nope"],
        &["stray"],
        &["-d"],
        &["--dry-run=true"],
        &["--dry-run", "--dry-run"],
        &["--remote", "a", "--remote", "b"],
        &["--remote", "--dry-run"],
        &["--nope", "--help"],
    ]);
}

#[test]
fn help_and_version_agree_with_clap() {
    check(&[
        &["-h"],
        &["--help"],
        &["-V"],
        &["--version"],
        &["--dry-run", "--help"],
        &["--help", "--nope"],
        &["--version", "--help"],
    ]);
}
