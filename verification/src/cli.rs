//! Command-line flags of the terminal UI and their parsing.
//!
//! The grammar: long flags `--dry-run`, `--minimal`, `--skip-piper`,
//! `--install-ssh-key`; long options `--remote`, `--bin-dir`,
//! `--release-tag`, each taking one value either attached (`--remote=h`) or
//! as the next argument (a next argument that begins with `-` is not a
//! value, except `-` itself); `-h`/`--help` and `-V`/`--version`; `--` ends
//! the flags. No argument may be given twice, no positional argument is
//! taken, and the directory may not be empty. `--bin-dir` and
//! `--release-tag` fall back to `HORTO_BIN_DIR` and `HORTO_RELEASE_TAG`.

use vstd::prelude::*;

use crate::text::{str_eq, string_views};

verus! {

/// The flags the terminal UI starts with.
#[derive(Debug, Clone, PartialEq, Eq)]
pub struct Cli {
    pub dry_run: bool,
    pub minimal: bool,
    pub skip_piper: bool,
    /// OpenSSH Host alias or user@host; run setup via the remote runner.
    pub remote: Option<String>,
    /// Opt-in: install this PC's public key on the box. Off by default.
    pub install_ssh_key: bool,
    /// Local directory with box binaries (skips the GitHub Release download).
    pub bin_dir: Option<String>,
    /// GitHub Release tag for the box tar.gz (`v0.1.0` or tip `dev-preview`).
    pub release_tag: Option<String>,
}

/// Why the arguments did not give a set of flags.
#[derive(Debug, Clone, Copy, PartialEq, Eq, Structural)]
pub enum CliError {
    /// `-h` / `--help`: show the help.
    Help,
    /// `-V` / `--version`: show the version.
    Version,
    /// An unknown, repeated, misplaced or incomplete argument.
    Invalid,
}

/// An option waiting for its value.
#[derive(Debug, Clone, Copy, PartialEq, Eq, Structural)]
pub enum Opt {
    Remote,
    BinDir,
    ReleaseTag,
}

/// The flags as plain values.
pub ghost struct CliView {
    pub dry_run: bool,
    pub minimal: bool,
    pub skip_piper: bool,
    pub install_ssh_key: bool,
    pub remote: Option<Seq<char>>,
    pub bin_dir: Option<Seq<char>>,
    pub release_tag: Option<Seq<char>>,
}

/// View of an optional string.
pub open spec fn opt_text(s: Option<String>) -> Option<Seq<char>> {
    match s {
        Some(v) => Some(v@),
        None => None,
    }
}

impl Cli {
    /// The flags as plain values.
    pub open spec fn view_of(self) -> CliView {
        CliView {
            dry_run: self.dry_run,
            minimal: self.minimal,
            skip_piper: self.skip_piper,
            install_ssh_key: self.install_ssh_key,
            remote: opt_text(self.remote),
            bin_dir: opt_text(self.bin_dir),
            release_tag: opt_text(self.release_tag),
        }
    }
}

/// No flag given.
pub open spec fn empty_view() -> CliView {
    CliView {
        dry_run: false,
        minimal: false,
        skip_piper: false,
        install_ssh_key: false,
        remote: None,
        bin_dir: None,
        release_tag: None,
    }
}

/// Parser state: the flags so far, an option waiting for its value, and
/// whether `--` was seen.
pub ghost struct ParseView {
    pub cli: CliView,
    pub pending: Option<Opt>,
    pub trailing: bool,
}

/// The value an option has so far.
pub open spec fn opt_value(c: CliView, o: Opt) -> Option<Seq<char>> {
    match o {
        Opt::Remote => c.remote,
        Opt::BinDir => c.bin_dir,
        Opt::ReleaseTag => c.release_tag,
    }
}

/// Give option `o` the value `v`; a second value or an empty directory is
/// refused.
pub open spec fn set_opt(c: CliView, o: Opt, v: Seq<char>) -> Result<CliView, CliError> {
    if opt_value(c, o) is Some || (o == Opt::BinDir && v.len() == 0) {
        Err(CliError::Invalid)
    } else {
        Ok(
            match o {
                Opt::Remote => CliView { remote: Some(v), ..c },
                Opt::BinDir => CliView { bin_dir: Some(v), ..c },
                Opt::ReleaseTag => CliView { release_tag: Some(v), ..c },
            },
        )
    }
}

/// First position at or after `i` that holds `c`, or -1.
pub open spec fn first_char_from(s: Seq<char>, c: char, i: int) -> int
    decreases s.len() - i,
{
    if i < 0 || i >= s.len() {
        -1
    } else if s[i] == c {
        i
    } else {
        first_char_from(s, c, i + 1)
    }
}

/// A position found from `i` lies at or after `i` and holds `c`.
pub proof fn lemma_first_char_from(s: Seq<char>, c: char, i: int)
    ensures
        first_char_from(s, c, i) == -1 || (i <= first_char_from(s, c, i) < s.len() && s[first_char_from(
            s,
            c,
            i,
        )] == c),
    decreases s.len() - i,
{
    if i < 0 || i >= s.len() {
    } else if s[i] == c {
    } else {
        lemma_first_char_from(s, c, i + 1);
    }
}

/// A long argument `--name` or `--name=value`, split at its first `=`.
pub open spec fn long_parts(t: Seq<char>) -> (Seq<char>, Option<Seq<char>>) {
    let rest = t.skip(2);
    let k = first_char_from(rest, '=', 0);
    if k < 0 {
        (rest, None)
    } else {
        (rest.take(k), Some(rest.skip(k + 1)))
    }
}

/// A boolean flag: `--dry-run`, `--minimal`, `--skip-piper`, `--install-ssh-key`.
pub open spec fn set_flag(c: CliView, name: Seq<char>) -> Option<Result<CliView, CliError>> {
    if name == "dry-run"@ {
        Some(if c.dry_run { Err(CliError::Invalid) } else { Ok(CliView { dry_run: true, ..c }) })
    } else if name == "minimal"@ {
        Some(if c.minimal { Err(CliError::Invalid) } else { Ok(CliView { minimal: true, ..c }) })
    } else if name == "skip-piper"@ {
        Some(
            if c.skip_piper {
                Err(CliError::Invalid)
            } else {
                Ok(CliView { skip_piper: true, ..c })
            },
        )
    } else if name == "install-ssh-key"@ {
        Some(
            if c.install_ssh_key {
                Err(CliError::Invalid)
            } else {
                Ok(CliView { install_ssh_key: true, ..c })
            },
        )
    } else {
        None
    }
}

/// The option a long name stands for.
pub open spec fn opt_named(name: Seq<char>) -> Option<Opt> {
    if name == "remote"@ {
        Some(Opt::Remote)
    } else if name == "bin-dir"@ {
        Some(Opt::BinDir)
    } else if name == "release-tag"@ {
        Some(Opt::ReleaseTag)
    } else {
        None
    }
}

/// One argument, in state `s`.
pub open spec fn parse_step(s: ParseView, t: Seq<char>) -> Result<ParseView, CliError> {
    if s.trailing {
        Err(CliError::Invalid)
    } else if t == "--"@ {
        if s.pending is Some {
            Err(CliError::Invalid)
        } else {
            Ok(ParseView { trailing: true, ..s })
        }
    } else if t.len() >= 2 && t[0] == '-' && t[1] == '-' {
        if s.pending is Some {
            Err(CliError::Invalid)
        } else {
            let (name, value) = long_parts(t);
            if name == "help"@ || name == "version"@ {
                if value is Some {
                    Err(CliError::Invalid)
                } else if name == "help"@ {
                    Err(CliError::Help)
                } else {
                    Err(CliError::Version)
                }
            } else {
                match set_flag(s.cli, name) {
                    Some(r) => if value is Some {
                        Err(CliError::Invalid)
                    } else {
                        match r {
                            Ok(c) => Ok(ParseView { cli: c, ..s }),
                            Err(e) => Err(e),
                        }
                    },
                    None => match opt_named(name) {
                        None => Err(CliError::Invalid),
                        Some(o) => match value {
                            Some(v) => match set_opt(s.cli, o, v) {
                                Ok(c) => Ok(ParseView { cli: c, ..s }),
                                Err(e) => Err(e),
                            },
                            None => if opt_value(s.cli, o) is Some {
                                Err(CliError::Invalid)
                            } else {
                                Ok(ParseView { pending: Some(o), ..s })
                            },
                        },
                    },
                }
            }
        }
    } else if t.len() >= 2 && t[0] == '-' {
        if s.pending is Some {
            Err(CliError::Invalid)
        } else if t[1] == 'h' {
            Err(CliError::Help)
        } else if t[1] == 'V' {
            Err(CliError::Version)
        } else {
            Err(CliError::Invalid)
        }
    } else {
        match s.pending {
            Some(o) => match set_opt(s.cli, o, t) {
                Ok(c) => Ok(ParseView { cli: c, pending: None, ..s }),
                Err(e) => Err(e),
            },
            None => Err(CliError::Invalid),
        }
    }
}

/// All arguments, in order; the first error stops.
pub open spec fn parse_all(s: ParseView, ts: Seq<Seq<char>>) -> Result<ParseView, CliError>
    decreases ts.len(),
{
    if ts.len() == 0 {
        Ok(s)
    } else {
        match parse_step(s, ts[0]) {
            Ok(s2) => parse_all(s2, ts.drop_first()),
            Err(e) => Err(e),
        }
    }
}

/// The result of parsing `args` (the first is the program name), with the
/// values of `HORTO_BIN_DIR` and `HORTO_RELEASE_TAG` as fallbacks.
pub open spec fn parse_spec(
    args: Seq<Seq<char>>,
    env_bin_dir: Option<Seq<char>>,
    env_release_tag: Option<Seq<char>>,
) -> Result<CliView, CliError> {
    let toks = if args.len() == 0 {
        args
    } else {
        args.drop_first()
    };
    match parse_all(ParseView { cli: empty_view(), pending: None, trailing: false }, toks) {
        Err(e) => Err(e),
        Ok(s) => if s.pending is Some {
            Err(CliError::Invalid)
        } else {
            let c = s.cli;
            let c = if c.bin_dir is None && env_bin_dir is Some {
                CliView { bin_dir: env_bin_dir, ..c }
            } else {
                c
            };
            let c = if c.release_tag is None && env_release_tag is Some {
                CliView { release_tag: env_release_tag, ..c }
            } else {
                c
            };
            if c.bin_dir == Some(Seq::<char>::empty()) {
                Err(CliError::Invalid)
            } else {
                Ok(c)
            }
        },
    }
}

/// Parser state as plain values.
pub open spec fn state_view(cli: Cli, pending: Option<Opt>, trailing: bool) -> ParseView {
    ParseView { cli: cli.view_of(), pending, trailing }
}

/// Whether option `o` already has a value.
fn has_value(cli: &Cli, o: Opt) -> (r: bool)
    ensures
        r == (opt_value(cli.view_of(), o) is Some),
{
    match o {
        Opt::Remote => cli.remote.is_some(),
        Opt::BinDir => cli.bin_dir.is_some(),
        Opt::ReleaseTag => cli.release_tag.is_some(),
    }
}

/// Give option `o` the value `v`.
fn set_opt_value(cli: &mut Cli, o: Opt, v: &str) -> (r: Result<(), CliError>)
    ensures
        match set_opt(old(cli).view_of(), o, v@) {
            Ok(c) => r is Ok && final(cli).view_of() == c,
            Err(e) => r == Err::<(), CliError>(e),
        },
{
    if has_value(cli, o) || (o == Opt::BinDir && v.unicode_len() == 0) {
        return Err(CliError::Invalid);
    }
    let val = String::from_str(v);
    match o {
        Opt::Remote => cli.remote = Some(val),
        Opt::BinDir => cli.bin_dir = Some(val),
        Opt::ReleaseTag => cli.release_tag = Some(val),
    }
    Ok(())
}

/// Set a boolean flag by its long name; `None` when the name is no flag.
fn set_flag_named(cli: &mut Cli, name: &str) -> (r: Option<Result<(), CliError>>)
    ensures
        match set_flag(old(cli).view_of(), name@) {
            None => r is None && *final(cli) == *old(cli),
            Some(Ok(c)) => r == Some(Ok::<(), CliError>(())) && final(cli).view_of() == c,
            Some(Err(e)) => r == Some(Err::<(), CliError>(e)) && *final(cli) == *old(cli),
        },
{
    if str_eq(name, "dry-run") {
        if cli.dry_run {
            return Some(Err(CliError::Invalid));
        }
        cli.dry_run = true;
        Some(Ok(()))
    } else if str_eq(name, "minimal") {
        if cli.minimal {
            return Some(Err(CliError::Invalid));
        }
        cli.minimal = true;
        Some(Ok(()))
    } else if str_eq(name, "skip-piper") {
        if cli.skip_piper {
            return Some(Err(CliError::Invalid));
        }
        cli.skip_piper = true;
        Some(Ok(()))
    } else if str_eq(name, "install-ssh-key") {
        if cli.install_ssh_key {
            return Some(Err(CliError::Invalid));
        }
        cli.install_ssh_key = true;
        Some(Ok(()))
    } else {
        None
    }
}

/// The option a long name stands for.
fn opt_by_name(name: &str) -> (r: Option<Opt>)
    ensures
        r == opt_named(name@),
{
    if str_eq(name, "remote") {
        Some(Opt::Remote)
    } else if str_eq(name, "bin-dir") {
        Some(Opt::BinDir)
    } else if str_eq(name, "release-tag") {
        Some(Opt::ReleaseTag)
    } else {
        None
    }
}

/// A long argument split into its name and attached value.
fn split_long(t: &str) -> (r: (String, Option<String>))
    requires
        t@.len() >= 2,
    ensures
        r.0@ == long_parts(t@).0,
        opt_text(r.1) == long_parts(t@).1,
{
    let n = t.unicode_len();
    let rest = t.substring_char(2, n);
    assert(rest@ =~= t@.skip(2));
    let m = rest.unicode_len();
    let mut k: usize = 0;
    while k < m && rest.get_char(k) != '='
        invariant
            m == rest@.len(),
            k <= m,
            first_char_from(rest@, '=', 0) == first_char_from(rest@, '=', k as int),
        decreases m - k,
    {
        k = k + 1;
    }
    if k == m {
        (String::from_str(rest), None)
    } else {
        (String::from_str(rest.substring_char(0, k)), Some(String::from_str(rest.substring_char(k + 1, m))))
    }
}

/// One argument.
fn parse_one(cli: &mut Cli, pending: &mut Option<Opt>, trailing: &mut bool, t: &str) -> (r: Result<
    (),
    CliError,
>)
    ensures
        match parse_step(state_view(*old(cli), *old(pending), *old(trailing)), t@) {
            Ok(s) => r is Ok && state_view(*final(cli), *final(pending), *final(trailing)) == s,
            Err(e) => r == Err::<(), CliError>(e),
        },
{
    if *trailing {
        return Err(CliError::Invalid);
    }
    if str_eq(t, "--") {
        if pending.is_some() {
            return Err(CliError::Invalid);
        }
        *trailing = true;
        return Ok(());
    }
    let n = t.unicode_len();
    if n >= 2 && t.get_char(0) == '-' && t.get_char(1) == '-' {
        if pending.is_some() {
            return Err(CliError::Invalid);
        }
        let (name, value) = split_long(t);
        let is_help = str_eq(name.as_str(), "help");
        if is_help || str_eq(name.as_str(), "version") {
            if value.is_some() {
                return Err(CliError::Invalid);
            }
            return if is_help {
                Err(CliError::Help)
            } else {
                Err(CliError::Version)
            };
        }
        let ghost before = *cli;
        match set_flag_named(cli, name.as_str()) {
            Some(r) => {
                if value.is_some() {
                    return Err(CliError::Invalid);
                }
                return r;
            },
            None => {},
        }
        match opt_by_name(name.as_str()) {
            None => Err(CliError::Invalid),
            Some(o) => match value {
                Some(v) => set_opt_value(cli, o, v.as_str()),
                None => {
                    if has_value(cli, o) {
                        return Err(CliError::Invalid);
                    }
                    *pending = Some(o);
                    Ok(())
                },
            },
        }
    } else if n >= 2 && t.get_char(0) == '-' {
        if pending.is_some() {
            Err(CliError::Invalid)
        } else if t.get_char(1) == 'h' {
            Err(CliError::Help)
        } else if t.get_char(1) == 'V' {
            Err(CliError::Version)
        } else {
            Err(CliError::Invalid)
        }
    } else {
        match *pending {
            Some(o) => {
                let r = set_opt_value(cli, o, t);
                if r.is_ok() {
                    *pending = None;
                }
                r
            },
            None => Err(CliError::Invalid),
        }
    }
}

impl Cli {
    /// Parse the arguments (the first is the program name); `env_bin_dir`
    /// and `env_release_tag` are the values of `HORTO_BIN_DIR` and
    /// `HORTO_RELEASE_TAG`, if set.
    pub fn try_parse_from(
        args: &Vec<String>,
        env_bin_dir: Option<&str>,
        env_release_tag: Option<&str>,
    ) -> (r: Result<Cli, CliError>)
        ensures
            match parse_spec(
                string_views(args@),
                match env_bin_dir {
                    Some(v) => Some(v@),
                    None => None,
                },
                match env_release_tag {
                    Some(v) => Some(v@),
                    None => None,
                },
            ) {
                Ok(c) => r matches Ok(x) && x.view_of() == c,
                Err(e) => r == Err::<Cli, CliError>(e),
            },
    {
        let ghost all = string_views(args@);
        let ghost toks = if all.len() == 0 {
            all
        } else {
            all.drop_first()
        };
        let ghost init = ParseView { cli: empty_view(), pending: None, trailing: false };
        let mut cli = Cli {
            dry_run: false,
            minimal: false,
            skip_piper: false,
            remote: None,
            install_ssh_key: false,
            bin_dir: None,
            release_tag: None,
        };
        let mut pending: Option<Opt> = None;
        let mut trailing = false;
        let mut i: usize = if args.len() == 0 {
            0
        } else {
            1
        };
        assert(all.skip(i as int) =~= toks);
        while i < args.len()
            invariant
                all == string_views(args@),
                toks == (if all.len() == 0 {
                    all
                } else {
                    all.drop_first()
                }),
                init == (ParseView { cli: empty_view(), pending: None, trailing: false }),
                1 <= i <= args@.len() || (i == 0 && args@.len() == 0),
                parse_all(init, toks) == parse_all(
                    state_view(cli, pending, trailing),
                    all.skip(i as int),
                ),
            decreases args@.len() - i,
        {
            let ghost st = state_view(cli, pending, trailing);
            let r = parse_one(&mut cli, &mut pending, &mut trailing, args[i].as_str());
            assert(all.skip(i as int)[0] == args@[i as int]@);
            assert(all.skip(i as int).drop_first() =~= all.skip(i + 1));
            match r {
                Err(e) => {
                    assert(parse_all(st, all.skip(i as int)) == Err::<ParseView, CliError>(e));
                    return Err(e);
                },
                Ok(()) => {},
            }
            i = i + 1;
        }
        assert(all.skip(i as int) =~= Seq::<Seq<char>>::empty());
        if pending.is_some() {
            return Err(CliError::Invalid);
        }
        if cli.bin_dir.is_none() {
            match env_bin_dir {
                Some(v) => cli.bin_dir = Some(String::from_str(v)),
                None => {},
            }
        }
        if cli.release_tag.is_none() {
            match env_release_tag {
                Some(v) => cli.release_tag = Some(String::from_str(v)),
                None => {},
            }
        }
        let empty_dir = match &cli.bin_dir {
            Some(d) => d.as_str().unicode_len() == 0,
            None => false,
        };
        if empty_dir {
            assert(cli.view_of().bin_dir == Some(Seq::<char>::empty()));
            return Err(CliError::Invalid);
        }
        Ok(cli)
    }
}

} // verus!
