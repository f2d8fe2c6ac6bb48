//! Properties that span several operations of the UI.

use vstd::prelude::*;

use crate::app::{
    first_pending, host_title, is_ctrl_c, is_quit_spec, key_post, log_entry, logs_after,
    pipeline_lines, ready_text, smart_step, step_line, App, KeyAction,
    PipelineStep, LOG_CAP,
};
use crate::cli::{parse_spec, parse_step, CliError, CliView, ParseView};
use crate::flow::{runs_without_asking, target_of, RemoteTarget};
use crate::probe::{footer_cli_label_spec, BoxCliView};
use crate::overview::{urls_text, UrlCheck};
use crate::probe::{cli_status_label, SurfaceProbeReport};
use crate::tabs::{panel_cli_spec, Screen};
use crate::prompt::{edit_buffer, is_confirm_no, is_confirm_yes, KeyCode, KeyEvent, KeyEventKind};
use crate::text::{field_spec, fields_from, first_sep_from, is_control_spec, sep_at, trim_spec};

verus! {

/// The log never holds more than 500 entries, its newest entry is the one
/// just added, and below the cap nothing is dropped.
pub proof fn lemma_log_keeps_newest(logs: Seq<Seq<char>>, ts: Seq<char>, line: Seq<char>)
    requires
        logs.len() <= LOG_CAP,
    ensures
        logs_after(logs, log_entry(ts, line)).len() <= LOG_CAP,
        logs_after(logs, log_entry(ts, line)).last() == log_entry(ts, line),
        logs.len() < LOG_CAP ==> logs_after(logs, log_entry(ts, line)) == logs.push(
            log_entry(ts, line),
        ),
        logs.len() == LOG_CAP ==> logs_after(logs, log_entry(ts, line)) == logs.drop_first().push(
            log_entry(ts, line),
        ),
{
    let e = log_entry(ts, line);
    if logs.len() == LOG_CAP {
        assert(logs.push(e).skip(1) =~= logs.drop_first().push(e));
    }
}

/// Ctrl+C quits from every state, the Host dialog included.
pub proof fn lemma_ctrl_c_always_quits(a: App, k: KeyEvent, b: App, act: KeyAction)
    requires
        k.kind == KeyEventKind::Press,
        is_ctrl_c(k),
        key_post(a, k, b, act),
    ensures
        act == KeyAction::Quit,
        b == a,
{
}

/// Outside the Host dialog, `q`, `Q` and Ctrl+C quit from every state, the
/// help overlay and the y/N questions included.
pub proof fn lemma_quit_keys_always_quit(a: App, k: KeyEvent, b: App, act: KeyAction)
    requires
        a.host_input is None,
        k.kind == KeyEventKind::Press,
        is_quit_spec(k),
        key_post(a, k, b, act),
    ensures
        act == KeyAction::Quit,
        b == a,
{
}

/// While the Host dialog is open only Ctrl+C quits: every other key (`q`
/// and Esc among them) goes to the dialog, leaves the screen, the mode, the
/// log and the Setup list alone, and asks at most for a probe of the new
/// host.
pub proof fn lemma_host_dialog_takes_keys(a: App, k: KeyEvent, b: App, act: KeyAction)
    requires
        a.host_input is Some,
        k.kind == KeyEventKind::Press,
        !is_ctrl_c(k),
        key_post(a, k, b, act),
    ensures
        act == KeyAction::Nothing || act == (KeyAction::Refresh { announce: false }),
        b.screen == a.screen,
        b.dry_run == a.dry_run,
        b.logs == a.logs,
        b.status_lines == a.status_lines,
        b.selected == a.selected,
        b.confirm_destructive == a.confirm_destructive,
{
}

/// Enter or `e` on the SSH tab of a remote UI opens the Host dialog with the
/// current host typed in.
pub proof fn lemma_ssh_tab_opens_host_dialog(a: App, k: KeyEvent, b: App, act: KeyAction)
    requires
        a.remote is Some,
        a.screen == Screen::Ssh,
        a.host_input is None,
        !a.help_open,
        a.pending_token is None,
        a.confirm_destructive is None,
        k.kind == KeyEventKind::Press,
        k.code == KeyCode::Enter || k.code == KeyCode::Char('e'),
        key_post(a, k, b, act),
    ensures
        act == KeyAction::Nothing,
        b.host_input matches Some(t) && t@.title == host_title() && t@.buffer
            == a.remote->Some_0@,
{
}

/// Submitting the Host dialog with a text that is not blank points the UI
/// at that host, trimmed: every later remote run goes there, and a probe of
/// it is asked for at once.
pub proof fn lemma_host_submit_sets_host(a: App, k: KeyEvent, b: App, act: KeyAction)
    requires
        a.host_input is Some,
        trim_spec(a.host_input->Some_0@.buffer).len() > 0,
        k.kind == KeyEventKind::Press,
        !k.modifiers.control,
        k.code == KeyCode::Enter,
        key_post(a, k, b, act),
    ensures
        act == (KeyAction::Refresh { announce: false }),
        b.host_input is None,
        b.remote matches Some(h) && h@ == trim_spec(a.host_input->Some_0@.buffer),
        forall|t: Option<RemoteTarget>| #[trigger]
            target_of(b, t) ==> (t matches Some(x) && x.host@ == trim_spec(
                a.host_input->Some_0@.buffer,
            )),
{
}

/// While help is open, only Esc and `?` (besides the quit keys) do
/// anything, and they only close it.
pub proof fn lemma_help_swallows_keys(a: App, k: KeyEvent, b: App, act: KeyAction)
    requires
        a.host_input is None,
        a.help_open,
        !is_quit_spec(k),
        key_post(a, k, b, act),
    ensures
        act == KeyAction::Nothing,
        k.kind == KeyEventKind::Press && (k.code == KeyCode::Esc || k.code == KeyCode::Char('?'))
            ==> !b.help_open && b.message@ == ready_text(),
        !(k.kind == KeyEventKind::Press && (k.code == KeyCode::Esc || k.code == KeyCode::Char('?'))) ==> b == a,
{
}

/// The token question is a dialog of the UI: a key changes nothing by
/// itself, yes asks to save the token, no asks to skip it, and every other
/// key (but the quit keys) is ignored.
pub proof fn lemma_token_question_in_ui(a: App, k: KeyEvent, b: App, act: KeyAction)
    requires
        a.host_input is None,
        !a.help_open,
        a.pending_token is Some,
        k.kind == KeyEventKind::Press,
        !is_quit_spec(k),
        key_post(a, k, b, act),
    ensures
        b == a,
        is_confirm_yes(k.code) ==> act == KeyAction::SaveToken,
        is_confirm_no(k.code) ==> act == KeyAction::SkipToken,
        !is_confirm_yes(k.code) && !is_confirm_no(k.code) ==> act == KeyAction::Nothing,
{
}

/// A step waiting for confirmation runs once it is confirmed: a yes key
/// asks for the run, and the run is then not asked about again.
pub proof fn lemma_confirmed_step_runs(
    a: App,
    k: KeyEvent,
    b: App,
    act: KeyAction,
    destructive: bool,
)
    requires
        a.host_input is None,
        !a.help_open,
        a.pending_token is None,
        a.confirm_destructive matches Some(id) && id@ != "reboot"@,
        k.kind == KeyEventKind::Press,
        !is_quit_spec(k),
        is_confirm_yes(k.code),
        key_post(a, k, b, act),
    ensures
        act == KeyAction::RunSelected,
        runs_without_asking(b, destructive),
{
}

/// A destructive step in apply mode is never run by the first request.
pub proof fn lemma_destructive_asks_first(a: App)
    requires
        !a.dry_run,
        a.confirm_destructive is None,
    ensures
        !runs_without_asking(a, true),
        runs_without_asking(a, false),
{
}

/// The row that the Setup list selects exists whenever there are rows.
pub proof fn lemma_smart_step_in_range(remote: bool, cli_current: bool, lines: Seq<Seq<char>>)
    ensures
        0 <= smart_step(remote, cli_current, lines),
        lines.len() > 0 ==> smart_step(remote, cli_current, lines) < lines.len(),
{
    let start: int = if remote {
        1
    } else {
        0
    };
    lemma_first_pending_in_range(lines, start);
}

/// A waiting row found from `i` is a row at or after `i`.
pub proof fn lemma_first_pending_in_range(lines: Seq<Seq<char>>, i: int)
    ensures
        first_pending(lines, i) matches Some(j) ==> i <= j < lines.len(),
    decreases lines.len() - i,
{
    if i < 0 || i >= lines.len() {
    } else if crate::app::line_is_pending(lines[i]) {
    } else {
        lemma_first_pending_in_range(lines, i + 1);
    }
}

/// Typing a printable character and then Backspace leaves the text as it was.
pub proof fn lemma_type_then_backspace(buffer: Seq<char>, c: char, k1: KeyEvent, k2: KeyEvent)
    requires
        !k1.modifiers.control && k1.code == KeyCode::Char(c),
        !is_control_spec(c),
        !k2.modifiers.control && k2.code == KeyCode::Backspace,
    ensures
        edit_buffer(edit_buffer(buffer, k1), k2) == buffer,
{
    assert(buffer.push(c).drop_last() =~= buffer);
}

/// Ctrl chords never edit the text.
pub proof fn lemma_control_chords_do_not_edit(buffer: Seq<char>, k: KeyEvent)
    requires
        k.modifiers.control,
    ensures
        edit_buffer(buffer, k) == buffer,
{
}

/// No separator starts in `[i, k)`: the first separator from `i` is the
/// first from `k`.
pub proof fn lemma_no_sep_between(s: Seq<char>, i: int, k: int)
    requires
        0 <= i <= k,
        k + 3 <= s.len(),
        forall|j: int| i <= j < k ==> !sep_at(s, j),
    ensures
        first_sep_from(s, i) == first_sep_from(s, k),
    decreases k - i,
{
    if i < k {
        lemma_no_sep_between(s, i + 1, k);
    }
}

/// A step line splits back into its id and status when neither holds a
/// `|`: the Setup list reads back what it wrote.
pub proof fn lemma_step_line_fields(
    id: Seq<char>,
    status: Seq<char>,
    title: Seq<char>,
    destructive: bool,
)
    requires
        forall|i: int| 0 <= i < id.len() ==> id[i] != '|',
        forall|i: int| 0 <= i < status.len() ==> status[i] != '|',
    ensures
        field_spec(step_line(id, status, title, destructive), 0) == Some(id),
        field_spec(step_line(id, status, title, destructive), 1) == Some(status),
{
    reveal_strlit(" | ");
    reveal_strlit(" *");
    let s = step_line(id, status, title, destructive);
    let a = id.len() as int;
    let b = a + 3 + status.len();
    let sep = " | "@;
    assert(sep.len() == 3 && sep[0] == ' ' && sep[1] == '|' && sep[2] == ' ');
    assert(s.len() >= b + 3);
    assert forall|j: int| 0 <= j < a + 3 implies #[trigger] s[j] == (if j < a {
        id[j]
    } else {
        sep[j - a]
    }) by {}
    assert forall|j: int| a + 3 <= j < b + 3 implies #[trigger] s[j] == (if j < b {
        status[j - a - 3]
    } else {
        sep[j - b]
    }) by {}
    assert forall|j: int| 0 <= j < a implies !sep_at(s, j) by {
        assert(s[j + 1] != '|');
    }
    assert(sep_at(s, a));
    lemma_no_sep_between(s, 0, a);
    assert(first_sep_from(s, 0) == a);
    assert forall|j: int| a + 3 <= j < b implies !sep_at(s, j) by {
        assert(s[j + 1] != '|');
    }
    assert(sep_at(s, b));
    lemma_no_sep_between(s, a + 3, b);
    assert(first_sep_from(s, a + 3) == b);
    assert(s.subrange(0, a) =~= id);
    assert(s.subrange(a + 3, b) =~= status);
    let f = fields_from(s, 0);
    assert(fields_from(s, a + 3) == seq![s.subrange(a + 3, b)] + fields_from(s, b + 3));
    assert(f == seq![s.subrange(0, a)] + fields_from(s, a + 3));
    assert(f[0] == id);
    assert(f[1] == status);
}

/// Steps of unknown status count as waiting: with a current box CLI, the
/// remote Setup list built from the pipeline selects its first step, right
/// after `s0`.
pub proof fn lemma_fresh_pipeline_selects_first_step(s0: Seq<char>, pipeline: Seq<PipelineStep>)
    requires
        pipeline.len() > 0,
        forall|i: int| 0 <= i < pipeline[0].id@.len() ==> pipeline[0].id@[i] != '|',
    ensures
        smart_step(true, true, seq![s0] + pipeline_lines(pipeline)) == 1,
{
    reveal_strlit("…");
    let lines = seq![s0] + pipeline_lines(pipeline);
    let p = pipeline[0];
    assert(lines[1] == step_line(p.id@, "…"@, p.title@, p.destructive));
    lemma_step_line_fields(p.id@, "…"@, p.title@, p.destructive);
    assert(crate::app::line_is_pending(lines[1]));
    assert(first_pending(lines, 1) == Some(1int));
}

/// Enter on the Reboot tab or on a Setup row changes nothing by itself: it
/// asks for the reboot flow or the run of the row, whose first answer to a
/// reboot or a destructive step in apply mode is the y/N question (see
/// [`lemma_destructive_asks_first`]).
pub proof fn lemma_enter_asks_for_flows(a: App, k: KeyEvent, b: App, act: KeyAction)
    requires
        a.host_input is None,
        !a.help_open,
        a.pending_token is None,
        a.confirm_destructive is None,
        k.kind == KeyEventKind::Press,
        k.code == KeyCode::Enter,
        key_post(a, k, b, act),
    ensures
        a.screen == Screen::Reboot ==> act == KeyAction::Reboot && b == a,
        a.screen == Screen::Setup ==> act == KeyAction::RunSelected && b == a,
{
}

/// The footer names the box CLI only once a probe has reported on it, and
/// never in local mode.
pub proof fn lemma_footer_box_only_when_known(cli_local: Seq<char>, remote: bool, v: BoxCliView)
    ensures
        !remote || v == BoxCliView::NotProbed ==> footer_cli_label_spec(cli_local, remote, v)
            == "local="@ + cli_local,
        remote && v is Known ==> footer_cli_label_spec(cli_local, remote, v).len() > ("local="@
            + cli_local).len(),
{
    reveal_strlit(" box=");
}

/// A directory given to `--bin-dir` (or by `HORTO_BIN_DIR`) is never empty.
pub proof fn lemma_parsed_bin_dir_not_empty(
    args: Seq<Seq<char>>,
    env_bin_dir: Option<Seq<char>>,
    env_release_tag: Option<Seq<char>>,
)
    ensures
        parse_spec(args, env_bin_dir, env_release_tag) matches Ok(c) ==> c.bin_dir != Some(
            Seq::<char>::empty(),
        ),
{
}

/// No flag may be given twice: a second `--dry-run` is refused.
pub proof fn lemma_flag_twice_refused(s: ParseView)
    requires
        !s.trailing,
        s.pending is None,
        s.cli.dry_run,
    ensures
        parse_step(s, "--dry-run"@) == Err::<ParseView, CliError>(CliError::Invalid),
{
    reveal_strlit("--dry-run");
    reveal_strlit("--");
    reveal_strlit("dry-run");
    reveal_strlit("help");
    reveal_strlit("version");
    let t = "--dry-run"@;
    let rest = t.skip(2);
    assert(rest =~= "dry-run"@);
    crate::cli::lemma_first_char_from(rest, '=', 0);
    assert forall|i: int| 0 <= i < rest.len() implies rest[i] != '=' by {}
    assert(crate::cli::first_char_from(rest, '=', 0) == -1) by {
        let k = crate::cli::first_char_from(rest, '=', 0);
        if k != -1 {
            assert(rest[k] == '=');
        }
    }
    assert(t != "--"@) by {
        assert(t.len() != ("--"@).len());
    }
    assert(rest != "help"@) by {
        assert(rest.len() != ("help"@).len());
    }
    assert(rest != "version"@) by {
        assert(rest[0] != ("version"@)[0]);
    }
}

/// In the main view, Up and `k` move the Setup selection one row up (row 0
/// stays), Down and `j` one row down (the last row stays); nothing else
/// changes.
pub proof fn lemma_selection_moves_one_row(a: App, k: KeyEvent, b: App, act: KeyAction, i: usize)
    requires
        a.host_input is None,
        !a.help_open,
        a.pending_token is None,
        a.confirm_destructive is None,
        k.kind == KeyEventKind::Press,
        a.selected == Some(i),
        key_post(a, k, b, act),
    ensures
        k.code == KeyCode::Up || k.code == KeyCode::Char('k') ==> {
            &&& act == KeyAction::Nothing
            &&& b == (App { selected: b.selected, ..a })
            &&& b.selected matches Some(j) && (i > 0 ==> j == i - 1) && (i == 0 ==> j == 0)
        },
        k.code == KeyCode::Down || k.code == KeyCode::Char('j') ==> {
            &&& act == KeyAction::Nothing
            &&& b == (App { selected: b.selected, ..a })
            &&& b.selected matches Some(j) && (i + 1 < a.status_lines@.len() ==> j == i + 1) && (i
                + 1 >= a.status_lines@.len() ==> j == i)
        },
{
    assert(a.status_lines@.len() == a.status_lines.len());
}

/// `HORTO_RELEASE_TAG` is only a fallback: where the arguments give a
/// release tag, the result is the same whatever the variable holds; where
/// they give none, the variable's value is taken; an error of the arguments
/// stays that error.
pub proof fn lemma_release_tag_env_is_fallback(
    args: Seq<Seq<char>>,
    env_bin_dir: Option<Seq<char>>,
    env_release_tag: Option<Seq<char>>,
)
    ensures
        match parse_spec(args, env_bin_dir, None) {
            Ok(c) => if c.release_tag is Some {
                parse_spec(args, env_bin_dir, env_release_tag) == Ok::<CliView, CliError>(c)
            } else {
                parse_spec(args, env_bin_dir, env_release_tag) == Ok::<CliView, CliError>(
                    CliView { release_tag: env_release_tag, ..c },
                )
            },
            Err(e) => parse_spec(args, env_bin_dir, env_release_tag) == Err::<CliView, CliError>(e),
        },
{
}

/// `HORTO_BIN_DIR` is only a fallback: where the arguments give a
/// directory, the result is the same whatever the variable holds; where they
/// give none, a non-empty value of the variable is taken and an empty one
/// is refused; an error of the arguments stays that error.
pub proof fn lemma_bin_dir_env_is_fallback(
    args: Seq<Seq<char>>,
    env_bin_dir: Option<Seq<char>>,
    env_release_tag: Option<Seq<char>>,
)
    ensures
        match parse_spec(args, None, env_release_tag) {
            Ok(c) => if c.bin_dir is Some {
                parse_spec(args, env_bin_dir, env_release_tag) == Ok::<CliView, CliError>(c)
            } else {
                match env_bin_dir {
                    None => parse_spec(args, env_bin_dir, env_release_tag) == Ok::<
                        CliView,
                        CliError,
                    >(c),
                    Some(d) => if d.len() == 0 {
                        parse_spec(args, env_bin_dir, env_release_tag) == Err::<CliView, CliError>(
                            CliError::Invalid,
                        )
                    } else {
                        parse_spec(args, env_bin_dir, env_release_tag) == Ok::<CliView, CliError>(
                            CliView { bin_dir: Some(d), ..c },
                        )
                    },
                }
            },
            Err(e) => parse_spec(args, env_bin_dir, env_release_tag) == Err::<CliView, CliError>(e),
        },
{
    match env_bin_dir {
        Some(d) => if d.len() == 0 {
            assert(d =~= Seq::<char>::empty());
        },
        None => {},
    }
}

/// The URL lines of a list of checks are the lines of its parts, one after
/// the other.
pub proof fn lemma_urls_text_concat(a: Seq<UrlCheck>, b: Seq<UrlCheck>)
    ensures
        urls_text(a + b) == urls_text(a) + urls_text(b),
    decreases b.len(),
{
    if b.len() == 0 {
        assert(a + b =~= a);
        assert(urls_text(a) + urls_text(b) =~= urls_text(a));
    } else {
        lemma_urls_text_concat(a, b.drop_last());
        assert((a + b).drop_last() =~= a + b.drop_last());
        assert((a + b).last() == b.last());
    }
}

/// Every URL check has its own line in the Overview's URL list, in order:
/// two spaces, its name, `[up]` exactly when the check answered and
/// `[down]` otherwise, then its URL.
pub proof fn lemma_url_line_marks_up(us: Seq<UrlCheck>, i: int)
    requires
        0 <= i < us.len(),
    ensures
        urls_text(us) == urls_text(us.take(i)) + ("  "@ + us[i].name@ + " ["@ + (if us[i].up {
            "up"@
        } else {
            "down"@
        }) + "]: "@ + us[i].url@ + "\n"@) + urls_text(us.skip(i + 1)),
{
    let one = seq![us[i]];
    assert(us =~= (us.take(i) + one) + us.skip(i + 1));
    lemma_urls_text_concat(us.take(i) + one, us.skip(i + 1));
    lemma_urls_text_concat(us.take(i), one);
    assert(one.drop_last() =~= Seq::<UrlCheck>::empty());
    assert(urls_text(Seq::<UrlCheck>::empty()) == Seq::<char>::empty());
    assert(urls_text(one) =~= Seq::<char>::empty() + "  "@ + us[i].name@ + " ["@ + (if us[i].up {
        "up"@
    } else {
        "down"@
    }) + "]: "@ + us[i].url@ + "\n"@);
}

/// The CLI panel of a probed box says `current=false` exactly when the
/// probe found the box CLI not current, whatever status it reported, and
/// `current=true` otherwise.
pub proof fn lemma_cli_panel_current_line(local: Seq<char>, r: SurfaceProbeReport)
    ensures
        panel_cli_spec(local, true, Some(r)) == "local="@ + local + "\n"@ + "box="@
            + cli_status_label(r.cli.status) + "\n"@ + "current="@ + (if r.cli.current {
            "true"@
        } else {
            "false"@
        }) + "\n"@ + "Enter: sync CLI to box (s0)\n"@,
{
}

/// A key typed without Ctrl in the Host dialog: every character outside
/// Unicode category Cc (digits, letters, punctuation, spaces, non-ASCII) is
/// appended; a Cc character (below U+0020, or U+007F to U+009F) changes
/// nothing.
pub proof fn lemma_printable_characters_are_typed(buffer: Seq<char>, c: char, k: KeyEvent)
    requires
        !k.modifiers.control,
        k.code == KeyCode::Char(c),
    ensures
        ((0x20 <= (c as u32) && (c as u32) < 0x7f) || 0x9f < (c as u32)) ==> edit_buffer(buffer, k)
            == buffer.push(c),
        ((c as u32) < 0x20 || (0x7f <= (c as u32) && (c as u32) <= 0x9f)) ==> edit_buffer(buffer, k)
            == buffer,
{
}

} // verus!
