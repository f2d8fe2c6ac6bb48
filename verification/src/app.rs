//! The terminal UI's state and the decisions it takes on keys and on the
//! results of the work done outside (probes, SSH runs, local setup steps).

use vstd::prelude::*;

use crate::cli::Cli;
use crate::probe::{BoxCliView, RemoteBoxCliStatus, SurfaceProbeReport};
use crate::prompt::{edit_buffer, KeyCode, KeyEvent, KeyEventKind, TextInput, TextInputResult};
use crate::tabs::{
    bool_str, bool_text, from_digit_spec, next_spec, panel_api, panel_api_spec, panel_cli,
    panel_cli_spec, panel_mcp, panel_mcp_spec, panel_overview_remote, panel_overview_remote_spec,
    panel_reboot, panel_reboot_spec, panel_ssh, panel_ssh_spec, prev_spec, Screen,
};
use crate::text::{
    contains_spec, contains_text, field_spec, split_field, str_eq, string_views, trim_spec, trim_text,
};

verus! {

/// Status line shown when nothing else is to be said.
pub open spec fn ready_text() -> Seq<char> {
    "Ready (? help)"@
}

/// Most log lines kept.
pub const LOG_CAP: usize = 500;

/// Which setup pipeline runs.
#[derive(Debug, Clone, Copy, PartialEq, Eq, Structural)]
pub enum SetupKind {
    Full,
    Minimal,
}

/// Name of a pipeline kind.
pub open spec fn kind_name(k: SetupKind) -> Seq<char> {
    match k {
        SetupKind::Full => "full"@,
        SetupKind::Minimal => "minimal"@,
    }
}

impl SetupKind {
    /// Name of the kind, as footer and messages show it.
    pub fn as_str(self) -> (r: &'static str)
        ensures
            r@ == kind_name(self),
    {
        match self {
            SetupKind::Full => "full",
            SetupKind::Minimal => "minimal",
        }
    }
}

/// A step of the setup pipeline, before its status is known.
#[derive(Debug, Clone)]
pub struct PipelineStep {
    pub id: String,
    pub title: String,
    pub destructive: bool,
}

/// A step of a setup status report.
#[derive(Debug, Clone)]
pub struct SetupStepRow {
    pub id: String,
    pub status: String,
    pub title: String,
    pub destructive: bool,
}

/// One line of the Setup list: `id | status | title`, with ` *` after a
/// destructive step.
pub open spec fn step_line(id: Seq<char>, status: Seq<char>, title: Seq<char>, destructive: bool) -> Seq<
    char,
> {
    id + " | "@ + status + " | "@ + title + (if destructive {
        " *"@
    } else {
        Seq::empty()
    })
}

/// Setup list lines of a status report.
pub open spec fn report_lines(rows: Seq<SetupStepRow>) -> Seq<Seq<char>> {
    rows.map_values(|r: SetupStepRow| step_line(r.id@, r.status@, r.title@, r.destructive))
}

/// Setup list lines of a pipeline whose status is not known yet.
pub open spec fn pipeline_lines(steps: Seq<PipelineStep>) -> Seq<Seq<char>> {
    steps.map_values(|s: PipelineStep| step_line(s.id@, "…"@, s.title@, s.destructive))
}

/// Format one Setup list line.
pub fn format_step_line(id: &str, status: &str, title: &str, destructive: bool) -> (r: String)
    ensures
        r@ == step_line(id@, status@, title@, destructive),
{
    let mut out = String::from_str(id);
    out.append(" | ");
    out.append(status);
    out.append(" | ");
    out.append(title);
    if destructive {
        out.append(" *");
    }
    proof {
        if !destructive {
            assert(out@ =~= step_line(id@, status@, title@, destructive));
        }
    }
    out
}

/// The terminal UI's state.
pub struct App {
    pub screen: Screen,
    pub dry_run: bool,
    pub kind: SetupKind,
    pub skip_piper: bool,
    pub remote: Option<String>,
    pub install_ssh_key: bool,
    pub bin_dir: Option<String>,
    pub release_tag: Option<String>,
    /// Selected row of the Setup list.
    pub selected: Option<usize>,
    pub logs: Vec<String>,
    pub status_lines: Vec<String>,
    pub overview_text: String,
    pub panel_text: String,
    /// Step id (or `reboot`) waiting for a y/N answer.
    pub confirm_destructive: Option<String>,
    pub help_open: bool,
    pub message: String,
    /// Local TUI / tip CLI long version.
    pub cli_local: String,
    /// Last known box CLI status (remote). Starts as [`BoxCliView::NotProbed`].
    pub box_cli: BoxCliView,
    /// Box CLI matches `cli_local` (remote mode). Local mode always true.
    pub cli_current: bool,
    /// Last full surface probe (SSH/CLI/API/MCP).
    pub surfaces: Option<SurfaceProbeReport>,
    /// Extra Overview lines from the doctor/status snapshot.
    pub overview_extra: String,
    /// The OpenSSH Host dialog of the SSH tab, while it is open.
    pub host_input: Option<TextInput>,
    /// A status-API token created on the box, waiting for the y/N answer
    /// to save it locally.
    pub pending_token: Option<String>,
}

/// View of an optional string.
pub open spec fn opt_view(s: Option<String>) -> Option<Seq<char>> {
    match s {
        Some(v) => Some(v@),
        None => None,
    }
}

/// A log entry: timestamp, a space, the line.
pub open spec fn log_entry(ts: Seq<char>, line: Seq<char>) -> Seq<char> {
    ts + " "@ + line
}

/// The log after appending `e`: the newest 500 entries are kept.
pub open spec fn logs_after(logs: Seq<Seq<char>>, e: Seq<char>) -> Seq<Seq<char>> {
    let l = logs.push(e);
    if l.len() > LOG_CAP {
        l.skip(l.len() - LOG_CAP)
    } else {
        l
    }
}

/// Status word of the `s0` (Sync CLI) row.
pub open spec fn s0_status(box_cli: BoxCliView, cli_current: bool) -> Seq<char> {
    match box_cli {
        BoxCliView::NotProbed => "…"@,
        BoxCliView::Known(RemoteBoxCliStatus::AuthFailed) => "blocked"@,
        BoxCliView::Known(RemoteBoxCliStatus::Unreachable) => "blocked"@,
        _ => if cli_current {
            "done"@
        } else {
            "needed"@
        },
    }
}

/// The `s0` row of the remote Setup list.
pub open spec fn s0_line_spec(box_cli: BoxCliView, cli_current: bool) -> Seq<char> {
    "s0 | "@ + s0_status(box_cli, cli_current) + " | Sync CLI to box"@
}

/// A Setup row is waiting to run: its status field is `pending` or `…`.
pub open spec fn line_is_pending(line: Seq<char>) -> bool {
    field_spec(line, 1) == Some("pending"@) || field_spec(line, 1) == Some("…"@)
}

/// First waiting row at or after `i`.
pub open spec fn first_pending(lines: Seq<Seq<char>>, i: int) -> Option<int>
    decreases lines.len() - i,
{
    if i < 0 || i >= lines.len() {
        None
    } else if line_is_pending(lines[i]) {
        Some(i)
    } else {
        first_pending(lines, i + 1)
    }
}

/// The row the Setup list selects after its rows change: `s0` while the box
/// CLI is not current, else the first waiting step (after `s0` when remote),
/// else the first step.
pub open spec fn smart_step(remote: bool, cli_current: bool, lines: Seq<Seq<char>>) -> int {
    if remote && !cli_current {
        0
    } else {
        let start: int = if remote {
            1
        } else {
            0
        };
        match first_pending(lines, start) {
            Some(i) => i,
            None => if lines.len() > start {
                start
            } else {
                0
            },
        }
    }
}

/// Host shown in panels: the remote host, or `local`.
pub open spec fn host_text(remote: Option<String>) -> Seq<char> {
    match remote {
        Some(h) => h@,
        None => "local"@,
    }
}

/// Panel text of the current screen.
pub open spec fn panel_for(a: App) -> Seq<char> {
    let remote = a.remote is Some;
    let host = host_text(a.remote);
    match a.screen {
        Screen::Ssh => panel_ssh_spec(remote, host, a.surfaces),
        Screen::Cli => panel_cli_spec(a.cli_local@, remote, a.surfaces),
        Screen::Api => panel_api_spec(a.surfaces),
        Screen::Mcp => panel_mcp_spec(a.surfaces),
        Screen::Reboot => panel_reboot_spec(host),
        Screen::Overview => if remote {
            panel_overview_remote_spec(host, a.surfaces, a.overview_extra@)
        } else {
            a.overview_text@
        },
        Screen::Setup | Screen::Logs => Seq::empty(),
    }
}

/// Copy of an optional string.
pub fn clone_opt_string(o: &Option<String>) -> (r: Option<String>)
    ensures
        r == *o,
{
    match o {
        Some(s) => Some(s.clone()),
        None => None,
    }
}

/// Setup list lines of a report, or of the pipeline when there is no report.
pub open spec fn step_lines(setup: Option<Seq<SetupStepRow>>, pipeline: Seq<PipelineStep>) -> Seq<
    Seq<char>,
> {
    match setup {
        Some(rows) => report_lines(rows),
        None => pipeline_lines(pipeline),
    }
}

/// View of an optional report reference.
pub open spec fn rows_of(setup: Option<&Vec<SetupStepRow>>) -> Option<Seq<SetupStepRow>> {
    match setup {
        Some(v) => Some(v@),
        None => None,
    }
}

/// Setup list lines of a report or of the pipeline.
pub fn build_step_lines(setup: Option<&Vec<SetupStepRow>>, pipeline: &Vec<PipelineStep>) -> (r: Vec<
    String,
>)
    ensures
        string_views(r@) == step_lines(rows_of(setup), pipeline@),
{
    let mut out: Vec<String> = Vec::new();
    match setup {
        Some(rows) => {
            let mut i: usize = 0;
            while i < rows.len()
                invariant
                    i <= rows@.len(),
                    string_views(out@) == report_lines(rows@.take(i as int)),
                decreases rows@.len() - i,
            {
                let r = &rows[i];
                let ghost prev = out@;
                out.push(
                    format_step_line(r.id.as_str(), r.status.as_str(), r.title.as_str(), r.destructive),
                );
                assert(rows@.take(i + 1) =~= rows@.take(i as int).push(rows@[i as int]));
                assert(string_views(out@) =~= string_views(prev).push(out@.last()@));
                assert(string_views(out@) =~= report_lines(rows@.take(i + 1)));
                i = i + 1;
            }
            assert(rows@.take(rows@.len() as int) =~= rows@);
        },
        None => {
            let mut i: usize = 0;
            while i < pipeline.len()
                invariant
                    i <= pipeline@.len(),
                    string_views(out@) == pipeline_lines(pipeline@.take(i as int)),
                decreases pipeline@.len() - i,
            {
                let st = &pipeline[i];
                let ghost prev = out@;
                out.push(format_step_line(st.id.as_str(), "…", st.title.as_str(), st.destructive));
                assert(pipeline@.take(i + 1) =~= pipeline@.take(i as int).push(pipeline@[i as int]));
                assert(string_views(out@) =~= string_views(prev).push(out@.last()@));
                assert(string_views(out@) =~= pipeline_lines(pipeline@.take(i + 1)));
                i = i + 1;
            }
            assert(pipeline@.take(pipeline@.len() as int) =~= pipeline@);
        },
    }
    out
}

/// The state a freshly started UI has.
pub open spec fn new_app_spec(cli: Cli, cli_local: Seq<char>, pipeline: Seq<PipelineStep>, a: App) -> bool {
    let remote = cli.remote is Some;
    let lines = if remote {
        seq![s0_line_spec(BoxCliView::NotProbed, false)] + pipeline_lines(pipeline)
    } else {
        Seq::empty()
    };
    &&& a.screen == Screen::Setup
    &&& a.dry_run == cli.dry_run
    &&& a.kind == (if cli.minimal { SetupKind::Minimal } else { SetupKind::Full })
    &&& a.skip_piper == cli.skip_piper
    &&& a.remote == cli.remote
    &&& a.install_ssh_key == cli.install_ssh_key
    &&& a.bin_dir == cli.bin_dir
    &&& a.release_tag == cli.release_tag
    &&& a.line_view() == lines
    &&& a.selected == Some(smart_step(remote, !remote, lines) as usize)
    &&& a.logs@.len() == 0
    &&& a.overview_text@ == (if remote {
        panel_overview_remote_spec(host_text(cli.remote), None, Seq::empty())
    } else {
        Seq::empty()
    })
    &&& a.panel_text@ == Seq::<char>::empty()
    &&& a.confirm_destructive is None
    &&& !a.help_open
    &&& a.message@ == ready_text()
    &&& a.cli_local@ == cli_local
    &&& a.box_cli == (if remote {
        BoxCliView::NotProbed
    } else {
        BoxCliView::Known(RemoteBoxCliStatus::Found(a.cli_local))
    })
    &&& a.cli_current == !remote
    &&& a.surfaces is None
    &&& a.overview_extra@ == Seq::<char>::empty()
    &&& a.host_input is None
    &&& a.pending_token is None
}

impl App {
    /// A freshly started UI. Remote: the Setup list shows `s0` and the
    /// pipeline with unknown status, before any probe. Local: the Setup list
    /// is empty until the caller runs the local refresh.
    pub fn new(cli: &Cli, cli_local: &str, pipeline: &Vec<PipelineStep>) -> (a: App)
        ensures
            a.wf(),
            new_app_spec(*cli, cli_local@, pipeline@, a),
    {
        let remote = cli.remote.is_some();
        let kind = if cli.minimal {
            SetupKind::Minimal
        } else {
            SetupKind::Full
        };
        let local = String::from_str(cli_local);
        let box_cli = if remote {
            BoxCliView::NotProbed
        } else {
            BoxCliView::Known(RemoteBoxCliStatus::Found(local.clone()))
        };
        let mut app = App {
            screen: Screen::Setup,
            dry_run: cli.dry_run,
            kind,
            skip_piper: cli.skip_piper,
            remote: clone_opt_string(&cli.remote),
            install_ssh_key: cli.install_ssh_key,
            bin_dir: clone_opt_string(&cli.bin_dir),
            release_tag: clone_opt_string(&cli.release_tag),
            selected: Some(0),
            logs: Vec::new(),
            status_lines: Vec::new(),
            overview_text: String::new(),
            panel_text: String::new(),
            confirm_destructive: None,
            help_open: false,
            message: String::from_str("Ready (? help)"),
            cli_local: local,
            box_cli,
            cli_current: !remote,
            surfaces: None,
            overview_extra: String::new(),
            host_input: None,
            pending_token: None,
        };
        proof {
            reveal_strlit("");
            assert(app.line_view() =~= Seq::<Seq<char>>::empty());
        }
        if remote {
            app.rebuild_remote_steps(None, pipeline);
            app.overview_text = panel_overview_remote(app.host(), None, "");
            app.refresh_panel_text();
        }
        app
    }

    /// Id of the selected Setup row, as text.
    pub open spec fn selected_id_spec(&self) -> Option<Seq<char>> {
        match self.selected {
            Some(i) => if i < self.status_lines@.len() {
                field_spec(self.line_view()[i as int], 0)
            } else {
                None
            },
            None => None,
        }
    }

    /// Id (first field) of the selected Setup row.
    pub fn selected_step_id(&self) -> (r: Option<String>)
        ensures
            opt_view(r) == self.selected_id_spec(),
    {
        match self.selected {
            None => None,
            Some(i) => {
                if i < self.status_lines.len() {
                    assert(self.line_view()[i as int] == self.status_lines@[i as int]@);
                    split_field(self.status_lines[i].as_str(), 0)
                } else {
                    None
                }
            },
        }
    }

    /// Rebuild the remote Setup list: the `s0` row, then the report rows (or
    /// the pipeline with unknown status), and select the row to work on.
    pub fn rebuild_remote_steps(
        &mut self,
        setup: Option<&Vec<SetupStepRow>>,
        pipeline: &Vec<PipelineStep>,
    )
        ensures
            final(self).line_view() == seq![s0_line_spec(old(self).box_cli, old(self).cli_current)]
                + step_lines(rows_of(setup), pipeline@),
            final(self).selected == Some(
                smart_step(old(self).remote is Some, old(self).cli_current, final(self).line_view())
                    as usize,
            ),
            *final(self) == (App {
                status_lines: final(self).status_lines,
                selected: final(self).selected,
                ..*old(self)
            }),
    {
        let mut lines: Vec<String> = Vec::new();
        lines.push(self.s0_line());
        let mut rest = build_step_lines(setup, pipeline);
        lines.append(&mut rest);
        assert(string_views(lines@) =~= seq![s0_line_spec(self.box_cli, self.cli_current)]
            + step_lines(rows_of(setup), pipeline@));
        self.status_lines = lines;
        self.select_smart_step();
    }

    /// Well-formed state: a row is always selected and the log is capped.
    pub open spec fn wf(&self) -> bool {
        &&& self.selected is Some
        &&& self.logs@.len() <= LOG_CAP
    }

    /// Log lines as text.
    pub open spec fn log_view(&self) -> Seq<Seq<char>> {
        string_views(self.logs@)
    }

    /// Setup list lines as text.
    pub open spec fn line_view(&self) -> Seq<Seq<char>> {
        string_views(self.status_lines@)
    }

    /// Remote mode (`--remote`).
    pub fn is_remote(&self) -> (r: bool)
        ensures
            r == (self.remote is Some),
    {
        self.remote.is_some()
    }

    /// Host shown in panels.
    pub fn host(&self) -> (r: &str)
        ensures
            r@ == host_text(self.remote),
    {
        match &self.remote {
            Some(h) => h.as_str(),
            None => "local",
        }
    }

    /// Recompute the panel text of the current screen.
    pub fn refresh_panel_text(&mut self)
        ensures
            final(self).panel_text@ == panel_for(*old(self)),
            *final(self) == (App { panel_text: final(self).panel_text, ..*old(self) }),
    {
        let remote = self.is_remote();
        let text = match self.screen {
            Screen::Ssh => panel_ssh(remote, self.host(), self.surfaces.as_ref()),
            Screen::Cli => panel_cli(self.cli_local.as_str(), remote, self.surfaces.as_ref()),
            Screen::Api => panel_api(self.surfaces.as_ref()),
            Screen::Mcp => panel_mcp(self.surfaces.as_ref()),
            Screen::Reboot => panel_reboot(self.host()),
            Screen::Overview => {
                if remote {
                    panel_overview_remote(
                        self.host(),
                        self.surfaces.as_ref(),
                        self.overview_extra.as_str(),
                    )
                } else {
                    self.overview_text.clone()
                }
            },
            Screen::Setup | Screen::Logs => String::new(),
        };
        self.panel_text = text;
    }

    /// Append a timestamped log line, keeping the newest 500.
    pub fn push_log(&mut self, ts: &str, line: &str)
        requires
            old(self).wf(),
        ensures
            final(self).wf(),
            final(self).log_view() == logs_after(old(self).log_view(), log_entry(ts@, line@)),
            *final(self) == (App { logs: final(self).logs, ..*old(self) }),
    {
        let mut e = String::from_str(ts);
        e.append(" ");
        e.append(line);
        let ghost e_view = e@;
        self.logs.push(e);
        if self.logs.len() > LOG_CAP {
            let _ = self.logs.remove(0);
        }
        proof {
            let l = string_views(old(self).logs@).push(e_view);
            if l.len() > LOG_CAP {
                assert(string_views(self.logs@) =~= l.skip(l.len() - LOG_CAP));
            } else {
                assert(string_views(self.logs@) =~= l);
            }
        }
    }

    /// Status word of the `s0` row.
    pub fn s0_status(&self) -> (r: &'static str)
        ensures
            r@ == s0_status(self.box_cli, self.cli_current),
    {
        match &self.box_cli {
            BoxCliView::NotProbed => "…",
            BoxCliView::Known(RemoteBoxCliStatus::AuthFailed) => "blocked",
            BoxCliView::Known(RemoteBoxCliStatus::Unreachable) => "blocked",
            _ => if self.cli_current {
                "done"
            } else {
                "needed"
            },
        }
    }

    /// The `s0` row of the remote Setup list.
    pub fn s0_line(&self) -> (r: String)
        ensures
            r@ == s0_line_spec(self.box_cli, self.cli_current),
    {
        let mut out = String::from_str("s0 | ");
        out.append(self.s0_status());
        out.append(" | Sync CLI to box");
        out
    }

    /// Select the row to work on next (see [`smart_step`]).
    pub fn select_smart_step(&mut self)
        ensures
            final(self).selected == Some(
                smart_step(old(self).remote is Some, old(self).cli_current, old(self).line_view())
                    as usize,
            ),
            *final(self) == (App { selected: final(self).selected, ..*old(self) }),
    {
        if self.remote.is_some() && !self.cli_current {
            self.selected = Some(0);
            return;
        }
        let start: usize = if self.remote.is_some() {
            1
        } else {
            0
        };
        let n = self.status_lines.len();
        let mut i = start;
        while i < n
            invariant
                *self == *old(self),
                !(self.remote is Some && !self.cli_current),
                n == self.status_lines@.len(),
                start <= i,
                start == (if self.remote is Some { 1int } else { 0int }),
                first_pending(self.line_view(), start as int) == first_pending(
                    self.line_view(),
                    i as int,
                ),
            decreases n - i,
        {
            let status = split_field(self.status_lines[i].as_str(), 1);
            let pending = match &status {
                Some(s) => str_eq(s.as_str(), "pending") || str_eq(s.as_str(), "…"),
                None => false,
            };
            assert(self.line_view()[i as int] == self.status_lines@[i as int]@);
            if pending {
                self.selected = Some(i);
                return;
            }
            i = i + 1;
        }
        if n > start {
            self.selected = Some(start);
        } else {
            self.selected = Some(0);
        }
    }
}

/// Work a key asks for beyond the state change itself. All of it runs with
/// the terminal kept on the UI's screen: every y/N question and the Host
/// text are dialogs of the UI, and SSH/sudo passwords go to the askpass
/// program.
#[derive(Debug, Clone, Copy, PartialEq, Eq, Structural)]
pub enum KeyAction {
    Nothing,
    Quit,
    /// Re-probe; `announce` sets the "Refreshed" message afterwards.
    Refresh { announce: bool },
    /// Run the selected Setup row (see [`App::run_selected_gate`]).
    RunSelected,
    /// Run the whole pipeline.
    RunAll,
    /// Timestamped `/etc` backup.
    BackupEtc,
    DiskStatus,
    /// Enter on the CLI, API, MCP or Overview tab (see [`App::surface_enter`]).
    SurfaceEnter,
    /// `i` on the SSH tab (see [`App::begin_key_install`]).
    InstallKey,
    /// The reboot flow (see [`App::reboot_gate`]).
    Reboot,
    /// Save the pending status-API token.
    SaveToken,
    /// Do not save the pending status-API token.
    SkipToken,
    SetKind(SetupKind),
}

/// `q`, `Q` and Ctrl+C quit from anywhere but the Host dialog.
pub open spec fn is_quit_spec(k: KeyEvent) -> bool {
    k.code == KeyCode::Char('q') || k.code == KeyCode::Char('Q') || is_ctrl_c(k)
}

/// Ctrl+C, which quits from anywhere.
pub open spec fn is_ctrl_c(k: KeyEvent) -> bool {
    k.code == KeyCode::Char('c') && k.modifiers.control
}

/// Whether a key quits the UI.
pub fn is_quit(key: KeyEvent) -> (r: bool)
    ensures
        r == is_quit_spec(key),
{
    match key.code {
        KeyCode::Char('q') | KeyCode::Char('Q') => true,
        KeyCode::Char('c') => key.modifiers.control,
        _ => false,
    }
}

/// `b` is `a` moved to screen `s`, with the panel text of that screen.
pub open spec fn moved_to(a: App, b: App, s: Screen) -> bool {
    &&& b == (App { screen: s, help_open: false, panel_text: b.panel_text, ..a })
    &&& b.panel_text@ == panel_for(App { screen: s, help_open: false, ..a })
}

/// `b` is `a` with only the message changed, to `m`.
pub open spec fn messaged(a: App, b: App, m: Seq<char>) -> bool {
    &&& b == (App { message: b.message, ..a })
    &&& b.message@ == m
}

/// The selected Setup line asks for confirmation (it carries ` *`).
pub open spec fn selected_is_destructive(a: App) -> bool {
    match a.selected {
        Some(i) => i < a.line_view().len() && contains_spec(a.line_view()[i as int], " *"@),
        None => false,
    }
}

/// Title of the Host dialog.
pub open spec fn host_title() -> Seq<char> {
    "OpenSSH Host"@
}

/// Enter or `e` on the SSH tab. Remote: the Host dialog opens with the
/// current host typed in. Local: the message says that it needs a remote.
pub open spec fn host_edit_post(a: App, b: App) -> bool {
    if a.remote is Some {
        &&& b == (App { host_input: b.host_input, message: b.message, ..a })
        &&& b.host_input matches Some(t) && t@.title == host_title() && t@.buffer
            == a.remote->Some_0@
        &&& b.message@ == "Edit OpenSSH Host: Enter submit · Esc cancel"@
    } else {
        messaged(a, b, "Host editing needs --remote"@)
    }
}

/// `b` is `a` with the remote host set to `host`: the dialog is closed,
/// nothing is known of the new box yet, and the panel shows the new host.
pub open spec fn host_set(a: App, b: App, host: Seq<char>) -> bool {
    &&& b.remote matches Some(h) && h@ == host
    &&& b.box_cli == BoxCliView::NotProbed
    &&& !b.cli_current
    &&& b.surfaces is None
    &&& b.overview_extra@ == Seq::<char>::empty()
    &&& b.host_input is None
    &&& b.message@ == "Host set to "@ + host
    &&& b.panel_text@ == panel_for(b)
    &&& b == (App {
        remote: b.remote,
        box_cli: b.box_cli,
        cli_current: b.cli_current,
        surfaces: b.surfaces,
        overview_extra: b.overview_extra,
        host_input: b.host_input,
        message: b.message,
        panel_text: b.panel_text,
        ..a
    })
}

/// What a key does while the Host dialog is open: Ctrl+C quits; Enter sets
/// the host to the trimmed text (a blank text leaves it unchanged) and asks
/// for a probe of the new box; Esc cancels; any other key edits the text.
pub open spec fn host_key_post(a: App, k: KeyEvent, b: App, act: KeyAction) -> bool {
    let t = a.host_input->Some_0;
    let typed = trim_spec(t@.buffer);
    if is_ctrl_c(k) {
        act == KeyAction::Quit && b == a
    } else if !k.modifiers.control && k.code == KeyCode::Enter {
        if typed.len() > 0 {
            act == (KeyAction::Refresh { announce: false }) && host_set(a, b, typed)
        } else {
            act == KeyAction::Nothing && b == (App { host_input: None, message: b.message, ..a })
                && b.message@ == "Host unchanged"@
        }
    } else if !k.modifiers.control && k.code == KeyCode::Esc {
        act == KeyAction::Nothing && b == (App { host_input: None, message: b.message, ..a })
            && b.message@ == "Cancelled"@
    } else {
        &&& act == KeyAction::Nothing
        &&& b == (App { host_input: b.host_input, ..a })
        &&& b.host_input matches Some(u) && u@.title == t@.title && u@.buffer == edit_buffer(
            t@.buffer,
            k,
        )
    }
}

/// What a key does in the main view (no dialog open).
pub open spec fn main_key_post(a: App, k: KeyEvent, b: App, act: KeyAction) -> bool {
    let remote = a.remote is Some;
    let c = k.code;
    if c == KeyCode::Esc {
        act == KeyAction::Quit && b == a
    } else if c == KeyCode::Char('?') {
        act == KeyAction::Nothing && b == (App { help_open: true, message: b.message, ..a })
            && b.message@ == "Help"@
    } else if c == KeyCode::Tab {
        act == KeyAction::Nothing && moved_to(a, b, next_spec(a.screen, remote))
    } else if c == KeyCode::BackTab {
        act == KeyAction::Nothing && moved_to(a, b, prev_spec(a.screen, remote))
    } else if (c matches KeyCode::Char(d) && '0' <= d <= '9') {
        act == KeyAction::Nothing && match from_digit_spec(c->Char_0, remote) {
            Some(s) => moved_to(a, b, s),
            None => b == a,
        }
    } else if c == KeyCode::Char('c') && a.screen == Screen::Logs {
        act == KeyAction::Nothing && b == (App { logs: b.logs, message: b.message, ..a })
            && b.logs@.len() == 0 && b.message@ == "Logs cleared"@
    } else if c == KeyCode::Char('d') && !k.modifiers.control {
        act == (if remote {
            KeyAction::Nothing
        } else {
            KeyAction::Refresh { announce: false }
        }) && b == (App { dry_run: !a.dry_run, message: b.message, ..a }) && b.message@
            == "dry-run = "@ + bool_text(!a.dry_run)
    } else if c == KeyCode::Char('r') {
        act == KeyAction::Refresh { announce: !remote } && b == a
    } else if c == KeyCode::Char('a') {
        act == KeyAction::RunAll && b == a
    } else if c == KeyCode::Char('b') {
        act == KeyAction::BackupEtc && b == a
    } else if c == KeyCode::Char('B') {
        act == KeyAction::DiskStatus && b == a
    } else if c == KeyCode::Enter && a.screen == Screen::Setup {
        act == KeyAction::RunSelected && b == a
    } else if (c == KeyCode::Enter || c == KeyCode::Char('e')) && a.screen == Screen::Ssh {
        act == KeyAction::Nothing && host_edit_post(a, b)
    } else if c == KeyCode::Char('i') && a.screen == Screen::Ssh {
        act == KeyAction::InstallKey && b == a
    } else if c == KeyCode::Enter && a.screen != Screen::Logs {
        b == a && act == (if a.screen == Screen::Reboot {
            KeyAction::Reboot
        } else {
            KeyAction::SurfaceEnter
        })
    } else if c == KeyCode::Up || c == KeyCode::Char('k') {
        act == KeyAction::Nothing && b == (App {
            selected: match a.selected {
                Some(i) => if i > 0 {
                    Some((i - 1) as usize)
                } else {
                    Some(i)
                },
                None => None,
            },
            ..a
        })
    } else if c == KeyCode::Down || c == KeyCode::Char('j') {
        act == KeyAction::Nothing && b == (App {
            selected: match a.selected {
                Some(i) => if i + 1 < a.status_lines@.len() {
                    Some((i + 1) as usize)
                } else {
                    Some(i)
                },
                None => None,
            },
            ..a
        })
    } else if c == KeyCode::Left {
        act == KeyAction::SetKind(SetupKind::Full) && b == a
    } else if c == KeyCode::Right {
        act == KeyAction::SetKind(SetupKind::Minimal) && b == a
    } else {
        act == KeyAction::Nothing && b == a
    }
}

/// What a key does: releases and repeats are ignored; an open Host dialog
/// takes every key but Ctrl+C; quit keys quit; an open help overlay only
/// closes on Esc or `?`; the token question and a pending confirmation only
/// take yes or no; otherwise the main key table applies.
pub open spec fn key_post(a: App, k: KeyEvent, b: App, act: KeyAction) -> bool {
    if k.kind != KeyEventKind::Press {
        act == KeyAction::Nothing && b == a
    } else if a.host_input is Some {
        host_key_post(a, k, b, act)
    } else if is_quit_spec(k) {
        act == KeyAction::Quit && b == a
    } else if a.help_open {
        act == KeyAction::Nothing && if k.code == KeyCode::Esc || k.code == KeyCode::Char('?') {
            b == (App { help_open: false, message: b.message, ..a }) && b.message@ == ready_text()
        } else {
            b == a
        }
    } else if a.pending_token is Some {
        b == a && act == (if crate::prompt::is_confirm_yes(k.code) {
            KeyAction::SaveToken
        } else if crate::prompt::is_confirm_no(k.code) {
            KeyAction::SkipToken
        } else {
            KeyAction::Nothing
        })
    } else if a.confirm_destructive is Some {
        if crate::prompt::is_confirm_yes(k.code) {
            b == a && act == (if a.confirm_destructive->Some_0@ == "reboot"@ {
                KeyAction::Reboot
            } else {
                KeyAction::RunSelected
            })
        } else if crate::prompt::is_confirm_no(k.code) {
            act == KeyAction::Nothing && b == (App {
                confirm_destructive: None,
                message: b.message,
                ..a
            }) && b.message@ == "Cancelled"@
        } else {
            act == KeyAction::Nothing && b == a
        }
    } else {
        main_key_post(a, k, b, act)
    }
}

impl App {
    /// Move to `screen` and close help.
    pub fn select_screen(&mut self, screen: Screen)
        ensures
            moved_to(*old(self), *final(self), screen),
    {
        self.screen = screen;
        self.help_open = false;
        self.refresh_panel_text();
    }

    /// Move to the next tab.
    pub fn next_screen(&mut self)
        ensures
            moved_to(*old(self), *final(self), next_spec(old(self).screen, old(self).remote is Some)),
    {
        let s = self.screen.next(self.is_remote());
        self.select_screen(s);
    }

    /// Move to the previous tab.
    pub fn prev_screen(&mut self)
        ensures
            moved_to(*old(self), *final(self), prev_spec(old(self).screen, old(self).remote is Some)),
    {
        let s = self.screen.prev(self.is_remote());
        self.select_screen(s);
    }

    /// Empty the log.
    pub fn clear_logs(&mut self)
        ensures
            *final(self) == (App { logs: final(self).logs, message: final(self).message, ..*old(self) }),
            final(self).logs@.len() == 0,
            final(self).message@ == "Logs cleared"@,
    {
        self.logs.clear();
        self.message = String::from_str("Logs cleared");
    }

    /// Enter or `e` on the SSH tab: open the Host dialog (remote mode).
    pub fn edit_host(&mut self)
        ensures
            host_edit_post(*old(self), *final(self)),
    {
        match &self.remote {
            Some(h) => {
                let t = TextInput::new("OpenSSH Host", h.as_str());
                self.host_input = Some(t);
                self.message = String::from_str("Edit OpenSSH Host: Enter submit · Esc cancel");
            },
            None => {
                self.message = String::from_str("Host editing needs --remote");
            },
        }
    }

    /// Point the UI at another box: the Host dialog closes and what was
    /// known of the old box is dropped until the next probe.
    pub fn set_host(&mut self, host: String)
        ensures
            host_set(*old(self), *final(self), host@),
    {
        let mut m = String::from_str("Host set to ");
        m.append(host.as_str());
        self.remote = Some(host);
        self.box_cli = BoxCliView::NotProbed;
        self.cli_current = false;
        self.surfaces = None;
        self.overview_extra = String::new();
        self.host_input = None;
        self.message = m;
        self.refresh_panel_text();
    }

    /// A key while the Host dialog is open (see [`host_key_post`]).
    fn host_key(&mut self, key: KeyEvent) -> (act: KeyAction)
        requires
            old(self).host_input is Some,
        ensures
            host_key_post(*old(self), key, *final(self), act),
    {
        if key.code == KeyCode::Char('c') && key.modifiers.control {
            return KeyAction::Quit;
        }
        let mut input = match self.host_input.take() {
            Some(t) => t,
            None => {
                return KeyAction::Nothing;
            },
        };
        match input.handle_key(key) {
            TextInputResult::Submit(text) => {
                let typed = trim_text(text.as_str());
                if typed.as_str().unicode_len() > 0 {
                    self.set_host(typed);
                    KeyAction::Refresh { announce: false }
                } else {
                    self.message = String::from_str("Host unchanged");
                    KeyAction::Nothing
                }
            },
            TextInputResult::Cancel => {
                self.message = String::from_str("Cancelled");
                KeyAction::Nothing
            },
            TextInputResult::Continue => {
                self.host_input = Some(input);
                KeyAction::Nothing
            },
        }
    }

    /// Apply one key event and say what outside work it asks for.
    pub fn handle_key(&mut self, key: KeyEvent) -> (act: KeyAction)
        requires
            old(self).wf(),
        ensures
            final(self).wf(),
            key_post(*old(self), key, *final(self), act),
    {
        if key.kind != KeyEventKind::Press {
            return KeyAction::Nothing;
        }
        if self.host_input.is_some() {
            return self.host_key(key);
        }
        if is_quit(key) {
            return KeyAction::Quit;
        }
        if self.help_open {
            match key.code {
                KeyCode::Esc | KeyCode::Char('?') => {
                    self.help_open = false;
                    self.message = String::from_str("Ready (? help)");
                },
                _ => {},
            }
            return KeyAction::Nothing;
        }
        if self.pending_token.is_some() {
            return match key.code {
                KeyCode::Enter | KeyCode::Char('y') | KeyCode::Char('Y') => KeyAction::SaveToken,
                KeyCode::Esc | KeyCode::Char('n') | KeyCode::Char('N') => KeyAction::SkipToken,
                _ => KeyAction::Nothing,
            };
        }
        match &self.confirm_destructive {
            Some(id) => {
                match key.code {
                    KeyCode::Enter | KeyCode::Char('y') | KeyCode::Char('Y') => {
                        if str_eq(id.as_str(), "reboot") {
                            return KeyAction::Reboot;
                        } else {
                            return KeyAction::RunSelected;
                        }
                    },
                    KeyCode::Esc | KeyCode::Char('n') | KeyCode::Char('N') => {
                        self.confirm_destructive = None;
                        self.message = String::from_str("Cancelled");
                        return KeyAction::Nothing;
                    },
                    _ => {
                        return KeyAction::Nothing;
                    },
                }
            },
            None => {},
        }
        let remote = self.is_remote();
        match key.code {
            KeyCode::Esc => KeyAction::Quit,
            KeyCode::Char('?') => {
                self.help_open = true;
                self.message = String::from_str("Help");
                KeyAction::Nothing
            },
            KeyCode::Tab => {
                self.next_screen();
                KeyAction::Nothing
            },
            KeyCode::BackTab => {
                self.prev_screen();
                KeyAction::Nothing
            },
            KeyCode::Char(d) if '0' <= d && d <= '9' => {
                match Screen::from_digit(d, remote) {
                    Some(s) => self.select_screen(s),
                    None => {},
                }
                KeyAction::Nothing
            },
            KeyCode::Char('c') if self.screen == Screen::Logs => {
                self.clear_logs();
                KeyAction::Nothing
            },
            KeyCode::Char('d') if !key.modifiers.control => {
                self.dry_run = !self.dry_run;
                let mut m = String::from_str("dry-run = ");
                m.append(bool_str(self.dry_run));
                self.message = m;
                if remote {
                    KeyAction::Nothing
                } else {
                    KeyAction::Refresh { announce: false }
                }
            },
            KeyCode::Char('r') => KeyAction::Refresh { announce: !remote },
            KeyCode::Char('a') => KeyAction::RunAll,
            KeyCode::Char('b') => KeyAction::BackupEtc,
            KeyCode::Char('B') => KeyAction::DiskStatus,
            KeyCode::Enter if self.screen == Screen::Setup => KeyAction::RunSelected,
            KeyCode::Enter if self.screen == Screen::Ssh => {
                self.edit_host();
                KeyAction::Nothing
            },
            KeyCode::Char('e') if self.screen == Screen::Ssh => {
                self.edit_host();
                KeyAction::Nothing
            },
            KeyCode::Char('i') if self.screen == Screen::Ssh => KeyAction::InstallKey,
            KeyCode::Enter if self.screen != Screen::Logs => {
                if self.screen == Screen::Reboot {
                    KeyAction::Reboot
                } else {
                    KeyAction::SurfaceEnter
                }
            },
            KeyCode::Up | KeyCode::Char('k') => {
                match self.selected {
                    Some(i) => {
                        if i > 0 {
                            self.selected = Some(i - 1);
                        }
                    },
                    None => {},
                }
                KeyAction::Nothing
            },
            KeyCode::Down | KeyCode::Char('j') => {
                let len = self.status_lines.len();
                match self.selected {
                    Some(i) => {
                        if i < len && len - i > 1 {
                            self.selected = Some(i + 1);
                        }
                    },
                    None => {},
                }
                KeyAction::Nothing
            },
            KeyCode::Left => KeyAction::SetKind(SetupKind::Full),
            KeyCode::Right => KeyAction::SetKind(SetupKind::Minimal),
            _ => KeyAction::Nothing,
        }
    }
}

} // verus!
