//! What the UI does with the results of outside work: surface probes, remote
//! runs over SSH, local setup steps, backups and the reboot/s0 flows.

use vstd::prelude::*;

use crate::app::{
    host_text, log_entry, logs_after, panel_for, pipeline_lines, s0_line_spec, smart_step,
    step_lines, App, PipelineStep, SetupKind, SetupStepRow,
};
use crate::probe::{cli_status_label, BoxCliView, CliProbe, RemoteBoxCliStatus, SurfaceProbeReport};
use crate::tabs::{bool_str, bool_text, panel_overview_remote, panel_overview_remote_spec, Screen};
use crate::text::{lines_from, lines_of, nat_text, str_eq, string_views, trim_spec, trim_text, usize_text};

verus! {

/// The log after appending one timestamped entry per line.
pub open spec fn logs_after_lines(logs: Seq<Seq<char>>, ts: Seq<char>, lines: Seq<Seq<char>>) -> Seq<
    Seq<char>,
>
    decreases lines.len(),
{
    if lines.len() == 0 {
        logs
    } else {
        logs_after(logs_after_lines(logs, ts, lines.drop_last()), log_entry(ts, lines.last()))
    }
}

/// Where a remote run goes and how it authenticates.
#[derive(Debug, Clone, PartialEq, Eq)]
pub struct RemoteTarget {
    pub host: String,
    pub install_ssh_key: bool,
    pub bin_dir: Option<String>,
    /// Release tag to download, when one was given that is not blank.
    pub release_tag: Option<String>,
}

/// A release tag counts when it is not blank; it is used trimmed.
pub open spec fn tag_override(tag: Option<String>) -> Option<Seq<char>> {
    match tag {
        Some(t) => if trim_spec(t@).len() > 0 {
            Some(trim_spec(t@))
        } else {
            None
        },
        None => None,
    }
}

/// The remote target of a state: present exactly in remote mode.
pub open spec fn target_of(a: App, t: Option<RemoteTarget>) -> bool {
    match a.remote {
        None => t is None,
        Some(h) => t matches Some(x) && x.host == h && x.install_ssh_key == a.install_ssh_key
            && x.bin_dir == a.bin_dir && match (x.release_tag, tag_override(a.release_tag)) {
            (Some(r), Some(o)) => r@ == o,
            (None, None) => true,
            _ => false,
        },
    }
}

/// A snapshot of the box taken over SSH.
#[derive(Debug, Clone)]
pub struct RemoteSnapshot {
    pub setup: Option<Vec<SetupStepRow>>,
    pub doctor: Option<Doctor>,
}

/// Doctor findings on a host.
#[derive(Debug, Clone)]
pub struct Doctor {
    pub is_root: bool,
    pub has_sudo: bool,
    pub docker_present: bool,
    pub full_env: bool,
    pub minimal_env: bool,
    pub notes: Vec<String>,
}

/// Overview line made of doctor findings.
pub open spec fn doctor_line_spec(d: Doctor) -> Seq<char> {
    "doctor: root="@ + bool_text(d.is_root) + " sudo="@ + bool_text(d.has_sudo) + " docker="@
        + bool_text(d.docker_present) + " full_env="@ + bool_text(d.full_env) + " minimal_env="@
        + bool_text(d.minimal_env) + "\n"@
}

/// What the Enter key on a surface screen asks for.
#[derive(Debug, Clone, Copy, PartialEq, Eq, Structural)]
pub enum SurfaceStep {
    Nothing,
    SyncCli,
    Refresh,
    Reboot,
}

/// How a selected Setup row is to be run.
#[derive(Debug, Clone, PartialEq, Eq)]
pub enum SelectedGate {
    /// Nothing to run (no row, or the box CLI must be synced first).
    Stop,
    /// The row is `s0`: sync the CLI to the box.
    SyncCli,
    /// Look up whether the step is destructive, then confirm or run it.
    Check(String),
}

/// Arguments and switches of a run of the CLI on the box.
#[derive(Debug, Clone, PartialEq, Eq)]
pub struct RemoteRunPlan {
    pub cli_args: Vec<String>,
    pub use_sudo: bool,
    pub install_payload_on_success: bool,
    /// After a successful run, ask in the UI whether to reboot the box.
    pub offer_reboot_on_success: bool,
}

/// Where a step or the pipeline runs.
#[derive(Debug, Clone, PartialEq, Eq)]
pub enum RunPlan {
    /// The box CLI must be synced first; nothing runs.
    Blocked,
    Remote(RemoteRunPlan),
    Local,
}

/// What a remote run of the CLI reported.
#[derive(Debug, Clone)]
pub struct RemoteOutcome {
    pub log: String,
    /// Status-API bearer created on the box, to offer to save locally.
    pub api_token: Option<String>,
}

/// Disk backup readiness of the box.
#[derive(Debug, Clone)]
pub struct DiskProbe {
    pub root_source: String,
    pub safe_to_apply: bool,
    pub partclone_present: bool,
    pub blockers: Vec<String>,
}

/// `--dry-run` / `--skip-piper` as the flags of a state ask, then `rest`.
pub open spec fn remote_cli_args_spec(dry_run: bool, skip_piper: bool, rest: Seq<Seq<char>>) -> Seq<
    Seq<char>,
> {
    (if dry_run {
        seq!["--dry-run"@]
    } else {
        Seq::empty()
    }) + (if skip_piper {
        seq!["--skip-piper"@]
    } else {
        Seq::empty()
    }) + rest
}

/// The pipeline kind flag of the CLI.
pub open spec fn kind_flag(k: SetupKind) -> Seq<char> {
    if k == SetupKind::Minimal {
        "--minimal"@
    } else {
        "--full"@
    }
}

/// A copy of a box CLI status.
pub fn copy_cli_status(s: &RemoteBoxCliStatus) -> (r: RemoteBoxCliStatus)
    ensures
        r == *s,
{
    match s {
        RemoteBoxCliStatus::Found(v) => RemoteBoxCliStatus::Found(v.clone()),
        RemoteBoxCliStatus::Missing => RemoteBoxCliStatus::Missing,
        RemoteBoxCliStatus::AuthFailed => RemoteBoxCliStatus::AuthFailed,
        RemoteBoxCliStatus::Unreachable => RemoteBoxCliStatus::Unreachable,
    }
}

/// `a` followed by `b`.
fn concat2(a: &str, b: &str) -> (r: String)
    ensures
        r@ == a@ + b@,
{
    let mut out = String::from_str(a);
    out.append(b);
    out
}

/// `a`, `b`, `c` in a row.
fn concat3(a: &str, b: &str, c: &str) -> (r: String)
    ensures
        r@ == a@ + b@ + c@,
{
    let mut out = String::from_str(a);
    out.append(b);
    out.append(c);
    out
}

/// A step runs at once unless it is destructive, in apply mode, with no
/// confirmation pending.
pub open spec fn runs_without_asking(a: App, destructive: bool) -> bool {
    !(destructive && !a.dry_run && a.confirm_destructive is None)
}

/// Message when a step cannot run before the box CLI is synced.
pub open spec fn blocked_step_message(v: BoxCliView) -> Seq<char> {
    match v {
        BoxCliView::NotProbed => "Press r to probe box CLI (or run s0 to sync)"@,
        BoxCliView::Known(RemoteBoxCliStatus::AuthFailed) => "SSH auth failed: install key (--install-ssh-key) or run s0 after login"@,
        BoxCliView::Known(RemoteBoxCliStatus::Unreachable) => "Box unreachable: check host/network, then press r"@,
        _ => "Run s0 (Sync CLI) before other steps"@,
    }
}


/// The plan of a remote run: the flag list and the sudo/payload/reboot
/// switches.
pub open spec fn plan_spec(a: App, rest: Seq<Seq<char>>, payload: bool, p: RemoteRunPlan) -> bool {
    &&& string_views(p.cli_args@) == remote_cli_args_spec(a.dry_run, a.skip_piper, rest)
    &&& p.use_sudo == !a.dry_run
    &&& p.install_payload_on_success == payload
    &&& p.offer_reboot_on_success == (payload && !a.dry_run)
}

/// `Running step <id> (dry_run=<b>)`.
pub open spec fn running_step_line(id: Seq<char>, dry_run: bool) -> Seq<char> {
    "Running step "@ + id + " (dry_run="@ + bool_text(dry_run) + ")"@
}

/// A reboot confirmation is pending.
pub open spec fn armed_for_reboot(a: App) -> bool {
    a.confirm_destructive matches Some(c) && c@ == "reboot"@
}

/// The question asked when a remote run created a status-API token.
pub open spec fn token_question() -> Seq<char> {
    "Save status-api bearer locally? Enter/y save, Esc/n skip."@
}

/// Whether step `id` is destructive, by the first row from `i` on that has
/// that id; `None` when no such row exists.
pub open spec fn step_destructive_from(rows: Seq<SetupStepRow>, id: Seq<char>, i: int) -> Option<
    bool,
>
    decreases rows.len() - i,
{
    if i < 0 || i >= rows.len() {
        None
    } else if rows[i].id@ == id {
        Some(rows[i].destructive)
    } else {
        step_destructive_from(rows, id, i + 1)
    }
}

/// Whether the setup status report marks step `id` destructive: the flag
/// of its first row with that id, or `None` when it has no such row.
pub fn step_destructive(rows: &Vec<SetupStepRow>, id: &str) -> (r: Option<bool>)
    ensures
        r == step_destructive_from(rows@, id@, 0),
{
    let mut i: usize = 0;
    while i < rows.len()
        invariant
            i <= rows@.len(),
            step_destructive_from(rows@, id@, 0) == step_destructive_from(rows@, id@, i as int),
        decreases rows@.len() - i,
    {
        if str_eq(rows[i].id.as_str(), id) {
            return Some(rows[i].destructive);
        }
        i = i + 1;
    }
    None
}

impl App {
    /// Append one timestamped entry per line.
    pub fn push_logs(&mut self, ts: &str, lines: &Vec<String>)
        requires
            old(self).wf(),
        ensures
            final(self).wf(),
            final(self).log_view() == logs_after_lines(
                old(self).log_view(),
                ts@,
                string_views(lines@),
            ),
            *final(self) == (App { logs: final(self).logs, ..*old(self) }),
    {
        let mut i: usize = 0;
        while i < lines.len()
            invariant
                self.wf(),
                i <= lines@.len(),
                self.log_view() == logs_after_lines(
                    old(self).log_view(),
                    ts@,
                    string_views(lines@.take(i as int)),
                ),
                *self == (App { logs: self.logs, ..*old(self) }),
            decreases lines@.len() - i,
        {
            self.push_log(ts, lines[i].as_str());
            proof {
                let t = string_views(lines@.take(i + 1));
                assert(t.drop_last() =~= string_views(lines@.take(i as int)));
                assert(t.last() == lines@[i as int]@);
            }
            i = i + 1;
        }
        assert(lines@.take(lines@.len() as int) =~= lines@);
    }

    /// Where remote runs go, in remote mode.
    pub fn remote_target(&self) -> (t: Option<RemoteTarget>)
        ensures
            target_of(*self, t),
    {
        match &self.remote {
            None => None,
            Some(h) => {
                let tag = match &self.release_tag {
                    Some(t) => {
                        let tt = trim_text(t.as_str());
                        if tt.as_str().unicode_len() > 0 {
                            Some(tt)
                        } else {
                            None
                        }
                    },
                    None => None,
                };
                let bin_dir = match &self.bin_dir {
                    Some(d) => Some(d.clone()),
                    None => None,
                };
                Some(
                    RemoteTarget {
                        host: h.clone(),
                        install_ssh_key: self.install_ssh_key,
                        bin_dir,
                        release_tag: tag,
                    },
                )
            },
        }
    }

    /// Switch the pipeline kind. Remote: the Setup rows go back to the
    /// pipeline with unknown status (no SSH). Local: the caller refreshes
    /// the local status next (returns true).
    pub fn set_pipeline_kind(&mut self, kind: SetupKind, pipeline: &Vec<PipelineStep>) -> (local_refresh:
        bool)
        ensures
            local_refresh == (old(self).remote is None),
            final(self).kind == kind,
            old(self).remote is Some ==> final(self).message@ == "pipeline="@ + crate::app::kind_name(
                kind,
            ) + " (press r for status)"@ && final(self).line_view() == seq![
                s0_line_spec(old(self).box_cli, old(self).cli_current),
            ] + pipeline_lines(pipeline@) && final(self).selected == Some(
                smart_step(true, old(self).cli_current, final(self).line_view()) as usize,
            ) && *final(self) == (App {
                kind: final(self).kind,
                message: final(self).message,
                status_lines: final(self).status_lines,
                selected: final(self).selected,
                ..*old(self)
            }),
            old(self).remote is None ==> final(self).message@ == "pipeline="@
                + crate::app::kind_name(kind) && *final(self) == (App {
                kind: final(self).kind,
                message: final(self).message,
                ..*old(self)
            }),
    {
        self.kind = kind;
        if self.remote.is_some() {
            self.rebuild_remote_steps(None, pipeline);
            self.message = concat3("pipeline=", kind.as_str(), " (press r for status)");
            false
        } else {
            self.message = concat2("pipeline=", kind.as_str());
            true
        }
    }

    /// Whether the full pipeline is selected.
    pub fn full_pipeline(&self) -> (r: bool)
        ensures
            r == (self.kind != SetupKind::Minimal),
    {
        self.kind != SetupKind::Minimal
    }

    /// Start a remote probe: in remote mode, say so and hand out the target.
    pub fn begin_remote_probe(&mut self) -> (t: Option<RemoteTarget>)
        ensures
            target_of(*old(self), t),
            old(self).remote is Some ==> final(self).message@ == "Probing "@ + host_text(
                old(self).remote,
            ) + "…"@ && *final(self) == (App { message: final(self).message, ..*old(self) }),
            old(self).remote is None ==> *final(self) == *old(self),
    {
        let t = self.remote_target();
        match &t {
            Some(target) => {
                self.message = concat3("Probing ", target.host.as_str(), "…");
            },
            None => {},
        }
        t
    }

    /// End of a remote refresh: overview and panel from the probe, and the
    /// "Probed host" message.
    fn finish_remote_refresh(&mut self)
        requires
            old(self).remote is Some,
        ensures
            final(self).overview_text@ == panel_overview_remote_spec(
                host_text(old(self).remote),
                old(self).surfaces,
                old(self).overview_extra@,
            ),
            final(self).panel_text@ == panel_for(*final(self)),
            final(self).message@ == "Probed "@ + host_text(old(self).remote),
            *final(self) == (App {
                overview_text: final(self).overview_text,
                panel_text: final(self).panel_text,
                message: final(self).message,
                ..*old(self)
            }),
    {
        let ov = panel_overview_remote(self.host(), self.surfaces.as_ref(), self.overview_extra.as_str());
        self.overview_text = ov;
        self.refresh_panel_text();
        self.message = concat2("Probed ", self.host());
    }

    /// Take the result of a remote surface probe. On success the box CLI
    /// view, the "current" flag and the probe are kept and logged; when the
    /// box CLI is current the caller takes a snapshot next (returns true),
    /// otherwise the Setup rows fall back to the pipeline and the refresh
    /// ends. On failure the box counts as unreachable.
    pub fn apply_remote_probe(
        &mut self,
        ts: &str,
        result: Result<SurfaceProbeReport, String>,
        pipeline: &Vec<PipelineStep>,
    ) -> (snapshot: bool)
        requires
            old(self).wf(),
            old(self).remote is Some,
        ensures
            final(self).wf(),
            final(self).remote == old(self).remote,
            match result {
                Ok(r) => {
                    &&& snapshot == r.cli.current
                    &&& final(self).box_cli == BoxCliView::Known(r.cli.status)
                    &&& final(self).cli_current == r.cli.current
                    &&& final(self).surfaces == Some(r)
                    &&& final(self).overview_extra@ == Seq::<char>::empty()
                    &&& final(self).log_view() == logs_after(
                        old(self).log_view(),
                        log_entry(
                            ts@,
                            "probe ssh="@ + r.ssh.status@ + " cli="@ + cli_status_label(
                                r.cli.status,
                            ) + " api="@ + r.api.health@,
                        ),
                    )
                    &&& r.cli.current ==> *final(self) == (App {
                        box_cli: final(self).box_cli,
                        cli_current: final(self).cli_current,
                        surfaces: final(self).surfaces,
                        overview_extra: final(self).overview_extra,
                        logs: final(self).logs,
                        ..*old(self)
                    })
                    &&& !r.cli.current ==> {
                        &&& final(self).line_view() == seq![
                            s0_line_spec(BoxCliView::Known(r.cli.status), false),
                        ] + pipeline_lines(pipeline@)
                        &&& final(self).selected == Some(0usize)
                        &&& final(self).overview_text@ == panel_overview_remote_spec(
                            host_text(old(self).remote),
                            Some(r),
                            Seq::empty(),
                        )
                        &&& final(self).panel_text@ == panel_for(*final(self))
                        &&& final(self).message@ == "Probed "@ + host_text(old(self).remote)
                        &&& *final(self) == (App {
                            box_cli: final(self).box_cli,
                            cli_current: final(self).cli_current,
                            surfaces: final(self).surfaces,
                            overview_extra: final(self).overview_extra,
                            logs: final(self).logs,
                            status_lines: final(self).status_lines,
                            selected: final(self).selected,
                            overview_text: final(self).overview_text,
                            panel_text: final(self).panel_text,
                            message: final(self).message,
                            ..*old(self)
                        })
                    }
                },
                Err(e) => {
                    &&& !snapshot
                    &&& final(self).box_cli == BoxCliView::Known(RemoteBoxCliStatus::Unreachable)
                    &&& !final(self).cli_current
                    &&& final(self).surfaces is None
                    &&& final(self).log_view() == logs_after(
                        old(self).log_view(),
                        log_entry(ts@, "ERROR probe: "@ + e@),
                    )
                    &&& final(self).message@ == "Probe failed: "@ + e@
                    &&& final(self).line_view() == seq![
                        s0_line_spec(BoxCliView::Known(RemoteBoxCliStatus::Unreachable), false),
                    ] + pipeline_lines(pipeline@)
                    &&& final(self).selected == Some(0usize)
                    &&& final(self).panel_text@ == panel_for(*final(self))
                    &&& *final(self) == (App {
                        box_cli: final(self).box_cli,
                        cli_current: final(self).cli_current,
                        surfaces: final(self).surfaces,
                        logs: final(self).logs,
                        message: final(self).message,
                        status_lines: final(self).status_lines,
                        selected: final(self).selected,
                        panel_text: final(self).panel_text,
                        ..*old(self)
                    })
                },
            },
    {
        match result {
            Ok(report) => {
                self.box_cli = BoxCliView::Known(copy_cli_status(&report.cli.status));
                self.cli_current = report.cli.current;
                let mut line = concat2("probe ssh=", report.ssh.status.as_str());
                line.append(" cli=");
                line.append(report.cli.status.as_label());
                line.append(" api=");
                line.append(report.api.health.as_str());
                self.surfaces = Some(report);
                self.push_log(ts, line.as_str());
                self.overview_extra = String::new();
                if self.cli_current {
                    true
                } else {
                    self.rebuild_remote_steps(None, pipeline);
                    self.finish_remote_refresh();
                    false
                }
            },
            Err(e) => {
                self.box_cli = BoxCliView::Known(RemoteBoxCliStatus::Unreachable);
                self.cli_current = false;
                self.surfaces = None;
                let line = concat2("ERROR probe: ", e.as_str());
                self.push_log(ts, line.as_str());
                self.message = concat2("Probe failed: ", e.as_str());
                self.rebuild_remote_steps(None, pipeline);
                self.refresh_panel_text();
                false
            },
        }
    }

    /// Take the result of a remote snapshot (setup status and doctor facts)
    /// and end the remote refresh.
    pub fn apply_remote_snapshot(
        &mut self,
        ts: &str,
        result: Result<RemoteSnapshot, String>,
        pipeline: &Vec<PipelineStep>,
    )
        requires
            old(self).wf(),
            old(self).remote is Some,
        ensures
            final(self).wf(),
            final(self).line_view() == seq![s0_line_spec(old(self).box_cli, old(self).cli_current)]
                + match result {
                Ok(snap) => step_lines(
                    match snap.setup {
                        Some(v) => Some(v@),
                        None => None,
                    },
                    pipeline@,
                ),
                Err(_) => step_lines(None, pipeline@),
            },
            final(self).selected == Some(
                smart_step(true, old(self).cli_current, final(self).line_view()) as usize,
            ),
            final(self).overview_extra@ == old(self).overview_extra@ + match result {
                Ok(snap) => match snap.doctor {
                    Some(d) => doctor_line_spec(d),
                    None => Seq::empty(),
                },
                Err(_) => Seq::empty(),
            },
            final(self).log_view() == logs_after(
                old(self).log_view(),
                log_entry(
                    ts@,
                    match result {
                        Ok(snap) => "setup steps="@ + nat_text(
                            match snap.setup {
                                Some(v) => v@.len(),
                                None => 0,
                            },
                        ),
                        Err(e) => "ERROR setup status: "@ + e@,
                    },
                ),
            ),
            final(self).overview_text@ == panel_overview_remote_spec(
                host_text(old(self).remote),
                old(self).surfaces,
                final(self).overview_extra@,
            ),
            final(self).panel_text@ == panel_for(*final(self)),
            final(self).message@ == "Probed "@ + host_text(old(self).remote),
            *final(self) == (App {
                status_lines: final(self).status_lines,
                selected: final(self).selected,
                overview_extra: final(self).overview_extra,
                logs: final(self).logs,
                overview_text: final(self).overview_text,
                panel_text: final(self).panel_text,
                message: final(self).message,
                ..*old(self)
            }),
    {
        match result {
            Ok(snap) => {
                self.rebuild_remote_steps(snap.setup.as_ref(), pipeline);
                match &snap.doctor {
                    Some(d) => {
                        let mut l = concat2("doctor: root=", bool_str(d.is_root));
                        l.append(" sudo=");
                        l.append(bool_str(d.has_sudo));
                        l.append(" docker=");
                        l.append(bool_str(d.docker_present));
                        l.append(" full_env=");
                        l.append(bool_str(d.full_env));
                        l.append(" minimal_env=");
                        l.append(bool_str(d.minimal_env));
                        l.append("\n");
                        self.overview_extra.append(l.as_str());
                    },
                    None => {
                        assert(self.overview_extra@ =~= self.overview_extra@ + Seq::<char>::empty());
                    },
                }
                let n = match &snap.setup {
                    Some(v) => v.len(),
                    None => 0,
                };
                let count = usize_text(n);
                let line = concat2("setup steps=", count.as_str());
                self.push_log(ts, line.as_str());
            },
            Err(e) => {
                self.rebuild_remote_steps(None, pipeline);
                let line = concat2("ERROR setup status: ", e.as_str());
                self.push_log(ts, line.as_str());
                assert(self.overview_extra@ =~= self.overview_extra@ + Seq::<char>::empty());
            },
        }
        self.finish_remote_refresh();
    }

    /// Enter on a surface screen: CLI syncs the CLI; API, MCP and Overview
    /// refresh; Reboot runs the reboot flow. (Enter on the SSH tab opens the
    /// Host dialog instead, see [`App::edit_host`].)
    pub fn surface_enter(&self) -> (step: SurfaceStep)
        ensures
            step == match self.screen {
                Screen::Cli => SurfaceStep::SyncCli,
                Screen::Api | Screen::Mcp | Screen::Overview => SurfaceStep::Refresh,
                Screen::Reboot => SurfaceStep::Reboot,
                Screen::Setup | Screen::Ssh | Screen::Logs => SurfaceStep::Nothing,
            },
    {
        match self.screen {
            Screen::Cli => SurfaceStep::SyncCli,
            Screen::Api | Screen::Mcp | Screen::Overview => SurfaceStep::Refresh,
            Screen::Reboot => SurfaceStep::Reboot,
            Screen::Setup | Screen::Ssh | Screen::Logs => SurfaceStep::Nothing,
        }
    }

    /// `i` on the SSH tab. Without `--install-ssh-key` the message says how
    /// to enable it and nothing runs; in remote mode with the flag the
    /// install is logged and the target handed out; in local mode nothing
    /// happens.
    pub fn begin_key_install(&mut self, ts: &str) -> (t: Option<RemoteTarget>)
        requires
            old(self).wf(),
        ensures
            final(self).wf(),
            !old(self).install_ssh_key ==> t is None && final(self).message@
                == "Start with --install-ssh-key to enable key install"@ && *final(self) == (App {
                message: final(self).message,
                ..*old(self)
            }),
            old(self).install_ssh_key && old(self).remote is None ==> t is None && *final(self)
                == *old(self),
            old(self).install_ssh_key && old(self).remote is Some ==> {
                &&& target_of(*old(self), t)
                &&& final(self).log_view() == logs_after(
                    old(self).log_view(),
                    log_entry(ts@, "SSH: installing key…"@),
                )
                &&& *final(self) == (App { logs: final(self).logs, ..*old(self) })
            },
    {
        if !self.install_ssh_key {
            self.message = String::from_str("Start with --install-ssh-key to enable key install");
            return None;
        }
        let t = self.remote_target();
        if t.is_some() {
            self.push_log(ts, "SSH: installing key…");
        }
        t
    }

    /// Take the result of an SSH key install; on success the caller
    /// refreshes the remote state next (returns true).
    pub fn apply_ssh_key_result(&mut self, ts: &str, result: Result<(), String>) -> (refresh: bool)
        requires
            old(self).wf(),
        ensures
            final(self).wf(),
            refresh == result is Ok,
            match result {
                Ok(_) => final(self).message@ == "SSH key installed (or already authorized)"@
                    && *final(self) == (App { message: final(self).message, ..*old(self) }),
                Err(e) => final(self).message@ == "SSH key failed: "@ + e@ && final(self).log_view()
                    == logs_after(old(self).log_view(), log_entry(ts@, "ERROR ssh key: "@ + e@))
                    && *final(self) == (App {
                    message: final(self).message,
                    logs: final(self).logs,
                    ..*old(self)
                }),
            },
    {
        match result {
            Ok(()) => {
                self.message = String::from_str("SSH key installed (or already authorized)");
                true
            },
            Err(e) => {
                let line = concat2("ERROR ssh key: ", e.as_str());
                self.push_log(ts, line.as_str());
                self.message = concat2("SSH key failed: ", e.as_str());
                false
            },
        }
    }

    /// The reboot flow: the first request only arms the y/N confirmation; a
    /// confirmed request clears it and, in remote mode, logs and asks the
    /// caller to reboot the box (returns true).
    pub fn reboot_gate(&mut self, ts: &str) -> (go: bool)
        requires
            old(self).wf(),
        ensures
            final(self).wf(),
            !armed_for_reboot(*old(self)) ==> {
                &&& !go
                &&& armed_for_reboot(*final(self))
                &&& final(self).message@ == "Reboot box? Enter/y confirm, Esc/n cancel."@
                &&& *final(self) == (App {
                    confirm_destructive: final(self).confirm_destructive,
                    message: final(self).message,
                    ..*old(self)
                })
            },
            armed_for_reboot(*old(self)) ==> {
                &&& go == (old(self).remote is Some)
                &&& final(self).confirm_destructive is None
                &&& go ==> final(self).log_view() == logs_after(
                    old(self).log_view(),
                    log_entry(ts@, "reboot: sudo reboot on box…"@),
                )
                &&& !go ==> final(self).logs == old(self).logs
                &&& *final(self) == (App {
                    confirm_destructive: final(self).confirm_destructive,
                    logs: final(self).logs,
                    ..*old(self)
                })
            },
    {
        let armed = match &self.confirm_destructive {
            Some(c) => str_eq(c.as_str(), "reboot"),
            None => false,
        };
        if !armed {
            self.confirm_destructive = Some(String::from_str("reboot"));
            self.message = String::from_str("Reboot box? Enter/y confirm, Esc/n cancel.");
            return false;
        }
        self.confirm_destructive = None;
        if self.remote.is_none() {
            return false;
        }
        self.push_log(ts, "reboot: sudo reboot on box…");
        true
    }

    /// Take the result of a box reboot.
    pub fn apply_reboot_result(&mut self, ts: &str, result: Result<(), String>)
        requires
            old(self).wf(),
        ensures
            final(self).wf(),
            match result {
                Ok(_) => final(self).message@ == "Reboot issued"@ && *final(self) == (App {
                    message: final(self).message,
                    ..*old(self)
                }),
                Err(e) => final(self).message@ == "Reboot failed: "@ + e@ && final(self).log_view()
                    == logs_after(old(self).log_view(), log_entry(ts@, "ERROR reboot: "@ + e@))
                    && *final(self) == (App {
                    message: final(self).message,
                    logs: final(self).logs,
                    ..*old(self)
                }),
            },
    {
        match result {
            Ok(()) => {
                self.message = String::from_str("Reboot issued");
            },
            Err(e) => {
                let line = concat2("ERROR reboot: ", e.as_str());
                self.push_log(ts, line.as_str());
                self.message = concat2("Reboot failed: ", e.as_str());
            },
        }
    }

    /// Start the `s0` CLI sync: in remote mode log it and hand out the target.
    pub fn begin_s0_sync(&mut self, ts: &str) -> (t: Option<RemoteTarget>)
        requires
            old(self).wf(),
        ensures
            final(self).wf(),
            target_of(*old(self), t),
            old(self).remote is Some ==> final(self).log_view() == logs_after(
                old(self).log_view(),
                log_entry(ts@, "s0: syncing CLI to box…"@),
            ) && *final(self) == (App { logs: final(self).logs, ..*old(self) }),
            old(self).remote is None ==> *final(self) == *old(self),
    {
        let t = self.remote_target();
        if t.is_some() {
            self.push_log(ts, "s0: syncing CLI to box…");
        }
        t
    }

    /// Take the result of the CLI upload. When the box CLI is now current the
    /// caller refreshes the remote state and then calls
    /// [`App::finish_s0_sync`] (returns true); otherwise the Setup rows fall
    /// back to the pipeline and the message says what the box still reports.
    pub fn apply_s0_result(
        &mut self,
        ts: &str,
        result: Result<CliProbe, String>,
        pipeline: &Vec<PipelineStep>,
    ) -> (refresh: bool)
        requires
            old(self).wf(),
        ensures
            final(self).wf(),
            match result {
                Ok(p) => {
                    &&& refresh == p.current
                    &&& final(self).box_cli == BoxCliView::Known(p.status)
                    &&& final(self).cli_current == p.current
                    &&& final(self).log_view() == logs_after(
                        old(self).log_view(),
                        log_entry(ts@, "s0: box="@ + cli_status_label(p.status)),
                    )
                    &&& p.current ==> *final(self) == (App {
                        box_cli: final(self).box_cli,
                        cli_current: final(self).cli_current,
                        logs: final(self).logs,
                        ..*old(self)
                    })
                    &&& !p.current ==> {
                        &&& final(self).line_view() == seq![
                            s0_line_spec(BoxCliView::Known(p.status), false),
                        ] + pipeline_lines(pipeline@)
                        &&& final(self).selected == Some(
                            smart_step(old(self).remote is Some, false, final(self).line_view())
                                as usize,
                        )
                        &&& final(self).message@ == "s0 finished but box still "@
                            + cli_status_label(p.status) + "; check SSH/auth"@
                        &&& *final(self) == (App {
                            box_cli: final(self).box_cli,
                            cli_current: final(self).cli_current,
                            logs: final(self).logs,
                            status_lines: final(self).status_lines,
                            selected: final(self).selected,
                            message: final(self).message,
                            ..*old(self)
                        })
                    }
                },
                Err(e) => {
                    &&& !refresh
                    &&& final(self).log_view() == logs_after(
                        old(self).log_view(),
                        log_entry(ts@, "ERROR s0: "@ + e@),
                    )
                    &&& final(self).message@ == "s0 failed: "@ + e@
                    &&& *final(self) == (App {
                        logs: final(self).logs,
                        message: final(self).message,
                        ..*old(self)
                    })
                },
            },
    {
        match result {
            Ok(probe) => {
                self.box_cli = BoxCliView::Known(copy_cli_status(&probe.status));
                self.cli_current = probe.current;
                let line = concat2("s0: box=", probe.status.as_label());
                self.push_log(ts, line.as_str());
                if probe.current {
                    true
                } else {
                    self.rebuild_remote_steps(None, pipeline);
                    self.message = concat3(
                        "s0 finished but box still ",
                        probe.status.as_label(),
                        "; check SSH/auth",
                    );
                    false
                }
            },
            Err(e) => {
                let line = concat2("ERROR s0: ", e.as_str());
                self.push_log(ts, line.as_str());
                self.message = concat2("s0 failed: ", e.as_str());
                false
            },
        }
    }

    /// The CLI sync ended with the box current.
    pub fn finish_s0_sync(&mut self)
        ensures
            final(self).message@ == "s0 done; CLI synced"@,
            *final(self) == (App { message: final(self).message, ..*old(self) }),
    {
        self.message = String::from_str("s0 done; CLI synced");
    }

    /// After a refresh asked for by `r` in local mode.
    pub fn mark_refreshed(&mut self)
        ensures
            final(self).message@ == "Refreshed"@,
            *final(self) == (App { message: final(self).message, ..*old(self) }),
    {
        self.message = String::from_str("Refreshed");
    }

    /// Decide how the selected Setup row runs: `s0` syncs the CLI; in remote
    /// mode with a box CLI that is not current nothing else runs, and the
    /// message says why; otherwise the step is checked next.
    pub fn run_selected_gate(&mut self) -> (g: SelectedGate)
        ensures
            match old(self).selected_id_spec() {
                None => g == SelectedGate::Stop && *final(self) == *old(self),
                Some(id) => if id == "s0"@ {
                    g == SelectedGate::SyncCli && *final(self) == *old(self)
                } else if old(self).remote is Some && !old(self).cli_current {
                    &&& g == SelectedGate::Stop
                    &&& final(self).message@ == blocked_step_message(old(self).box_cli)
                    &&& *final(self) == (App { message: final(self).message, ..*old(self) })
                } else {
                    g matches SelectedGate::Check(s) && s@ == id && *final(self) == *old(self)
                },
            },
    {
        let id = match self.selected_step_id() {
            None => return SelectedGate::Stop,
            Some(id) => id,
        };
        if str_eq(id.as_str(), "s0") {
            return SelectedGate::SyncCli;
        }
        if self.remote.is_some() && !self.cli_current {
            let m = match &self.box_cli {
                BoxCliView::NotProbed => "Press r to probe box CLI (or run s0 to sync)",
                BoxCliView::Known(RemoteBoxCliStatus::AuthFailed) => {
                    "SSH auth failed: install key (--install-ssh-key) or run s0 after login"
                },
                BoxCliView::Known(RemoteBoxCliStatus::Unreachable) => {
                    "Box unreachable: check host/network, then press r"
                },
                _ => "Run s0 (Sync CLI) before other steps",
            };
            self.message = String::from_str(m);
            return SelectedGate::Stop;
        }
        SelectedGate::Check(id)
    }

    /// A destructive step in apply mode first arms the y/N confirmation (and
    /// does not run); otherwise any pending confirmation is cleared and the
    /// step runs (returns true).
    pub fn confirm_or_run(&mut self, id: &str, destructive: bool) -> (run: bool)
        ensures
            run == runs_without_asking(*old(self), destructive),
            !run ==> {
                &&& final(self).confirm_destructive matches Some(c) && c@ == id@
                &&& final(self).message@ == "Step "@ + id@
                    + " is destructive. Enter/y confirm, Esc/n cancel."@
                &&& *final(self) == (App {
                    confirm_destructive: final(self).confirm_destructive,
                    message: final(self).message,
                    ..*old(self)
                })
            },
            run ==> *final(self) == (App { confirm_destructive: None, ..*old(self) }),
    {
        if destructive && !self.dry_run && self.confirm_destructive.is_none() {
            self.confirm_destructive = Some(String::from_str(id));
            self.message = concat3("Step ", id, " is destructive. Enter/y confirm, Esc/n cancel.");
            return false;
        }
        self.confirm_destructive = None;
        true
    }

    /// Arguments of a CLI run on the box: `--dry-run`, `--skip-piper` as the
    /// state asks, then `rest`.
    pub fn remote_cli_args(&self, rest: &Vec<&str>) -> (r: Vec<String>)
        ensures
            string_views(r@) == remote_cli_args_spec(
                self.dry_run,
                self.skip_piper,
                rest@.map_values(|x: &str| x@),
            ),
    {
        let mut out: Vec<String> = Vec::new();
        if self.dry_run {
            out.push(String::from_str("--dry-run"));
        }
        if self.skip_piper {
            out.push(String::from_str("--skip-piper"));
        }
        let ghost head = string_views(out@);
        let mut i: usize = 0;
        while i < rest.len()
            invariant
                i <= rest@.len(),
                head == (if self.dry_run {
                    seq!["--dry-run"@]
                } else {
                    Seq::empty()
                }) + (if self.skip_piper {
                    seq!["--skip-piper"@]
                } else {
                    Seq::empty()
                }),
                string_views(out@) == head + rest@.take(i as int).map_values(|x: &str| x@),
            decreases rest@.len() - i,
        {
            let ghost prev = string_views(out@);
            out.push(String::from_str(rest[i]));
            assert(string_views(out@) =~= prev.push(rest@[i as int]@));
            assert(rest@.take(i + 1).map_values(|x: &str| x@) =~= rest@.take(i as int).map_values(
                |x: &str| x@,
            ).push(rest@[i as int]@));
            i = i + 1;
        }
        assert(rest@.take(rest@.len() as int) =~= rest@);
        out
    }
}

impl App {
    /// Start a Setup step: log it; remote runs `setup step <id> --full` (or
    /// `--minimal`) on the box with sudo unless dry-run, local runs here.
    pub fn begin_step(&mut self, ts: &str, id: &str) -> (plan: RunPlan)
        requires
            old(self).wf(),
        ensures
            final(self).wf(),
            final(self).log_view() == logs_after(
                old(self).log_view(),
                log_entry(ts@, running_step_line(id@, old(self).dry_run)),
            ),
            *final(self) == (App { logs: final(self).logs, ..*old(self) }),
            old(self).remote is None ==> plan == RunPlan::Local,
            old(self).remote is Some ==> (plan matches RunPlan::Remote(p) && plan_spec(
                *old(self),
                seq!["setup"@, "step"@, id@, kind_flag(old(self).kind)],
                false,
                p,
            )),
    {
        let mut line = concat2("Running step ", id);
        line.append(" (dry_run=");
        line.append(bool_str(self.dry_run));
        line.append(")");
        self.push_log(ts, line.as_str());
        if self.remote.is_none() {
            return RunPlan::Local;
        }
        let kind = if self.kind == SetupKind::Minimal {
            "--minimal"
        } else {
            "--full"
        };
        let rest = vec!["setup", "step", id, kind];
        let args = self.remote_cli_args(&rest);
        assert(rest@.map_values(|x: &str| x@) =~= seq!["setup"@, "step"@, id@, kind_flag(self.kind)]);
        RunPlan::Remote(
            RemoteRunPlan {
                cli_args: args,
                use_sudo: !self.dry_run,
                install_payload_on_success: false,
                offer_reboot_on_success: false,
            },
        )
    }

    /// Start the whole pipeline: in remote mode with a box CLI that is not
    /// current nothing runs (the message says why); otherwise log it; remote
    /// runs `setup run --full` (or `--minimal`) with sudo, payload install
    /// and reboot offer unless dry-run, local runs here.
    pub fn begin_run_all(&mut self, ts: &str) -> (plan: RunPlan)
        requires
            old(self).wf(),
        ensures
            final(self).wf(),
            old(self).remote is Some && !old(self).cli_current ==> {
                &&& plan == RunPlan::Blocked
                &&& final(self).message@ == (if old(self).box_cli == BoxCliView::NotProbed {
                    "Press r to probe box CLI (or run s0 to sync)"@
                } else {
                    "Run s0 (Sync CLI) before running all steps"@
                })
                &&& *final(self) == (App { message: final(self).message, ..*old(self) })
            },
            !(old(self).remote is Some && !old(self).cli_current) ==> {
                &&& final(self).log_view() == logs_after(
                    old(self).log_view(),
                    log_entry(
                        ts@,
                        "Running all pipeline steps (dry_run="@ + bool_text(old(self).dry_run)
                            + ")"@,
                    ),
                )
                &&& *final(self) == (App { logs: final(self).logs, ..*old(self) })
                &&& old(self).remote is None ==> plan == RunPlan::Local
                &&& old(self).remote is Some ==> (plan matches RunPlan::Remote(p) && plan_spec(
                    *old(self),
                    seq!["setup"@, "run"@, kind_flag(old(self).kind)],
                    !old(self).dry_run,
                    p,
                ))
            },
    {
        if self.remote.is_some() && !self.cli_current {
            let m = match &self.box_cli {
                BoxCliView::NotProbed => "Press r to probe box CLI (or run s0 to sync)",
                _ => "Run s0 (Sync CLI) before running all steps",
            };
            self.message = String::from_str(m);
            return RunPlan::Blocked;
        }
        let mut line = concat2("Running all pipeline steps (dry_run=", bool_str(self.dry_run));
        line.append(")");
        self.push_log(ts, line.as_str());
        if self.remote.is_none() {
            return RunPlan::Local;
        }
        let kind = if self.kind == SetupKind::Minimal {
            "--minimal"
        } else {
            "--full"
        };
        let rest = vec!["setup", "run", kind];
        let args = self.remote_cli_args(&rest);
        assert(rest@.map_values(|x: &str| x@) =~= seq!["setup"@, "run"@, kind_flag(self.kind)]);
        RunPlan::Remote(
            RemoteRunPlan {
                cli_args: args,
                use_sudo: !self.dry_run,
                install_payload_on_success: !self.dry_run,
                offer_reboot_on_success: !self.dry_run,
            },
        )
    }

    /// Take the outcome of a remote CLI run: its log lines go to the log. A
    /// status-API token created on the box waits for the y/N question to
    /// save it; when the plan offered a reboot, the reboot question is armed
    /// too (it is asked after the token question).
    pub fn apply_remote_outcome(
        &mut self,
        ts: &str,
        result: Result<RemoteOutcome, String>,
        offer_reboot: bool,
    )
        requires
            old(self).wf(),
        ensures
            final(self).wf(),
            match result {
                Ok(o) => {
                    &&& final(self).log_view() == logs_after_lines(
                        old(self).log_view(),
                        ts@,
                        lines_from(o.log@, 0),
                    )
                    &&& final(self).pending_token == o.api_token
                    &&& offer_reboot ==> armed_for_reboot(*final(self))
                    &&& !offer_reboot ==> final(self).confirm_destructive
                        == old(self).confirm_destructive
                    &&& final(self).message@ == (if o.api_token is Some {
                        token_question()
                    } else if offer_reboot {
                        "Remote finished. Reboot box? Enter/y confirm, Esc/n cancel."@
                    } else {
                        "Remote command finished"@
                    })
                    &&& *final(self) == (App {
                        logs: final(self).logs,
                        pending_token: final(self).pending_token,
                        confirm_destructive: final(self).confirm_destructive,
                        message: final(self).message,
                        ..*old(self)
                    })
                },
                Err(e) => {
                    &&& final(self).log_view() == logs_after(
                        old(self).log_view(),
                        log_entry(ts@, "ERROR: "@ + e@),
                    )
                    &&& final(self).message@ == "Remote failed: "@ + e@
                    &&& *final(self) == (App {
                        logs: final(self).logs,
                        message: final(self).message,
                        ..*old(self)
                    })
                },
            },
    {
        match result {
            Ok(o) => {
                let lines = lines_of(o.log.as_str());
                self.push_logs(ts, &lines);
                if offer_reboot {
                    self.confirm_destructive = Some(String::from_str("reboot"));
                }
                match o.api_token {
                    Some(t) => {
                        self.pending_token = Some(t);
                        self.message = String::from_str(
                            "Save status-api bearer locally? Enter/y save, Esc/n skip.",
                        );
                    },
                    None => {
                        self.pending_token = None;
                        if offer_reboot {
                            self.message = String::from_str(
                                "Remote finished. Reboot box? Enter/y confirm, Esc/n cancel.",
                            );
                        } else {
                            self.message = String::from_str("Remote command finished");
                        }
                    },
                }
            },
            Err(e) => {
                let line = concat2("ERROR: ", e.as_str());
                self.push_log(ts, line.as_str());
                self.message = concat2("Remote failed: ", e.as_str());
            },
        }
    }

    /// Take the answer to the token question (`Ok(false)` when the user
    /// skipped it, else the result of saving): the question closes.
    pub fn apply_token_save(&mut self, ts: &str, result: Result<bool, String>)
        requires
            old(self).wf(),
        ensures
            final(self).wf(),
            final(self).log_view() == logs_after(
                old(self).log_view(),
                log_entry(
                    ts@,
                    match result {
                        Ok(true) => "Saved status-api bearer to ~/.config/horto-os-ui/api_token"@,
                        Ok(false) => "Skipped saving status-api bearer locally"@,
                        Err(e) => "Token save failed: "@ + e@,
                    },
                ),
            ),
            final(self).message@ == match result {
                Ok(true) => "Remote finished; API token saved"@,
                Ok(false) => "Remote command finished"@,
                Err(_) => "Remote finished; token save failed"@,
            },
            *final(self) == (App {
                logs: final(self).logs,
                message: final(self).message,
                pending_token: None,
                ..*old(self)
            }),
    {
        self.pending_token = None;
        match result {
            Ok(true) => {
                self.push_log(ts, "Saved status-api bearer to ~/.config/horto-os-ui/api_token");
                self.message = String::from_str("Remote finished; API token saved");
            },
            Ok(false) => {
                self.push_log(ts, "Skipped saving status-api bearer locally");
                self.message = String::from_str("Remote command finished");
            },
            Err(e) => {
                let line = concat2("Token save failed: ", e.as_str());
                self.push_log(ts, line.as_str());
                self.message = String::from_str("Remote finished; token save failed");
            },
        }
    }

    /// Take the result of local work that logs (a step, the pipeline, a
    /// backup): on success its log lines go to the log and the message is
    /// `ok_message`; on failure the error is logged and the message is
    /// `fail_prefix` followed by the error.
    pub fn apply_local_work(
        &mut self,
        ts: &str,
        logs: &Vec<String>,
        result: Result<(), String>,
        ok_message: &str,
        fail_prefix: &str,
    )
        requires
            old(self).wf(),
        ensures
            final(self).wf(),
            match result {
                Ok(_) => final(self).log_view() == logs_after_lines(
                    old(self).log_view(),
                    ts@,
                    string_views(logs@),
                ) && final(self).message@ == ok_message@,
                Err(e) => final(self).log_view() == logs_after(
                    old(self).log_view(),
                    log_entry(ts@, "ERROR: "@ + e@),
                ) && final(self).message@ == fail_prefix@ + e@,
            },
            *final(self) == (App { logs: final(self).logs, message: final(self).message, ..*old(self) }),
    {
        match result {
            Ok(()) => {
                self.push_logs(ts, logs);
                self.message = String::from_str(ok_message);
            },
            Err(e) => {
                let line = concat2("ERROR: ", e.as_str());
                self.push_log(ts, line.as_str());
                self.message = concat2(fail_prefix, e.as_str());
            },
        }
    }

    /// Take the result of a local Setup step.
    pub fn apply_step_result(&mut self, ts: &str, id: &str, logs: &Vec<String>, result: Result<(), String>)
        requires
            old(self).wf(),
        ensures
            final(self).wf(),
            match result {
                Ok(_) => final(self).log_view() == logs_after_lines(
                    old(self).log_view(),
                    ts@,
                    string_views(logs@),
                ) && final(self).message@ == "Step "@ + id@ + " finished"@,
                Err(e) => final(self).log_view() == logs_after(
                    old(self).log_view(),
                    log_entry(ts@, "ERROR: "@ + e@),
                ) && final(self).message@ == "Step "@ + id@ + " failed: "@ + e@,
            },
            *final(self) == (App { logs: final(self).logs, message: final(self).message, ..*old(self) }),
    {
        let ok = concat3("Step ", id, " finished");
        let fail = concat3("Step ", id, " failed: ");
        self.apply_local_work(ts, logs, result, ok.as_str(), fail.as_str());
    }

    /// Take the result of the local pipeline run.
    pub fn apply_pipeline_result(&mut self, ts: &str, logs: &Vec<String>, result: Result<(), String>)
        requires
            old(self).wf(),
        ensures
            final(self).wf(),
            match result {
                Ok(_) => final(self).log_view() == logs_after_lines(
                    old(self).log_view(),
                    ts@,
                    string_views(logs@),
                ) && final(self).message@ == "Pipeline finished"@,
                Err(e) => final(self).log_view() == logs_after(
                    old(self).log_view(),
                    log_entry(ts@, "ERROR: "@ + e@),
                ) && final(self).message@ == "Pipeline failed: "@ + e@,
            },
            *final(self) == (App { logs: final(self).logs, message: final(self).message, ..*old(self) }),
    {
        self.apply_local_work(ts, logs, result, "Pipeline finished", "Pipeline failed: ");
    }

    /// Start the timestamped `/etc` backup: log it.
    pub fn begin_backup_etc(&mut self, ts: &str)
        requires
            old(self).wf(),
        ensures
            final(self).wf(),
            final(self).log_view() == logs_after(
                old(self).log_view(),
                log_entry(
                    ts@,
                    "Timestamped /etc backup (dry_run="@ + bool_text(old(self).dry_run) + ")"@,
                ),
            ),
            *final(self) == (App { logs: final(self).logs, ..*old(self) }),
    {
        let mut line = concat2("Timestamped /etc backup (dry_run=", bool_str(self.dry_run));
        line.append(")");
        self.push_log(ts, line.as_str());
    }

    /// Take the result of the `/etc` backup (or of the root check before
    /// it, with no log lines): success names the backup's destination.
    pub fn apply_backup_result(&mut self, ts: &str, logs: &Vec<String>, result: Result<String, String>)
        requires
            old(self).wf(),
        ensures
            final(self).wf(),
            match result {
                Ok(dest) => final(self).log_view() == logs_after_lines(
                    old(self).log_view(),
                    ts@,
                    string_views(logs@),
                ) && final(self).message@ == "Backup etc -> "@ + dest@,
                Err(e) => final(self).log_view() == logs_after(
                    old(self).log_view(),
                    log_entry(ts@, "ERROR: "@ + e@),
                ) && final(self).message@ == "Backup etc failed: "@ + e@,
            },
            *final(self) == (App { logs: final(self).logs, message: final(self).message, ..*old(self) }),
    {
        match result {
            Ok(dest) => {
                let ok = concat2("Backup etc -> ", dest.as_str());
                self.apply_local_work(ts, logs, Ok(()), ok.as_str(), "Backup etc failed: ");
            },
            Err(e) => {
                self.apply_local_work(ts, logs, Err(e), "", "Backup etc failed: ");
            },
        }
    }

    /// Show the disk backup probe in the log and switch to the Logs tab.
    pub fn apply_disk_probe(&mut self, ts: &str, probe: &DiskProbe)
        requires
            old(self).wf(),
        ensures
            final(self).wf(),
            final(self).log_view() == logs_after_lines(
                logs_after(
                    old(self).log_view(),
                    log_entry(
                        ts@,
                        "disk backup: root="@ + probe.root_source@ + " safe="@ + bool_text(
                            probe.safe_to_apply,
                        ) + " partclone="@ + bool_text(probe.partclone_present),
                    ),
                ),
                ts@,
                string_views(probe.blockers@).map_values(|b: Seq<char>| "blocker: "@ + b),
            ),
            final(self).message@ == (if probe.safe_to_apply {
                "Disk backup looks safe (CLI: horto backup disk)"@
            } else {
                "Disk backup blocked ("@ + nat_text(probe.blockers@.len())
                    + "). See Logs. Boot from SD for eMMC image."@
            }),
            final(self).screen == Screen::Logs,
            final(self).panel_text@ == panel_for(*final(self)),
            *final(self) == (App {
                logs: final(self).logs,
                message: final(self).message,
                screen: Screen::Logs,
                panel_text: final(self).panel_text,
                ..*old(self)
            }),
    {
        let mut line = concat2("disk backup: root=", probe.root_source.as_str());
        line.append(" safe=");
        line.append(bool_str(probe.safe_to_apply));
        line.append(" partclone=");
        line.append(bool_str(probe.partclone_present));
        self.push_log(ts, line.as_str());
        let mut lines: Vec<String> = Vec::new();
        let mut i: usize = 0;
        while i < probe.blockers.len()
            invariant
                i <= probe.blockers@.len(),
                string_views(lines@) == string_views(probe.blockers@.take(i as int)).map_values(
                    |b: Seq<char>| "blocker: "@ + b,
                ),
            decreases probe.blockers@.len() - i,
        {
            let ghost prev = string_views(lines@);
            lines.push(concat2("blocker: ", probe.blockers[i].as_str()));
            assert(string_views(lines@) =~= prev.push("blocker: "@ + probe.blockers@[i as int]@));
            assert(string_views(probe.blockers@.take(i + 1)).map_values(|b: Seq<char>| "blocker: "@ + b)
                =~= string_views(probe.blockers@.take(i as int)).map_values(
                |b: Seq<char>| "blocker: "@ + b,
            ).push("blocker: "@ + probe.blockers@[i as int]@));
            i = i + 1;
        }
        assert(probe.blockers@.take(probe.blockers@.len() as int) =~= probe.blockers@);
        self.push_logs(ts, &lines);
        if probe.safe_to_apply {
            self.message = String::from_str("Disk backup looks safe (CLI: horto backup disk)");
        } else {
            let n = usize_text(probe.blockers.len());
            self.message = concat3(
                "Disk backup blocked (",
                n.as_str(),
                "). See Logs. Boot from SD for eMMC image.",
            );
        }
        self.screen = Screen::Logs;
        self.refresh_panel_text();
    }

    /// Take the result of the local surface probe and redraw the panel.
    pub fn apply_local_probe(&mut self, ts: &str, result: Result<SurfaceProbeReport, String>)
        requires
            old(self).wf(),
        ensures
            final(self).wf(),
            match result {
                Ok(r) => final(self).surfaces == Some(r) && final(self).logs == old(self).logs,
                Err(e) => final(self).surfaces == old(self).surfaces && final(self).log_view()
                    == logs_after(old(self).log_view(), log_entry(ts@, "ERROR local probe: "@ + e@)),
            },
            final(self).panel_text@ == panel_for(*final(self)),
            *final(self) == (App {
                surfaces: final(self).surfaces,
                logs: final(self).logs,
                panel_text: final(self).panel_text,
                ..*old(self)
            }),
    {
        match result {
            Ok(r) => {
                self.surfaces = Some(r);
            },
            Err(e) => {
                let line = concat2("ERROR local probe: ", e.as_str());
                self.push_log(ts, line.as_str());
            },
        }
        self.refresh_panel_text();
    }
}

} // verus!
