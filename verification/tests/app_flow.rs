use horto_os_ui_tui::app::{App, KeyAction, PipelineStep, SetupKind, SetupStepRow};
use horto_os_ui_tui::cli::Cli;
use horto_os_ui_tui::flow::{
    step_destructive, DiskProbe, Doctor, RemoteOutcome, RemoteSnapshot, RunPlan, SelectedGate,
    SurfaceStep,
};
use horto_os_ui_tui::overview::{BackupStatus, BoxStatus, Container, Lease, UrlCheck};
use horto_os_ui_tui::probe::{
    ApiProbe, BoxCliView, CliProbe, McpBoxProbe, McpPcProbe, RemoteBoxCliStatus, SshProbe,
    SurfaceProbeReport,
};
use horto_os_ui_tui::prompt::{KeyCode, KeyEvent, KeyEventKind, KeyModifiers};
use horto_os_ui_tui::tabs::Screen;
use horto_os_ui_tui::view::{help_text, line_tone, panel_title, LineTone};

fn pipeline() -> Vec<PipelineStep> {
    vec![
        PipelineStep { id: "s1".into(), title: "Hostname".into(), destructive: false },
        PipelineStep { id: "s2".into(), title: "Netplan".into(), destructive: true },
    ]
}

fn cli(remote: Option<&str>) -> Cli {
    Cli {
        dry_run: false,
        minimal: false,
        skip_piper: false,
        remote: remote.map(|s| s.to_string()),
        install_ssh_key: false,
        bin_dir: None,
        release_tag: None,
    }
}

fn key(c: KeyCode) -> KeyEvent {
    KeyEvent::new(c, KeyModifiers::none())
}

fn report(current: bool) -> SurfaceProbeReport {
    SurfaceProbeReport {
        local_version: "0.2.0".into(),
        ssh: SshProbe { status: "ok".into(), key_ok: "false".into() },
        cli: CliProbe {
            status: if current {
                RemoteBoxCliStatus::Found("0.2.0".into())
            } else {
                RemoteBoxCliStatus::Missing
            },
            current,
        },
        api: ApiProbe {
            url: "u".into(),
            health: "up".into(),
            status: "s".into(),
            local_token: "t".into(),
            unit: "".into(),
        },
        mcp_pc: McpPcProbe { binary: Some("/bin/mcp".into()), api_health: "up".into() },
        mcp_box: McpBoxProbe { url: "m".into(), reachability: "open".into(), unit: "".into() },
    }
}

#[test]
fn new_local_app_state() {
    let a = App::new(&cli(None), "0.2.0", &pipeline());
    assert_eq!(a.box_cli, BoxCliView::Known(RemoteBoxCliStatus::Found("0.2.0".into())));
    assert!(a.cli_current);
    assert!(a.status_lines.is_empty());
    assert_eq!(a.message, "Ready (? help)");
    assert_eq!(a.selected, Some(0));
    assert_eq!(a.kind, SetupKind::Full);
}

#[test]
fn new_remote_app_lists_s0_and_pipeline() {
    let a = App::new(&cli(Some("horto")), "0.2.0", &pipeline());
    assert_eq!(
        a.status_lines,
        vec!["s0 | … | Sync CLI to box", "s1 | … | Hostname", "s2 | … | Netplan *"]
    );
    assert_eq!(a.selected, Some(0));
    assert_eq!(a.overview_text, "Mode: remote (horto)\nNo status yet.\n");
    assert_eq!(a.footer_line(), "[APPLY] pipeline=full · local=0.2.0 · Ready (? help)");
}

#[test]
fn log_keeps_newest_five_hundred() {
    let mut a = App::new(&cli(None), "0.2.0", &pipeline());
    for i in 0..501 {
        a.push_log("12:00:00", &format!("line {i}"));
    }
    assert_eq!(a.logs.len(), 500);
    assert_eq!(a.logs[0], "12:00:00 line 1");
    assert_eq!(a.logs[499], "12:00:00 line 500");
    assert_eq!(a.logs_title(), "Logs (500)");
    let text = a.logs_text();
    assert_eq!(text.lines().count(), 40);
    assert!(text.starts_with("12:00:00 line 461\n"));
    assert!(text.ends_with("12:00:00 line 500"));
    a.clear_logs();
    assert_eq!(a.logs_text(), "(empty · c to clear)");
    assert_eq!(a.message, "Logs cleared");
}

#[test]
fn keys_navigate_and_toggle() {
    let mut a = App::new(&cli(Some("horto")), "0.2.0", &pipeline());
    assert_eq!(a.handle_key(key(KeyCode::Tab)), KeyAction::Nothing);
    assert_eq!(a.screen, Screen::Overview);
    assert_eq!(a.panel_text, "Mode: remote (horto)\nNo status yet.\n");
    assert_eq!(a.handle_key(key(KeyCode::Char('7'))), KeyAction::Nothing);
    assert_eq!(a.screen, Screen::Reboot);
    assert_eq!(a.handle_key(key(KeyCode::BackTab)), KeyAction::Nothing);
    assert_eq!(a.screen, Screen::Mcp);
    assert_eq!(a.handle_key(key(KeyCode::Char('d'))), KeyAction::Nothing);
    assert!(a.dry_run);
    assert_eq!(a.message, "dry-run = true");
    assert_eq!(a.handle_key(key(KeyCode::Char('?'))), KeyAction::Nothing);
    assert!(a.help_open);
    assert_eq!(a.footer_hints(), "Esc or ? close help");
    assert_eq!(a.handle_key(key(KeyCode::Tab)), KeyAction::Nothing);
    assert_eq!(a.screen, Screen::Mcp);
    assert_eq!(a.handle_key(key(KeyCode::Esc)), KeyAction::Nothing);
    assert!(!a.help_open);
    assert_eq!(a.message, "Ready (? help)");
    assert_eq!(a.handle_key(key(KeyCode::Char('q'))), KeyAction::Quit);
    assert_eq!(a.handle_key(key(KeyCode::Esc)), KeyAction::Quit);
    let release = KeyEvent { kind: KeyEventKind::Release, ..key(KeyCode::Char('q')) };
    assert_eq!(a.handle_key(release), KeyAction::Nothing);
    assert_eq!(a.handle_key(key(KeyCode::Enter)), KeyAction::SurfaceEnter);
    a.handle_key(key(KeyCode::Char('4')));
    assert_eq!(a.handle_key(key(KeyCode::Enter)), KeyAction::SurfaceEnter);
    assert_eq!(a.handle_key(key(KeyCode::Char('r'))), KeyAction::Refresh { announce: false });
    assert_eq!(a.handle_key(key(KeyCode::Left)), KeyAction::SetKind(SetupKind::Full));
    assert_eq!(a.handle_key(key(KeyCode::Right)), KeyAction::SetKind(SetupKind::Minimal));
    assert_eq!(a.handle_key(key(KeyCode::Char('a'))), KeyAction::RunAll);
    assert_eq!(a.handle_key(key(KeyCode::Char('b'))), KeyAction::BackupEtc);
    assert_eq!(a.handle_key(key(KeyCode::Char('B'))), KeyAction::DiskStatus);
}

#[test]
fn local_d_and_r_refresh() {
    let mut a = App::new(&cli(None), "0.2.0", &pipeline());
    assert_eq!(a.handle_key(key(KeyCode::Char('d'))), KeyAction::Refresh { announce: false });
    assert_eq!(a.handle_key(key(KeyCode::Char('r'))), KeyAction::Refresh { announce: true });
    a.mark_refreshed();
    assert_eq!(a.message, "Refreshed");
    let ctrl_d = KeyEvent::new(KeyCode::Char('d'), KeyModifiers::control());
    assert_eq!(a.handle_key(ctrl_d), KeyAction::Nothing);
    assert!(a.dry_run);
}

#[test]
fn setup_selection_moves_within_rows() {
    let mut a = App::new(&cli(Some("horto")), "0.2.0", &pipeline());
    a.handle_key(key(KeyCode::Up));
    assert_eq!(a.selected, Some(0));
    a.handle_key(key(KeyCode::Char('j')));
    a.handle_key(key(KeyCode::Down));
    a.handle_key(key(KeyCode::Down));
    assert_eq!(a.selected, Some(2));
    assert_eq!(a.selected_step_id().as_deref(), Some("s2"));
    assert_eq!(a.handle_key(key(KeyCode::Enter)), KeyAction::RunSelected);
    a.dry_run = true;
    assert_eq!(a.handle_key(key(KeyCode::Enter)), KeyAction::RunSelected);
}

#[test]
fn destructive_step_asks_then_runs() {
    let mut a = App::new(&cli(None), "0.2.0", &pipeline());
    assert!(!a.confirm_or_run("s2", true));
    assert_eq!(a.confirm_destructive.as_deref(), Some("s2"));
    assert_eq!(a.message, "Step s2 is destructive. Enter/y confirm, Esc/n cancel.");
    assert_eq!(a.footer_hints(), "Enter/y confirm · Esc/n cancel · Ctrl+C quit");
    assert_eq!(a.confirm_dialog(), Some(("Destructive step".into(), "Run destructive step s2?".into())));
    assert_eq!(a.handle_key(key(KeyCode::Char('y'))), KeyAction::RunSelected);
    assert!(a.confirm_or_run("s2", true));
    assert_eq!(a.confirm_destructive, None);
    assert!(!a.confirm_or_run("s2", true));
    assert_eq!(a.handle_key(key(KeyCode::Char('n'))), KeyAction::Nothing);
    assert_eq!(a.message, "Cancelled");
    assert_eq!(a.confirm_destructive, None);
    assert!(a.confirm_or_run("s1", false));
}

#[test]
fn run_selected_gates() {
    let mut a = App::new(&cli(Some("horto")), "0.2.0", &pipeline());
    assert_eq!(a.run_selected_gate(), SelectedGate::SyncCli);
    a.selected = Some(1);
    assert_eq!(a.run_selected_gate(), SelectedGate::Stop);
    assert_eq!(a.message, "Press r to probe box CLI (or run s0 to sync)");
    a.box_cli = BoxCliView::Known(RemoteBoxCliStatus::AuthFailed);
    a.run_selected_gate();
    assert_eq!(a.message, "SSH auth failed: install key (--install-ssh-key) or run s0 after login");
    a.cli_current = true;
    assert_eq!(a.run_selected_gate(), SelectedGate::Check("s1".into()));
    a.selected = Some(9);
    assert_eq!(a.run_selected_gate(), SelectedGate::Stop);
}

#[test]
fn remote_step_and_pipeline_plans() {
    let mut a = App::new(&cli(Some("horto")), "0.2.0", &pipeline());
    assert_eq!(a.begin_run_all("t"), RunPlan::Blocked);
    assert_eq!(a.message, "Press r to probe box CLI (or run s0 to sync)");
    a.cli_current = true;
    a.dry_run = true;
    a.skip_piper = true;
    match a.begin_step("t", "s1") {
        RunPlan::Remote(p) => {
            assert_eq!(p.cli_args, vec!["--dry-run", "--skip-piper", "setup", "step", "s1", "--full"]);
            assert!(!p.use_sudo && !p.install_payload_on_success && !p.offer_reboot_on_success);
        }
        other => panic!("unexpected {other:?}"),
    }
    assert_eq!(a.logs.last().unwrap(), "t Running step s1 (dry_run=true)");
    a.dry_run = false;
    a.skip_piper = false;
    a.kind = SetupKind::Minimal;
    match a.begin_run_all("t") {
        RunPlan::Remote(p) => {
            assert_eq!(p.cli_args, vec!["setup", "run", "--minimal"]);
            assert!(p.use_sudo && p.install_payload_on_success && p.offer_reboot_on_success);
        }
        other => panic!("unexpected {other:?}"),
    }
    assert_eq!(a.logs.last().unwrap(), "t Running all pipeline steps (dry_run=false)");
    let mut l = App::new(&cli(None), "0.2.0", &pipeline());
    assert_eq!(l.begin_step("t", "s1"), RunPlan::Local);
    assert_eq!(l.begin_run_all("t"), RunPlan::Local);
}

#[test]
fn remote_outcomes_and_token() {
    let mut a = App::new(&cli(Some("horto")), "0.2.0", &pipeline());
    let out = RemoteOutcome { log: "one\r\ntwo\n".into(), api_token: Some("tok".into()) };
    a.apply_remote_outcome("t", Ok(out), false);
    assert_eq!(a.pending_token.as_deref(), Some("tok"));
    assert_eq!(a.confirm_destructive, None);
    assert_eq!(a.logs, vec!["t one", "t two"]);
    assert_eq!(a.message, "Save status-api bearer locally? Enter/y save, Esc/n skip.");
    assert_eq!(a.footer_hints(), "Enter/y save · Esc/n skip · Ctrl+C quit");
    assert_eq!(
        a.confirm_dialog(),
        Some(("Status API token".into(), "Save status-api bearer to ~/.config/horto-os-ui/api_token?".into()))
    );
    assert_eq!(a.handle_key(key(KeyCode::Char('x'))), KeyAction::Nothing);
    assert_eq!(a.handle_key(key(KeyCode::Char('y'))), KeyAction::SaveToken);
    assert_eq!(a.handle_key(key(KeyCode::Esc)), KeyAction::SkipToken);
    assert_eq!(a.pending_token.as_deref(), Some("tok"));
    a.apply_token_save("t", Ok(true));
    assert_eq!(a.pending_token, None);
    assert_eq!(a.message, "Remote finished; API token saved");
    assert_eq!(a.confirm_dialog(), None);
    a.apply_token_save("t", Err("denied".into()));
    assert_eq!(a.message, "Remote finished; token save failed");
    assert_eq!(a.logs.last().unwrap(), "t Token save failed: denied");
    a.apply_token_save("t", Ok(false));
    assert_eq!(a.message, "Remote command finished");
    assert_eq!(a.logs.last().unwrap(), "t Skipped saving status-api bearer locally");
    a.apply_remote_outcome("t", Err("ssh".into()), true);
    assert_eq!(a.message, "Remote failed: ssh");
    assert_eq!(a.confirm_destructive, None);
    let out = RemoteOutcome { log: "".into(), api_token: None };
    a.apply_remote_outcome("t", Ok(out), false);
    assert_eq!(a.pending_token, None);
    assert_eq!(a.message, "Remote command finished");
}

#[test]
fn remote_probe_then_snapshot() {
    let mut a = App::new(&cli(Some("horto")), "0.2.0", &pipeline());
    assert!(a.begin_remote_probe().is_some());
    assert_eq!(a.message, "Probing horto…");
    assert!(a.apply_remote_probe("t", Ok(report(true)), &pipeline()));
    assert_eq!(a.logs.last().unwrap(), "t probe ssh=ok cli=0.2.0 api=up");
    assert!(a.cli_current);
    let snap = RemoteSnapshot {
        setup: Some(vec![
            SetupStepRow { id: "s1".into(), status: "done".into(), title: "Hostname".into(), destructive: false },
            SetupStepRow { id: "s2".into(), status: "pending".into(), title: "Netplan".into(), destructive: true },
        ]),
        doctor: Some(Doctor {
            is_root: true,
            has_sudo: true,
            docker_present: false,
            full_env: true,
            minimal_env: false,
            notes: vec![],
        }),
    };
    a.apply_remote_snapshot("t", Ok(snap), &pipeline());
    assert_eq!(
        a.status_lines,
        vec!["s0 | done | Sync CLI to box", "s1 | done | Hostname", "s2 | pending | Netplan *"]
    );
    assert_eq!(a.selected, Some(2));
    assert_eq!(a.logs.last().unwrap(), "t setup steps=2");
    assert_eq!(
        a.overview_extra,
        "doctor: root=true sudo=true docker=false full_env=true minimal_env=false\n"
    );
    assert_eq!(a.message, "Probed horto");
    assert_eq!(line_tone(&a.status_lines[1]), LineTone::Done);
    assert_eq!(line_tone(&a.status_lines[2]), LineTone::Plain);
    assert_eq!(line_tone("s3 | failed | x"), LineTone::Failed);
    assert_eq!(line_tone("s3 | stale | x"), LineTone::Stale);
}

#[test]
fn remote_probe_failures() {
    let mut a = App::new(&cli(Some("horto")), "0.2.0", &pipeline());
    assert!(!a.apply_remote_probe("t", Err("timeout".into()), &pipeline()));
    assert_eq!(a.box_cli, BoxCliView::Known(RemoteBoxCliStatus::Unreachable));
    assert_eq!(a.message, "Probe failed: timeout");
    assert_eq!(a.status_lines[0], "s0 | blocked | Sync CLI to box");
    assert!(!a.apply_remote_probe("t", Ok(report(false)), &pipeline()));
    assert_eq!(a.status_lines[0], "s0 | needed | Sync CLI to box");
    assert_eq!(a.selected, Some(0));
    assert_eq!(a.message, "Probed horto");
    a.apply_remote_snapshot("t", Err("boom".into()), &pipeline());
    assert_eq!(a.logs.last().unwrap(), "t ERROR setup status: boom");
    assert_eq!(a.run_selected_gate(), SelectedGate::SyncCli);
}

#[test]
fn s0_sync_flow() {
    let mut a = App::new(&cli(Some("horto")), "0.2.0", &pipeline());
    assert!(a.begin_s0_sync("t").is_some());
    assert_eq!(a.logs.last().unwrap(), "t s0: syncing CLI to box…");
    let still = CliProbe { status: RemoteBoxCliStatus::AuthFailed, current: false };
    assert!(!a.apply_s0_result("t", Ok(still), &pipeline()));
    assert_eq!(a.message, "s0 finished but box still auth failed; check SSH/auth");
    let done = CliProbe { status: RemoteBoxCliStatus::Found("0.2.0".into()), current: true };
    assert!(a.apply_s0_result("t", Ok(done), &pipeline()));
    a.finish_s0_sync();
    assert_eq!(a.message, "s0 done; CLI synced");
    assert!(!a.apply_s0_result("t", Err("scp".into()), &pipeline()));
    assert_eq!(a.message, "s0 failed: scp");
}

#[test]
fn reboot_and_surface_flows() {
    let mut a = App::new(&cli(Some("horto")), "0.2.0", &pipeline());
    assert!(!a.reboot_gate("t"));
    assert_eq!(a.message, "Reboot box? Enter/y confirm, Esc/n cancel.");
    assert_eq!(a.confirm_dialog(), Some(("Reboot".into(), "Reboot box 'horto' via SSH + sudo?".into())));
    assert_eq!(a.handle_key(key(KeyCode::Enter)), KeyAction::Reboot);
    assert!(a.reboot_gate("t"));
    assert_eq!(a.confirm_destructive, None);
    assert_eq!(a.logs.last().unwrap(), "t reboot: sudo reboot on box…");
    a.apply_reboot_result("t", Err("sudo".into()));
    assert_eq!(a.message, "Reboot failed: sudo");
    a.apply_reboot_result("t", Ok(()));
    assert_eq!(a.message, "Reboot issued");
    a.select_screen(Screen::Ssh);
    assert_eq!(a.surface_enter(), SurfaceStep::Nothing);
    assert_eq!(a.handle_key(key(KeyCode::Char('i'))), KeyAction::InstallKey);
    assert!(a.begin_key_install("t").is_none());
    assert_eq!(a.message, "Start with --install-ssh-key to enable key install");
    a.install_ssh_key = true;
    let n = a.logs.len();
    assert_eq!(a.begin_key_install("t").unwrap().host, "horto");
    assert_eq!(a.logs.len(), n + 1);
    assert_eq!(a.logs.last().unwrap(), "t SSH: installing key…");
    assert!(!a.apply_ssh_key_result("t", Err("denied".into())));
    assert_eq!(a.message, "SSH key failed: denied");
    assert!(a.apply_ssh_key_result("t", Ok(())));
    a.select_screen(Screen::Cli);
    assert_eq!(a.surface_enter(), SurfaceStep::SyncCli);
    a.select_screen(Screen::Api);
    assert_eq!(a.surface_enter(), SurfaceStep::Refresh);
    a.select_screen(Screen::Reboot);
    assert_eq!(a.surface_enter(), SurfaceStep::Reboot);
    assert_eq!(panel_title(Screen::Reboot), "Reboot");
}

#[test]
fn pipeline_kind_switch() {
    let mut a = App::new(&cli(Some("horto")), "0.2.0", &pipeline());
    assert!(!a.set_pipeline_kind(SetupKind::Minimal, &pipeline()));
    assert_eq!(a.message, "pipeline=minimal (press r for status)");
    assert_eq!(a.kind, SetupKind::Minimal);
    let mut l = App::new(&cli(None), "0.2.0", &pipeline());
    assert!(l.set_pipeline_kind(SetupKind::Full, &pipeline()));
    assert_eq!(l.message, "pipeline=full");
}

#[test]
fn remote_target_trims_release_tag() {
    let mut c = cli(Some("horto"));
    c.release_tag = Some("  dev-preview ".into());
    c.bin_dir = Some("bins".into());
    let a = App::new(&c, "0.2.0", &pipeline());
    let t = a.remote_target().unwrap();
    assert_eq!(t.host, "horto");
    assert_eq!(t.release_tag.as_deref(), Some("dev-preview"));
    assert_eq!(t.bin_dir.as_deref(), Some("bins"));
    let mut c2 = cli(Some("horto"));
    c2.release_tag = Some("   ".into());
    assert_eq!(App::new(&c2, "0.2.0", &pipeline()).remote_target().unwrap().release_tag, None);
    assert!(App::new(&cli(None), "0.2.0", &pipeline()).remote_target().is_none());
}

#[test]
fn local_work_and_disk_probe() {
    let mut a = App::new(&cli(None), "0.2.0", &pipeline());
    a.apply_step_result("t", "s1", &vec!["did it".into()], Ok(()));
    assert_eq!(a.message, "Step s1 finished");
    assert_eq!(a.logs.last().unwrap(), "t did it");
    a.apply_step_result("t", "s1", &vec!["ignored".into()], Err("no root".into()));
    assert_eq!(a.message, "Step s1 failed: no root");
    assert_eq!(a.logs.last().unwrap(), "t ERROR: no root");
    a.apply_pipeline_result("t", &vec![], Ok(()));
    assert_eq!(a.message, "Pipeline finished");
    a.begin_backup_etc("t");
    assert_eq!(a.logs.last().unwrap(), "t Timestamped /etc backup (dry_run=false)");
    a.apply_backup_result("t", &vec![], Ok("/var/backups/etc-1".into()));
    assert_eq!(a.message, "Backup etc -> /var/backups/etc-1");
    a.apply_backup_result("t", &vec![], Err("not root".into()));
    assert_eq!(a.message, "Backup etc failed: not root");
    let probe = DiskProbe {
        root_source: "/dev/mmcblk0p2".into(),
        safe_to_apply: false,
        partclone_present: true,
        blockers: vec!["root on eMMC".into()],
    };
    a.apply_disk_probe("t", &probe);
    assert_eq!(a.screen, Screen::Logs);
    assert_eq!(a.logs[a.logs.len() - 2], "t disk backup: root=/dev/mmcblk0p2 safe=false partclone=true");
    assert_eq!(a.logs[a.logs.len() - 1], "t blocker: root on eMMC");
    assert_eq!(a.message, "Disk backup blocked (1). See Logs. Boot from SD for eMMC image.");
    a.apply_local_probe("t", Err("no ssh".into()));
    assert_eq!(a.logs.last().unwrap(), "t ERROR local probe: no ssh");
    a.apply_local_probe("t", Ok(report(true)));
    assert!(a.surfaces.is_some());
}

#[test]
fn local_overview_text() {
    let mut a = App::new(&cli(None), "0.2.0", &pipeline());
    let status = BoxStatus {
        hostname: "horto".into(),
        doctor: Doctor {
            is_root: true,
            has_sudo: true,
            docker_present: true,
            full_env: false,
            minimal_env: true,
            notes: vec!["no swap".into()],
        },
        containers: vec![Container { names: "dockge".into(), status: "Up 2h".into() }],
        urls: vec![UrlCheck { name: "Dockge".into(), up: false, url: "http://horto:5001".into() }],
        leases: (0..13).map(|i| Lease { hostname: format!("h{i}"), ip: format!("10.0.0.{i}") }).collect(),
        backup: BackupStatus {
            initial_setup_present: true,
            timestamped: (1..=6).map(|i| format!("b{i}")).collect(),
            disk: DiskProbe {
                root_source: "/dev/sda2".into(),
                safe_to_apply: true,
                partclone_present: false,
                blockers: vec![],
            },
        },
    };
    let rows = vec![SetupStepRow { id: "s1".into(), status: "done".into(), title: "Hostname".into(), destructive: false }];
    a.apply_local_status(&rows, &status);
    assert_eq!(a.status_lines, vec!["s1 | done | Hostname"]);
    let mut expect = String::from(
        "Mode: embedded\nHostname: horto\nRoot: true  Docker: true  Full env: false  Minimal env: true\n- no swap\n\nContainers:\n  dockge Up 2h\n\nURLs:\n  Dockge [down]: http://horto:5001\n\nLeases: 13\n",
    );
    for i in 0..12 {
        expect.push_str(&format!("  h{i} 10.0.0.{i}\n"));
    }
    expect.push_str("\nBackup:\n  initial_setup: true\n  timestamped (6): b6, b5, b4, b3, b2\n  disk root=/dev/sda2 safe=true blockers=0\n");
    assert_eq!(a.overview_text, expect);
    a.select_screen(Screen::Overview);
    assert_eq!(a.panel_body(), expect);
    assert!(help_text().starts_with("Horto TUI help\n\nq / Esc / Ctrl+C   Quit (while typing Host, only Ctrl+C)\n"));
    assert!(help_text().contains("e / i              SSH: edit Host / install key (--install-ssh-key)\n"));
}

#[test]
fn fresh_pipeline_selects_first_step_when_current() {
    let mut a = App::new(&cli(Some("horto")), "0.2.0", &pipeline());
    assert!(a.apply_remote_probe("t", Ok(report(true)), &pipeline()));
    let snap = RemoteSnapshot { setup: None, doctor: None };
    a.apply_remote_snapshot("t", Ok(snap), &pipeline());
    assert_eq!(a.status_lines[0], "s0 | done | Sync CLI to box");
    assert_eq!(a.selected, Some(1));
    assert_eq!(a.selected_step_id().as_deref(), Some("s1"));
    assert_eq!(a.logs.last().unwrap(), "t setup steps=0");
}

#[test]
fn enter_on_reboot_tab_stays_in_ui() {
    let mut a = App::new(&cli(Some("horto")), "0.2.0", &pipeline());
    a.select_screen(Screen::Reboot);
    assert_eq!(a.handle_key(key(KeyCode::Enter)), KeyAction::Reboot);
    a.select_screen(Screen::Logs);
    assert_eq!(a.handle_key(key(KeyCode::Enter)), KeyAction::Nothing);
    assert_eq!(a.footer_hints(), "c clear · Tab screens · r probe · B disk · ? help · q quit");
    a.push_log("t", "x");
    a.handle_key(key(KeyCode::Char('c')));
    assert!(a.logs.is_empty());
}

#[test]
fn pipeline_run_arms_reboot_question_after_token() {
    let mut a = App::new(&cli(Some("horto")), "0.2.0", &pipeline());
    let out = RemoteOutcome { log: "done".into(), api_token: Some("tok".into()) };
    a.apply_remote_outcome("t", Ok(out), true);
    assert_eq!(a.confirm_destructive.as_deref(), Some("reboot"));
    assert_eq!(a.handle_key(key(KeyCode::Enter)), KeyAction::SaveToken);
    a.apply_token_save("t", Ok(false));
    assert_eq!(a.confirm_dialog().unwrap().0, "Reboot");
    assert_eq!(a.handle_key(key(KeyCode::Char('y'))), KeyAction::Reboot);
    assert!(a.reboot_gate("t"));
    let out = RemoteOutcome { log: "".into(), api_token: None };
    a.apply_remote_outcome("t", Ok(out), true);
    assert_eq!(a.message, "Remote finished. Reboot box? Enter/y confirm, Esc/n cancel.");
    assert_eq!(a.handle_key(key(KeyCode::Char('n'))), KeyAction::Nothing);
    assert_eq!(a.confirm_destructive, None);
}

#[test]
fn ssh_tab_edits_host_in_ui() {
    let mut a = App::new(&cli(Some("horto")), "0.2.0", &pipeline());
    a.select_screen(Screen::Ssh);
    assert_eq!(a.handle_key(key(KeyCode::Enter)), KeyAction::Nothing);
    let t = a.host_input.as_ref().unwrap();
    assert_eq!(t.title(), "OpenSSH Host");
    assert_eq!(t.buffer(), "horto");
    assert_eq!(a.message, "Edit OpenSSH Host: Enter submit · Esc cancel");
    assert_eq!(a.footer_hints(), "Enter submit · Esc cancel · Ctrl+C quit");
    // q, Q and Esc-free typing go to the dialog, not to the quit keys.
    assert_eq!(a.handle_key(key(KeyCode::Char('q'))), KeyAction::Nothing);
    assert_eq!(a.handle_key(key(KeyCode::Char('?'))), KeyAction::Nothing);
    assert!(!a.help_open);
    assert_eq!(a.host_input.as_ref().unwrap().buffer(), "hortoq?");
    a.handle_key(key(KeyCode::Backspace));
    a.handle_key(key(KeyCode::Backspace));
    for c in "-box ".chars() {
        a.handle_key(key(KeyCode::Char(c)));
    }
    let ctrl_x = KeyEvent::new(KeyCode::Char('x'), KeyModifiers::control());
    assert_eq!(a.handle_key(ctrl_x), KeyAction::Nothing);
    assert_eq!(a.host_input.as_ref().unwrap().buffer(), "horto-box ");
    assert_eq!(a.screen, Screen::Ssh);
    assert_eq!(a.handle_key(key(KeyCode::Enter)), KeyAction::Refresh { announce: false });
    assert!(a.host_input.is_none());
    assert_eq!(a.remote.as_deref(), Some("horto-box"));
    assert_eq!(a.message, "Host set to horto-box");
    assert_eq!(a.box_cli, BoxCliView::NotProbed);
    assert!(a.panel_text.starts_with("Host: horto-box\n"));
    assert_eq!(a.remote_target().unwrap().host, "horto-box");
    // Esc cancels, a blank text leaves the host as it was.
    assert_eq!(a.handle_key(key(KeyCode::Char('e'))), KeyAction::Nothing);
    assert_eq!(a.handle_key(key(KeyCode::Esc)), KeyAction::Nothing);
    assert_eq!(a.message, "Cancelled");
    assert!(a.host_input.is_none());
    a.handle_key(key(KeyCode::Char('e')));
    for _ in 0..9 {
        a.handle_key(key(KeyCode::Backspace));
    }
    a.handle_key(key(KeyCode::Char(' ')));
    assert_eq!(a.handle_key(key(KeyCode::Enter)), KeyAction::Nothing);
    assert_eq!(a.message, "Host unchanged");
    assert_eq!(a.remote.as_deref(), Some("horto-box"));
    // Only Ctrl+C quits while typing.
    a.handle_key(key(KeyCode::Char('e')));
    let ctrl_c = KeyEvent::new(KeyCode::Char('c'), KeyModifiers::control());
    assert_eq!(a.handle_key(ctrl_c), KeyAction::Quit);
}

#[test]
fn host_editing_needs_remote() {
    let mut a = App::new(&cli(None), "0.2.0", &pipeline());
    a.select_screen(Screen::Ssh);
    assert_eq!(a.handle_key(key(KeyCode::Char('e'))), KeyAction::Nothing);
    assert!(a.host_input.is_none());
    assert_eq!(a.message, "Host editing needs --remote");
    assert_eq!(a.handle_key(key(KeyCode::Char('i'))), KeyAction::InstallKey);
    a.install_ssh_key = true;
    assert!(a.begin_key_install("t").is_none());
    assert!(a.logs.is_empty());
    a.select_screen(Screen::Setup);
    assert_eq!(a.handle_key(key(KeyCode::Char('e'))), KeyAction::Nothing);
    assert_eq!(a.handle_key(key(KeyCode::Char('i'))), KeyAction::Nothing);
}

#[test]
fn destructive_flag_by_step_id() {
    let rows = vec![
        SetupStepRow { id: "s1".into(), status: "done".into(), title: "A".into(), destructive: false },
        SetupStepRow { id: "s2".into(), status: "pending".into(), title: "B".into(), destructive: true },
        SetupStepRow { id: "s2".into(), status: "pending".into(), title: "C".into(), destructive: false },
    ];
    assert_eq!(step_destructive(&rows, "s1"), Some(false));
    assert_eq!(step_destructive(&rows, "s2"), Some(true));
    assert_eq!(step_destructive(&rows, "s9"), None);
    assert_eq!(step_destructive(&vec![], "s1"), None);
}
