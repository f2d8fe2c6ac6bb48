use horto_os_ui_tui::probe::{
    ApiProbe, CliProbe, McpBoxProbe, McpPcProbe, RemoteBoxCliStatus, SshProbe, SurfaceProbeReport,
};
use horto_os_ui_tui::prompt::{
    confirm_key, confirm_text, ConfirmResult, KeyCode, KeyEvent, KeyModifiers, TextInput,
    TextInputResult,
};
use horto_os_ui_tui::tabs::{
    panel_api, panel_cli, panel_mcp, panel_overview_remote, panel_reboot, panel_ssh, Screen,
};

fn report() -> SurfaceProbeReport {
    SurfaceProbeReport {
        local_version: "0.2.0 (abc)".into(),
        ssh: SshProbe { status: "ok".into(), key_ok: "true".into() },
        cli: CliProbe { status: RemoteBoxCliStatus::Found("0.2.0 (abc)".into()), current: true },
        api: ApiProbe {
            url: "http://horto:8787".into(),
            health: "up".into(),
            status: "200".into(),
            local_token: "present".into(),
            unit: "".into(),
        },
        mcp_pc: McpPcProbe { binary: None, api_health: "down".into() },
        mcp_box: McpBoxProbe {
            url: "http://horto:8790".into(),
            reachability: "open".into(),
            unit: "active".into(),
        },
    }
}

#[test]
fn local_tabs_have_no_reboot() {
    assert_eq!(
        Screen::titles(false),
        vec!["1 Setup", "2 Overview", "3 SSH", "4 CLI", "5 API", "6 MCP", "7 Logs"]
    );
    assert_eq!(Screen::all(false).len(), 7);
    assert!(!Screen::all(false).contains(&Screen::Reboot));
    assert_eq!(Screen::all(true)[6], Screen::Reboot);
    assert_eq!(Screen::Reboot.index(false), 0);
    assert_eq!(Screen::Logs.index(false), 6);
    assert_eq!(Screen::Logs.index(true), 7);
}

#[test]
fn digits_out_of_range_jump_nowhere() {
    assert_eq!(Screen::from_digit('0', true), None);
    assert_eq!(Screen::from_digit('9', true), None);
    assert_eq!(Screen::from_digit('8', false), None);
    assert_eq!(Screen::from_digit('x', false), None);
    assert_eq!(Screen::from_digit('1', false), Some(Screen::Setup));
}

#[test]
fn next_and_prev_wrap_and_undo_each_other() {
    assert_eq!(Screen::Logs.next(false), Screen::Setup);
    assert_eq!(Screen::Setup.prev(false), Screen::Logs);
    assert_eq!(Screen::Mcp.next(false), Screen::Logs);
    assert_eq!(Screen::Mcp.next(true), Screen::Reboot);
    for remote in [false, true] {
        for s in Screen::all(remote) {
            assert_eq!(s.next(remote).prev(remote), s);
            assert_eq!(s.prev(remote).next(remote), s);
            let d = char::from_digit(s.index(remote) as u32 + 1, 10).unwrap();
            assert_eq!(Screen::from_digit(d, remote), Some(s));
        }
    }
}

#[test]
fn titles_start_with_their_tab_digit() {
    for remote in [false, true] {
        let t = Screen::titles(remote);
        assert_eq!(t.len(), Screen::all(remote).len());
        for (i, title) in t.iter().enumerate() {
            assert!(title.starts_with(&(i + 1).to_string()));
        }
    }
}

#[test]
fn panel_texts_exact() {
    let r = report();
    assert_eq!(panel_ssh(false, "horto", None), "Mode: embedded (on box)\nSSH: n/a\n");
    assert_eq!(
        panel_ssh(true, "horto", Some(&r)),
        "Host: horto\nStatus: ok\nKey BatchMode: true\nEnter/e: edit Host · i: install key (with --install-ssh-key)\n"
    );
    assert_eq!(panel_cli("0.2.0", false, None), "local=0.2.0\nbox=local (embedded)\n");
    assert_eq!(
        panel_cli("0.2.0", true, Some(&r)),
        "local=0.2.0\nbox=0.2.0 (abc)\ncurrent=true\nEnter: sync CLI to box (s0)\n"
    );
    assert_eq!(panel_api(None), "Status API\nPress r to probe.\n");
    assert_eq!(
        panel_api(Some(&r)),
        "URL: http://horto:8787\nhealth=up\n/v1/status=200\nlocal_token_file=present\nunit=-\nEnter: re-probe\n"
    );
    assert_eq!(panel_mcp(None), "MCP\nPress r to probe.\n");
    assert_eq!(
        panel_mcp(Some(&r)),
        "PC (stdio)\n  binary=missing\n  api_health=down\n\nBox (:8790)\n  url=http://horto:8790\n  reach=open\n  unit=active\nEnter: re-probe\n"
    );
    assert_eq!(
        panel_reboot("horto"),
        "Reboot box 'horto' via SSH + sudo.\nEnter: confirm reboot (sudo password via SSH_ASKPASS).\n"
    );
    assert_eq!(
        panel_overview_remote("horto", Some(&r), "doctor: x\n"),
        "Mode: remote (horto)\nlocal=0.2.0 (abc)  box=0.2.0 (abc)\nssh=ok  api.health=up\nmcp_box=open\n\ndoctor: x\n"
    );
    assert_eq!(panel_overview_remote("horto", None, ""), "Mode: remote (horto)\nNo status yet.\n");
}

#[test]
fn box_cli_labels() {
    assert_eq!(RemoteBoxCliStatus::Found("1.0".into()).as_label(), "1.0");
    assert_eq!(RemoteBoxCliStatus::Missing.as_label(), "missing");
    assert_eq!(horto_os_ui_tui::probe::BoxCliView::NotProbed.as_label(), "…");
}

#[test]
fn confirm_keys_cover_enter_and_capitals() {
    let k = |c| KeyEvent::new(c, KeyModifiers::none());
    assert_eq!(confirm_key(k(KeyCode::Enter)), ConfirmResult::Yes);
    assert_eq!(confirm_key(k(KeyCode::Char('Y'))), ConfirmResult::Yes);
    assert_eq!(confirm_key(k(KeyCode::Char('N'))), ConfirmResult::No);
    assert_eq!(confirm_key(k(KeyCode::Char('n'))), ConfirmResult::No);
    assert_eq!(confirm_key(k(KeyCode::Char('x'))), ConfirmResult::Ignore);
    assert_eq!(confirm_key(k(KeyCode::Tab)), ConfirmResult::Ignore);
    assert_eq!(confirm_text("Reboot?"), "Reboot?\n\nEnter/y confirm · Esc/n cancel");
}

#[test]
fn text_input_edges() {
    let k = |c| KeyEvent::new(c, KeyModifiers::none());
    let mut t = TextInput::new("Host", "");
    assert_eq!(t.handle_key(k(KeyCode::Backspace)), TextInputResult::Continue);
    assert_eq!(t.buffer(), "");
    assert_eq!(t.handle_key(k(KeyCode::Char('\u{7}'))), TextInputResult::Continue);
    assert_eq!(t.handle_key(k(KeyCode::Char('\u{85}'))), TextInputResult::Continue);
    assert_eq!(t.buffer(), "");
    t.handle_key(k(KeyCode::Char('é')));
    t.handle_key(k(KeyCode::Char('x')));
    assert_eq!(t.buffer(), "éx");
    t.handle_key(k(KeyCode::Left));
    assert_eq!(t.buffer(), "éx");
    t.handle_key(k(KeyCode::Backspace));
    t.handle_key(k(KeyCode::Backspace));
    assert_eq!(t.buffer(), "");
    assert_eq!(t.title(), "Host");
    let mut u = TextInput::new("Host", "box");
    assert_eq!(
        u.handle_key(KeyEvent::new(KeyCode::Enter, KeyModifiers::control())),
        TextInputResult::Continue
    );
    assert_eq!(u.dialog_text(), "box\n\nEnter submit · Esc cancel");
}

#[test]
fn typing_then_backspace_restores() {
    let mut t = TextInput::new("Host", "ab");
    t.handle_key(KeyEvent::new(KeyCode::Char('z'), KeyModifiers::none()));
    t.handle_key(KeyEvent::new(KeyCode::Backspace, KeyModifiers::none()));
    assert_eq!(t.buffer(), "ab");
}
