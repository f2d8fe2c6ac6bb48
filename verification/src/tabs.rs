//! TUI tab order and the navigation between tabs.

use vstd::prelude::*;

use crate::probe::{cli_status_label, probe_of, SurfaceProbeReport};

verus! {

/// Visible TUI screens (Reboot only when remote).
#[derive(Debug, Clone, Copy, PartialEq, Eq, Structural)]
pub enum Screen {
    Setup,
    Overview,
    Ssh,
    Cli,
    Api,
    Mcp,
    Reboot,
    Logs,
}

/// The tab order for a mode: Reboot only appears when remote, Logs is last.
pub open spec fn screens(remote: bool) -> Seq<Screen> {
    if remote {
        seq![
            Screen::Setup,
            Screen::Overview,
            Screen::Ssh,
            Screen::Cli,
            Screen::Api,
            Screen::Mcp,
            Screen::Reboot,
            Screen::Logs,
        ]
    } else {
        seq![
            Screen::Setup,
            Screen::Overview,
            Screen::Ssh,
            Screen::Cli,
            Screen::Api,
            Screen::Mcp,
            Screen::Logs,
        ]
    }
}

/// The tab titles for a mode, in tab order.
pub open spec fn titles_spec(remote: bool) -> Seq<Seq<char>> {
    if remote {
        seq![
            "1 Setup"@,
            "2 Overview"@,
            "3 SSH"@,
            "4 CLI"@,
            "5 API"@,
            "6 MCP"@,
            "7 Reboot"@,
            "8 Logs"@,
        ]
    } else {
        seq![
            "1 Setup"@,
            "2 Overview"@,
            "3 SSH"@,
            "4 CLI"@,
            "5 API"@,
            "6 MCP"@,
            "7 Logs"@,
        ]
    }
}

/// Position of a screen in the tab order; a screen that the mode does not
/// show (Reboot when local) falls back to the first tab.
pub open spec fn index_spec(s: Screen, remote: bool) -> int {
    match s {
        Screen::Setup => 0,
        Screen::Overview => 1,
        Screen::Ssh => 2,
        Screen::Cli => 3,
        Screen::Api => 4,
        Screen::Mcp => 5,
        Screen::Reboot => if remote { 6 } else { 0 },
        Screen::Logs => if remote { 7 } else { 6 },
    }
}

/// The screen after `s`, wrapping from the last tab to the first.
pub open spec fn next_spec(s: Screen, remote: bool) -> Screen {
    screens(remote)[(index_spec(s, remote) + 1) % screens(remote).len() as int]
}

/// The screen before `s`, wrapping from the first tab to the last.
pub open spec fn prev_spec(s: Screen, remote: bool) -> Screen {
    let n = screens(remote).len() as int;
    screens(remote)[(index_spec(s, remote) + n - 1) % n]
}

/// Value of a decimal digit character, as `char::to_digit(10)` gives it.
pub open spec fn digit_value(d: char) -> Option<nat> {
    if '0' <= d && d <= '9' {
        Some((d as nat - '0' as nat) as nat)
    } else {
        None
    }
}

/// The screen that the digit key `d` jumps to: `1` is the first tab.
pub open spec fn from_digit_spec(d: char, remote: bool) -> Option<Screen> {
    match digit_value(d) {
        None => None,
        Some(n) => if 1 <= n <= screens(remote).len() {
            Some(screens(remote)[n - 1])
        } else {
            None
        },
    }
}

impl Screen {
    /// Tab titles for the current mode (digits match order).
    pub fn titles(remote: bool) -> (t: Vec<&'static str>)
        ensures
            t@.map_values(|x: &str| x@) == titles_spec(remote),
    {
        let t = if remote {
            vec![
                "1 Setup",
                "2 Overview",
                "3 SSH",
                "4 CLI",
                "5 API",
                "6 MCP",
                "7 Reboot",
                "8 Logs",
            ]
        } else {
            vec!["1 Setup", "2 Overview", "3 SSH", "4 CLI", "5 API", "6 MCP", "7 Logs"]
        };
        assert(t@.map_values(|x: &str| x@) =~= titles_spec(remote));
        t
    }

    /// All screens of the mode, in tab order.
    pub fn all(remote: bool) -> (v: Vec<Self>)
        ensures
            v@ == screens(remote),
    {
        let v = if remote {
            vec![
                Self::Setup,
                Self::Overview,
                Self::Ssh,
                Self::Cli,
                Self::Api,
                Self::Mcp,
                Self::Reboot,
                Self::Logs,
            ]
        } else {
            vec![Self::Setup, Self::Overview, Self::Ssh, Self::Cli, Self::Api, Self::Mcp, Self::Logs]
        };
        assert(v@ =~= screens(remote));
        v
    }

    /// Position of this screen in the tab order (0 when the mode hides it).
    pub fn index(self, remote: bool) -> (i: usize)
        ensures
            i == index_spec(self, remote),
    {
        let all = Self::all(remote);
        let mut i: usize = 0;
        while i < all.len()
            invariant
                all@ == screens(remote),
                i <= all@.len(),
                forall|j: int| 0 <= j < i ==> all@[j] != self,
            decreases all@.len() - i,
        {
            if all[i] == self {
                return i;
            }
            i = i + 1;
        }
        assert(self == Screen::Reboot && !remote) by {
            if !(self == Screen::Reboot && !remote) {
                let k = index_spec(self, remote);
                assert(all@[k] == self);
            }
        }
        0
    }

    /// Screen for a digit key (`1` is the first tab); `None` for `0`, a
    /// non-digit, or a digit past the last tab.
    pub fn from_digit(d: char, remote: bool) -> (r: Option<Self>)
        ensures
            r == from_digit_spec(d, remote),
    {
        if !('0' <= d && d <= '9') {
            return None;
        }
        let n: usize = (d as u32 - '0' as u32) as usize;
        if n == 0 {
            return None;
        }
        let all = Self::all(remote);
        if n - 1 < all.len() {
            Some(all[n - 1])
        } else {
            None
        }
    }

    /// Next tab, wrapping around.
    pub fn next(self, remote: bool) -> (r: Self)
        ensures
            r == next_spec(self, remote),
    {
        let all = Self::all(remote);
        let i = self.index(remote);
        all[(i + 1) % all.len()]
    }

    /// Previous tab, wrapping around.
    pub fn prev(self, remote: bool) -> (r: Self)
        ensures
            r == prev_spec(self, remote),
    {
        let all = Self::all(remote);
        let i = self.index(remote);
        all[(i + all.len() - 1) % all.len()]
    }
}

/// The digit character for a tab number below ten.
pub open spec fn digit_char(n: nat) -> char {
    (n + '0' as nat) as char
}

/// Each screen that a mode shows sits at the position that `index` reports.
pub proof fn lemma_index_in_order(s: Screen, remote: bool)
    requires
        screens(remote).contains(s),
    ensures
        0 <= index_spec(s, remote) < screens(remote).len(),
        screens(remote)[index_spec(s, remote)] == s,
{
}

/// Tab order: the last tab is Logs, and Reboot is shown exactly in remote mode.
pub proof fn lemma_logs_last_reboot_remote_only(remote: bool)
    ensures
        screens(remote).last() == Screen::Logs,
        screens(remote).contains(Screen::Reboot) <==> remote,
        screens(remote).len() == if remote { 8nat } else { 7nat },
{
    if !remote {
        assert forall|i: int| 0 <= i < screens(remote).len() implies screens(remote)[i]
            != Screen::Reboot by {}
    } else {
        assert(screens(remote)[6] == Screen::Reboot);
    }
}

/// `prev` undoes `next` and `next` undoes `prev`, on every screen of the mode.
pub proof fn lemma_next_prev_inverse(s: Screen, remote: bool)
    requires
        screens(remote).contains(s),
    ensures
        prev_spec(next_spec(s, remote), remote) == s,
        next_spec(prev_spec(s, remote), remote) == s,
{
    lemma_index_in_order(s, remote);
    lemma_logs_last_reboot_remote_only(remote);
    let n = screens(remote).len() as int;
    let i = index_spec(s, remote);
    let nx = next_spec(s, remote);
    let pv = prev_spec(s, remote);
    assert(screens(remote).contains(nx)) by {
        assert(screens(remote)[(i + 1) % n] == nx);
    }
    assert(screens(remote).contains(pv)) by {
        assert(screens(remote)[(i + n - 1) % n] == pv);
    }
    lemma_index_in_order(nx, remote);
    lemma_index_in_order(pv, remote);
    assert(index_spec(nx, remote) == (i + 1) % n) by {
        if remote {
            match s {
                Screen::Setup => {},
                Screen::Overview => {},
                Screen::Ssh => {},
                Screen::Cli => {},
                Screen::Api => {},
                Screen::Mcp => {},
                Screen::Reboot => {},
                Screen::Logs => {},
            }
        } else {
            match s {
                Screen::Setup => {},
                Screen::Overview => {},
                Screen::Ssh => {},
                Screen::Cli => {},
                Screen::Api => {},
                Screen::Mcp => {},
                Screen::Reboot => {},
                Screen::Logs => {},
            }
        }
    }
    assert(index_spec(pv, remote) == (i + n - 1) % n) by {
        lemma_next_moves_one(s, remote);
    }
    assert(((i + 1) % n + n - 1) % n == i) by (nonlinear_arith)
        requires
            0 <= i < n,
    ;
    assert(((i + n - 1) % n + 1) % n == i) by (nonlinear_arith)
        requires
            0 <= i < n,
    ;
}

/// Tab navigation is a cycle: `next` moves one position forward and wraps.
pub proof fn lemma_next_moves_one(s: Screen, remote: bool)
    requires
        screens(remote).contains(s),
    ensures
        index_spec(next_spec(s, remote), remote) == (index_spec(s, remote) + 1)
            % screens(remote).len() as int,
        index_spec(prev_spec(s, remote), remote) == (index_spec(s, remote) + screens(
            remote,
        ).len() - 1) % screens(remote).len() as int,
{
    lemma_index_in_order(s, remote);
}

/// Digit keys match the tab order: the digit of a screen's tab number jumps to it.
pub proof fn lemma_digit_jumps_to_tab(s: Screen, remote: bool)
    requires
        screens(remote).contains(s),
    ensures
        from_digit_spec(digit_char((index_spec(s, remote) + 1) as nat), remote) == Some(s),
{
    lemma_index_in_order(s, remote);
}

/// The digit `0` and digits past the last tab jump nowhere.
pub proof fn lemma_digit_out_of_range(n: nat, remote: bool)
    requires
        n <= 9,
        n == 0 || n > screens(remote).len(),
    ensures
        from_digit_spec(digit_char(n), remote) is None,
{
}

/// Titles follow the tab order: title `i` begins with the digit `i + 1`, and
/// there is one title per screen.
pub proof fn lemma_titles_match_order(remote: bool)
    ensures
        titles_spec(remote).len() == screens(remote).len(),
        forall|i: int|
            0 <= i < titles_spec(remote).len() ==> (#[trigger] titles_spec(remote)[i]).len() > 0
                && titles_spec(remote)[i][0] == digit_char((i + 1) as nat),
{
    reveal_strlit("1 Setup");
    reveal_strlit("2 Overview");
    reveal_strlit("3 SSH");
    reveal_strlit("4 CLI");
    reveal_strlit("5 API");
    reveal_strlit("6 MCP");
    reveal_strlit("7 Reboot");
    reveal_strlit("7 Logs");
    reveal_strlit("8 Logs");
    assert forall|i: int|
        0 <= i < titles_spec(remote).len() implies (#[trigger] titles_spec(remote)[i]).len() > 0
        && titles_spec(remote)[i][0] == digit_char((i + 1) as nat) by {
        if i == 0 {} else if i == 1 {} else if i == 2 {} else if i == 3 {} else if i == 4 {
        } else if i == 5 {} else if i == 6 {} else {}
    }
}

/// Text of a `bool` as `Display` writes it.
pub open spec fn bool_text(b: bool) -> Seq<char> {
    if b {
        "true"@
    } else {
        "false"@
    }
}

/// `Display` text of a `bool`.
pub fn bool_str(b: bool) -> (r: &'static str)
    ensures
        r@ == bool_text(b),
{
    if b {
        "true"
    } else {
        "false"
    }
}

/// A unit name, or `-` when it is empty.
pub open spec fn unit_text(u: Seq<char>) -> Seq<char> {
    if u.len() == 0 {
        "-"@
    } else {
        u
    }
}

/// SSH panel text.
pub open spec fn panel_ssh_spec(remote: bool, host: Seq<char>, report: Option<SurfaceProbeReport>) -> Seq<
    char,
> {
    if !remote {
        "Mode: embedded (on box)\nSSH: n/a\n"@
    } else {
        match report {
            None => "Host: "@ + host + "\n"@ + "Status: ?\nPress r to probe.\n"@,
            Some(r) => "Host: "@ + host + "\n"@ + "Status: "@ + r.ssh.status@ + "\n"@
                + "Key BatchMode: "@ + r.ssh.key_ok@ + "\n"@
                + "Enter/e: edit Host · i: install key (with --install-ssh-key)\n"@,
        }
    }
}

/// CLI panel text, with the local long version first.
pub open spec fn panel_cli_spec(local: Seq<char>, remote: bool, report: Option<SurfaceProbeReport>) -> Seq<
    char,
> {
    if !remote {
        "local="@ + local + "\n"@ + "box=local (embedded)\n"@
    } else {
        match report {
            None => "local="@ + local + "\n"@ + "box=?\nPress r to probe.\n"@,
            Some(r) => "local="@ + local + "\n"@ + "box="@ + cli_status_label(r.cli.status)
                + "\n"@ + "current="@ + bool_text(r.cli.current) + "\n"@
                + "Enter: sync CLI to box (s0)\n"@,
        }
    }
}

/// API panel text.
pub open spec fn panel_api_spec(report: Option<SurfaceProbeReport>) -> Seq<char> {
    match report {
        None => "Status API\nPress r to probe.\n"@,
        Some(r) => "URL: "@ + r.api.url@ + "\nhealth="@ + r.api.health@ + "\n/v1/status="@
            + r.api.status@ + "\nlocal_token_file="@ + r.api.local_token@ + "\nunit="@ + unit_text(
            r.api.unit@,
        ) + "\nEnter: re-probe\n"@,
    }
}

/// MCP panel text (PC and box).
pub open spec fn panel_mcp_spec(report: Option<SurfaceProbeReport>) -> Seq<char> {
    match report {
        None => "MCP\nPress r to probe.\n"@,
        Some(r) => "PC (stdio)\n  binary="@ + (match r.mcp_pc.binary {
            Some(b) => b@,
            None => "missing"@,
        }) + "\n  api_health="@ + r.mcp_pc.api_health@ + "\n\nBox (:8790)\n  url="@
            + r.mcp_box.url@ + "\n  reach="@ + r.mcp_box.reachability@ + "\n  unit="@
            + unit_text(r.mcp_box.unit@) + "\nEnter: re-probe\n"@,
    }
}

/// Reboot panel text.
pub open spec fn panel_reboot_spec(host: Seq<char>) -> Seq<char> {
    "Reboot box '"@ + host + "' via SSH + sudo.\nEnter: confirm reboot (sudo password via SSH_ASKPASS).\n"@
}

/// Remote overview text: mode line, probe facts or a placeholder, then the
/// extra lines after a blank line when there are any.
pub open spec fn panel_overview_remote_spec(
    host: Seq<char>,
    report: Option<SurfaceProbeReport>,
    extra: Seq<char>,
) -> Seq<char> {
    let head = "Mode: remote ("@ + host + ")\n"@;
    let facts = match report {
        None => "No status yet.\n"@,
        Some(r) => "local="@ + r.local_version@ + "  box="@ + cli_status_label(r.cli.status)
            + "\nssh="@ + r.ssh.status@ + "  api.health="@ + r.api.health@ + "\nmcp_box="@
            + r.mcp_box.reachability@ + "\n"@,
    };
    if extra.len() == 0 {
        head + facts
    } else {
        head + facts + "\n"@ + extra
    }
}

/// Format the SSH panel from a probe (or the empty state).
pub fn panel_ssh(remote: bool, host: &str, report: Option<&SurfaceProbeReport>) -> (out: String)
    ensures
        out@ == panel_ssh_spec(remote, host@, probe_of(report)),
{
    if !remote {
        return String::from_str("Mode: embedded (on box)\nSSH: n/a\n");
    }
    let mut out = String::from_str("Host: ");
    out.append(host);
    out.append("\n");
    match report {
        None => out.append("Status: ?\nPress r to probe.\n"),
        Some(r) => {
            out.append("Status: ");
            out.append(r.ssh.status.as_str());
            out.append("\n");
            out.append("Key BatchMode: ");
            out.append(r.ssh.key_ok.as_str());
            out.append("\n");
            out.append("Enter/e: edit Host · i: install key (with --install-ssh-key)\n");
        },
    }
    out
}

/// Format the CLI panel; `local` is the local long version.
pub fn panel_cli(local: &str, remote: bool, report: Option<&SurfaceProbeReport>) -> (out: String)
    ensures
        out@ == panel_cli_spec(local@, remote, probe_of(report)),
{
    let mut out = String::from_str("local=");
    out.append(local);
    out.append("\n");
    if !remote {
        out.append("box=local (embedded)\n");
        return out;
    }
    match report {
        None => out.append("box=?\nPress r to probe.\n"),
        Some(r) => {
            out.append("box=");
            out.append(r.cli.status.as_label());
            out.append("\n");
            out.append("current=");
            out.append(bool_str(r.cli.current));
            out.append("\n");
            out.append("Enter: sync CLI to box (s0)\n");
        },
    }
    out
}

/// Format the API panel.
pub fn panel_api(report: Option<&SurfaceProbeReport>) -> (out: String)
    ensures
        out@ == panel_api_spec(probe_of(report)),
{
    match report {
        None => String::from_str("Status API\nPress r to probe.\n"),
        Some(r) => {
            let mut out = String::from_str("URL: ");
            out.append(r.api.url.as_str());
            out.append("\nhealth=");
            out.append(r.api.health.as_str());
            out.append("\n/v1/status=");
            out.append(r.api.status.as_str());
            out.append("\nlocal_token_file=");
            out.append(r.api.local_token.as_str());
            out.append("\nunit=");
            if r.api.unit.as_str().unicode_len() == 0 {
                out.append("-");
            } else {
                out.append(r.api.unit.as_str());
            }
            out.append("\nEnter: re-probe\n");
            out
        },
    }
}

/// Format the MCP panel (PC and box).
pub fn panel_mcp(report: Option<&SurfaceProbeReport>) -> (out: String)
    ensures
        out@ == panel_mcp_spec(probe_of(report)),
{
    match report {
        None => String::from_str("MCP\nPress r to probe.\n"),
        Some(r) => {
            let mut out = String::from_str("PC (stdio)\n  binary=");
            match &r.mcp_pc.binary {
                Some(b) => out.append(b.as_str()),
                None => out.append("missing"),
            }
            out.append("\n  api_health=");
            out.append(r.mcp_pc.api_health.as_str());
            out.append("\n\nBox (:8790)\n  url=");
            out.append(r.mcp_box.url.as_str());
            out.append("\n  reach=");
            out.append(r.mcp_box.reachability.as_str());
            out.append("\n  unit=");
            if r.mcp_box.unit.as_str().unicode_len() == 0 {
                out.append("-");
            } else {
                out.append(r.mcp_box.unit.as_str());
            }
            out.append("\nEnter: re-probe\n");
            out
        },
    }
}

/// Format the Reboot panel.
pub fn panel_reboot(host: &str) -> (out: String)
    ensures
        out@ == panel_reboot_spec(host@),
{
    let mut out = String::from_str("Reboot box '");
    out.append(host);
    out.append("' via SSH + sudo.\nEnter: confirm reboot (sudo password via SSH_ASKPASS).\n");
    out
}

/// Overview facts from a probe plus optional doctor lines.
pub fn panel_overview_remote(host: &str, report: Option<&SurfaceProbeReport>, extra: &str) -> (out:
    String)
    ensures
        out@ == panel_overview_remote_spec(host@, probe_of(report), extra@),
{
    let mut out = String::from_str("Mode: remote (");
    out.append(host);
    out.append(")\n");
    match report {
        None => out.append("No status yet.\n"),
        Some(r) => {
            out.append("local=");
            out.append(r.local_version.as_str());
            out.append("  box=");
            out.append(r.cli.status.as_label());
            out.append("\nssh=");
            out.append(r.ssh.status.as_str());
            out.append("  api.health=");
            out.append(r.api.health.as_str());
            out.append("\nmcp_box=");
            out.append(r.mcp_box.reachability.as_str());
            out.append("\n");
        },
    }
    if extra.unicode_len() != 0 {
        out.append("\n");
        out.append(extra);
    }
    out
}

} // verus!
