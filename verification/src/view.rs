//! The text the terminal UI draws: footer, hints, log pane, panel titles and
//! the help overlay.

use vstd::prelude::*;

use crate::app::{host_text, kind_name, ready_text, App};
use crate::probe::{footer_cli_label, footer_cli_label_spec};
use crate::tabs::Screen;
use crate::text::{
    contains_spec, contains_text, join_lines, join_tail, nat_text, str_eq, string_views, usize_text,
};

verus! {

/// Key hints under the status line.
pub open spec fn footer_hints_spec(a: App) -> Seq<char> {
    if a.host_input is Some {
        "Enter submit · Esc cancel · Ctrl+C quit"@
    } else if a.help_open {
        "Esc or ? close help"@
    } else if a.pending_token is Some {
        "Enter/y save · Esc/n skip · Ctrl+C quit"@
    } else if a.confirm_destructive is Some {
        "Enter/y confirm · Esc/n cancel · Ctrl+C quit"@
    } else {
        match a.screen {
            Screen::Setup => "j/k select · Enter run · a all · b backup · ←/→ pipeline · d dry-run/apply · r probe · ? help · q quit"@,
            Screen::Logs => "c clear · Tab screens · r probe · B disk · ? help · q quit"@,
            Screen::Reboot => "Enter reboot · r refresh · Tab · ? help · q quit"@,
            _ => "Enter action · r probe · Tab screens · ? help · q quit"@,
        }
    }
}

/// The status line: mode, pipeline kind, CLI versions and the message (or
/// the ready text when there is none).
pub open spec fn footer_line_spec(a: App) -> Seq<char> {
    (if a.dry_run {
        "[DRY-RUN]"@
    } else {
        "[APPLY]"@
    }) + " pipeline="@ + kind_name(a.kind) + " · "@ + footer_cli_label_spec(
        a.cli_local@,
        a.remote is Some,
        a.box_cli,
    ) + " · "@ + (if a.message@.len() == 0 {
        ready_text()
    } else {
        a.message@
    })
}

/// The y/N dialog on screen, if any: its title and question. The token
/// question comes first, then a pending confirmation (reboot or a
/// destructive step).
pub open spec fn confirm_dialog_spec(a: App) -> Option<(Seq<char>, Seq<char>)> {
    if a.pending_token is Some {
        Some(("Status API token"@, "Save status-api bearer to ~/.config/horto-os-ui/api_token?"@))
    } else {
        match a.confirm_destructive {
            Some(id) => if id@ == "reboot"@ {
                Some(("Reboot"@, "Reboot box '"@ + host_text(a.remote) + "' via SSH + sudo?"@))
            } else {
                Some(("Destructive step"@, "Run destructive step "@ + id@ + "?"@))
            },
            None => None,
        }
    }
}

/// Most log lines the log pane shows.
pub const LOG_PANE_LINES: usize = 40;

/// The log pane: the newest 40 lines, oldest first, or a placeholder.
pub open spec fn logs_text_spec(a: App) -> Seq<char> {
    let l = string_views(a.logs@);
    if l.len() == 0 {
        "(empty · c to clear)"@
    } else if l.len() > LOG_PANE_LINES {
        join_lines(l.skip(l.len() - LOG_PANE_LINES))
    } else {
        join_lines(l)
    }
}

/// Title of a panel screen.
pub open spec fn panel_title_spec(s: Screen) -> Seq<char> {
    match s {
        Screen::Overview => "Overview"@,
        Screen::Ssh => "SSH"@,
        Screen::Cli => "CLI"@,
        Screen::Api => "API"@,
        Screen::Mcp => "MCP"@,
        Screen::Reboot => "Reboot"@,
        Screen::Setup | Screen::Logs => Seq::empty(),
    }
}

/// How a Setup line is coloured.
#[derive(Debug, Clone, Copy, PartialEq, Eq, Structural)]
pub enum LineTone {
    Done,
    Stale,
    Failed,
    Plain,
}

/// Tone of a Setup line, by the status it carries.
pub open spec fn line_tone_spec(line: Seq<char>) -> LineTone {
    if contains_spec(line, "| done |"@) {
        LineTone::Done
    } else if contains_spec(line, "| stale |"@) {
        LineTone::Stale
    } else if contains_spec(line, "| failed |"@) {
        LineTone::Failed
    } else {
        LineTone::Plain
    }
}

/// Tone of a Setup line.
pub fn line_tone(line: &str) -> (t: LineTone)
    ensures
        t == line_tone_spec(line@),
{
    if contains_text(line, "| done |") {
        LineTone::Done
    } else if contains_text(line, "| stale |") {
        LineTone::Stale
    } else if contains_text(line, "| failed |") {
        LineTone::Failed
    } else {
        LineTone::Plain
    }
}

/// Title of a panel screen.
pub fn panel_title(s: Screen) -> (r: &'static str)
    ensures
        r@ == panel_title_spec(s),
{
    match s {
        Screen::Overview => "Overview",
        Screen::Ssh => "SSH",
        Screen::Cli => "CLI",
        Screen::Api => "API",
        Screen::Mcp => "MCP",
        Screen::Reboot => "Reboot",
        Screen::Setup | Screen::Logs => {
            proof {
                reveal_strlit("");
            }
            ""
        },
    }
}

/// The help overlay.
pub open spec fn help_text_spec() -> Seq<char> {
    "Horto TUI help\n\nq / Esc / Ctrl+C   Quit (while typing Host, only Ctrl+C)\n?                  Toggle this help\nTab / Shift-Tab    Next / previous tab\n1-8                Jump to tab (remote: 7 Reboot, 8 Logs)\nj k / arrows       Move step selection (Setup)\nLeft / Right       Full / Minimal pipeline\nEnter              Setup: run step · SSH: edit Host · other tabs: action\ne / i              SSH: edit Host / install key (--install-ssh-key)\na                  Run all pipeline steps\nb / B              Timestamped /etc backup / disk probe\nr                  Re-probe surfaces (stay in TUI)\nc                  Clear Logs (on Logs tab)\nd                  Toggle dry-run / apply\ny / n              Confirm / cancel\n\nRemote open probes SSH/CLI/API/MCP (BatchMode).\nMouse capture is off so you can select and copy text.\nPress Esc or ? to close."@
}

/// Text of the help overlay.
pub fn help_text() -> (r: &'static str)
    ensures
        r@ == help_text_spec(),
{
    "Horto TUI help\n\nq / Esc / Ctrl+C   Quit (while typing Host, only Ctrl+C)\n?                  Toggle this help\nTab / Shift-Tab    Next / previous tab\n1-8                Jump to tab (remote: 7 Reboot, 8 Logs)\nj k / arrows       Move step selection (Setup)\nLeft / Right       Full / Minimal pipeline\nEnter              Setup: run step · SSH: edit Host · other tabs: action\ne / i              SSH: edit Host / install key (--install-ssh-key)\na                  Run all pipeline steps\nb / B              Timestamped /etc backup / disk probe\nr                  Re-probe surfaces (stay in TUI)\nc                  Clear Logs (on Logs tab)\nd                  Toggle dry-run / apply\ny / n              Confirm / cancel\n\nRemote open probes SSH/CLI/API/MCP (BatchMode).\nMouse capture is off so you can select and copy text.\nPress Esc or ? to close."
}

impl App {
    /// Key hints for the current state.
    pub fn footer_hints(&self) -> (r: &'static str)
        ensures
            r@ == footer_hints_spec(*self),
    {
        if self.host_input.is_some() {
            return "Enter submit · Esc cancel · Ctrl+C quit";
        }
        if self.help_open {
            return "Esc or ? close help";
        }
        if self.pending_token.is_some() {
            return "Enter/y save · Esc/n skip · Ctrl+C quit";
        }
        if self.confirm_destructive.is_some() {
            return "Enter/y confirm · Esc/n cancel · Ctrl+C quit";
        }
        match self.screen {
            Screen::Setup => "j/k select · Enter run · a all · b backup · ←/→ pipeline · d dry-run/apply · r probe · ? help · q quit",
            Screen::Logs => "c clear · Tab screens · r probe · B disk · ? help · q quit",
            Screen::Reboot => "Enter reboot · r refresh · Tab · ? help · q quit",
            _ => "Enter action · r probe · Tab screens · ? help · q quit",
        }
    }

    /// The y/N dialog to draw, if any (see [`confirm_dialog_spec`]).
    pub fn confirm_dialog(&self) -> (r: Option<(String, String)>)
        ensures
            match r {
                Some((t, q)) => confirm_dialog_spec(*self) == Some((t@, q@)),
                None => confirm_dialog_spec(*self) is None,
            },
    {
        if self.pending_token.is_some() {
            return Some(
                (
                    String::from_str("Status API token"),
                    String::from_str("Save status-api bearer to ~/.config/horto-os-ui/api_token?"),
                ),
            );
        }
        match &self.confirm_destructive {
            Some(id) => {
                if str_eq(id.as_str(), "reboot") {
                    let mut q = String::from_str("Reboot box '");
                    q.append(self.host());
                    q.append("' via SSH + sudo?");
                    Some((String::from_str("Reboot"), q))
                } else {
                    let mut q = String::from_str("Run destructive step ");
                    q.append(id.as_str());
                    q.append("?");
                    Some((String::from_str("Destructive step"), q))
                }
            },
            None => None,
        }
    }

    /// The status line.
    pub fn footer_line(&self) -> (r: String)
        ensures
            r@ == footer_line_spec(*self),
    {
        let mut out = if self.dry_run {
            String::from_str("[DRY-RUN]")
        } else {
            String::from_str("[APPLY]")
        };
        out.append(" pipeline=");
        out.append(self.kind.as_str());
        out.append(" · ");
        let label = footer_cli_label(self.cli_local.as_str(), self.remote.is_some(), &self.box_cli);
        out.append(label.as_str());
        out.append(" · ");
        if self.message.as_str().unicode_len() == 0 {
            out.append("Ready (? help)");
        } else {
            out.append(self.message.as_str());
        }
        out
    }

    /// The log pane text.
    pub fn logs_text(&self) -> (r: String)
        ensures
            r@ == logs_text_spec(*self),
    {
        let n = self.logs.len();
        if n == 0 {
            return String::from_str("(empty · c to clear)");
        }
        let from = if n > LOG_PANE_LINES {
            n - LOG_PANE_LINES
        } else {
            0
        };
        let r = join_tail(&self.logs, from);
        proof {
            let l = string_views(self.logs@);
            assert(string_views(self.logs@.skip(from as int)) =~= l.skip(from as int));
            if n <= LOG_PANE_LINES {
                assert(l.skip(0) =~= l);
            }
        }
        r
    }

    /// Title of the log pane: `Logs (n)`.
    pub fn logs_title(&self) -> (r: String)
        ensures
            r@ == "Logs ("@ + nat_text(self.logs@.len()) + ")"@,
    {
        let mut out = String::from_str("Logs (");
        let n = usize_text(self.logs.len());
        out.append(n.as_str());
        out.append(")");
        out
    }

    /// Body of the panel screen: the local overview, or the panel text.
    pub fn panel_body(&self) -> (r: &str)
        ensures
            r@ == (if self.screen == Screen::Overview && self.remote is None {
                self.overview_text@
            } else {
                self.panel_text@
            }),
    {
        if self.screen == Screen::Overview && self.remote.is_none() {
            self.overview_text.as_str()
        } else {
            self.panel_text.as_str()
        }
    }
}

} // verus!
