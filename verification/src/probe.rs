//! Plain-value model of a surface probe: what the box reports about its CLI,
//! SSH, status API and MCP surfaces, and how the footer names the box CLI.

use vstd::prelude::*;

verus! {

/// What the remote probe found about the CLI binary on the box.
#[derive(Debug, Clone, PartialEq, Eq)]
pub enum RemoteBoxCliStatus {
    /// A CLI answered with this long version.
    Found(String),
    /// No CLI binary on the box.
    Missing,
    /// SSH refused the login.
    AuthFailed,
    /// The box did not answer.
    Unreachable,
}

/// Label of a box CLI status: the version when found, otherwise a word.
pub open spec fn cli_status_label(s: RemoteBoxCliStatus) -> Seq<char> {
    match s {
        RemoteBoxCliStatus::Found(v) => v@,
        RemoteBoxCliStatus::Missing => "missing"@,
        RemoteBoxCliStatus::AuthFailed => "auth failed"@,
        RemoteBoxCliStatus::Unreachable => "unreachable"@,
    }
}

impl RemoteBoxCliStatus {
    /// Short label shown in the footer and panels.
    pub fn as_label(&self) -> (r: &str)
        ensures
            r@ == cli_status_label(*self),
    {
        match self {
            RemoteBoxCliStatus::Found(v) => v.as_str(),
            RemoteBoxCliStatus::Missing => "missing",
            RemoteBoxCliStatus::AuthFailed => "auth failed",
            RemoteBoxCliStatus::Unreachable => "unreachable",
        }
    }
}

/// SSH part of a probe, each value as it is displayed.
#[derive(Debug, Clone)]
pub struct SshProbe {
    pub status: String,
    pub key_ok: String,
}

/// Box CLI part of a probe.
#[derive(Debug, Clone)]
pub struct CliProbe {
    pub status: RemoteBoxCliStatus,
    /// The box CLI matches the local long version.
    pub current: bool,
}

/// Status API part of a probe, each value as it is displayed.
#[derive(Debug, Clone)]
pub struct ApiProbe {
    pub url: String,
    pub health: String,
    pub status: String,
    pub local_token: String,
    /// systemd unit state; empty when unknown.
    pub unit: String,
}

/// MCP adapter on the PC.
#[derive(Debug, Clone)]
pub struct McpPcProbe {
    /// Path of the MCP binary, if one was found.
    pub binary: Option<String>,
    pub api_health: String,
}

/// MCP endpoint on the box.
#[derive(Debug, Clone)]
pub struct McpBoxProbe {
    pub url: String,
    pub reachability: String,
    /// systemd unit state; empty when unknown.
    pub unit: String,
}

/// One full surface probe (SSH, CLI, API, MCP on PC and box).
#[derive(Debug, Clone)]
pub struct SurfaceProbeReport {
    pub local_version: String,
    pub ssh: SshProbe,
    pub cli: CliProbe,
    pub api: ApiProbe,
    pub mcp_pc: McpPcProbe,
    pub mcp_box: McpBoxProbe,
}

/// The probe behind an optional reference.
pub open spec fn probe_of(report: Option<&SurfaceProbeReport>) -> Option<SurfaceProbeReport> {
    match report {
        Some(r) => Some(*r),
        None => None,
    }
}

/// Box CLI footer/overview value (remote mode).
#[derive(Debug, Clone, PartialEq, Eq)]
pub enum BoxCliView {
    /// Remote TUI just opened; no `r` / s0 probe yet (not the same as missing).
    NotProbed,
    /// Last probe result from the remote layer.
    Known(RemoteBoxCliStatus),
}

/// Label of the footer's box CLI view: an ellipsis before the first probe.
pub open spec fn box_view_label(v: BoxCliView) -> Seq<char> {
    match v {
        BoxCliView::NotProbed => "…"@,
        BoxCliView::Known(s) => cli_status_label(s),
    }
}

impl BoxCliView {
    /// Footer label of this view.
    pub fn as_label(&self) -> (r: &str)
        ensures
            r@ == box_view_label(*self),
    {
        match self {
            BoxCliView::NotProbed => "…",
            BoxCliView::Known(s) => s.as_label(),
        }
    }
}

/// Footer text for the CLI versions: the box part only once a remote probe
/// has reported.
pub open spec fn footer_cli_label_spec(cli_local: Seq<char>, remote: bool, box_cli: BoxCliView) -> Seq<
    char,
> {
    if remote && box_cli is Known {
        "local="@ + cli_local + " box="@ + box_view_label(box_cli)
    } else {
        "local="@ + cli_local
    }
}

/// Footer text for the local and box CLI versions.
pub fn footer_cli_label(cli_local: &str, remote: bool, box_cli: &BoxCliView) -> (r: String)
    ensures
        r@ == footer_cli_label_spec(cli_local@, remote, *box_cli),
{
    let mut out = String::from_str("local=");
    out.append(cli_local);
    if remote {
        match box_cli {
            BoxCliView::NotProbed => {},
            BoxCliView::Known(_) => {
                out.append(" box=");
                out.append(box_cli.as_label());
            },
        }
    }
    out
}

} // verus!
