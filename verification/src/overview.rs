//! The local Overview: the embedded box's status as text.

use vstd::prelude::*;

use crate::app::{build_step_lines, report_lines, App, SetupStepRow};
use crate::flow::{DiskProbe, Doctor};
use crate::tabs::{bool_str, bool_text};
use crate::text::{nat_text, usize_text};

verus! {

/// A running container.
#[derive(Debug, Clone)]
pub struct Container {
    pub names: String,
    pub status: String,
}

/// A service URL and whether it answered.
#[derive(Debug, Clone)]
pub struct UrlCheck {
    pub name: String,
    pub up: bool,
    pub url: String,
}

/// A DHCP lease.
#[derive(Debug, Clone)]
pub struct Lease {
    pub hostname: String,
    pub ip: String,
}

/// Backups on the box.
#[derive(Debug, Clone)]
pub struct BackupStatus {
    pub initial_setup_present: bool,
    /// Timestamped `/etc` backups, oldest first.
    pub timestamped: Vec<String>,
    pub disk: DiskProbe,
}

/// Status of the box this UI runs on.
#[derive(Debug, Clone)]
pub struct BoxStatus {
    pub hostname: String,
    pub doctor: Doctor,
    pub containers: Vec<Container>,
    pub urls: Vec<UrlCheck>,
    pub leases: Vec<Lease>,
    pub backup: BackupStatus,
}

/// Most leases listed.
pub const LEASES_SHOWN: usize = 12;

/// Most recent backups named.
pub const RECENT_BACKUPS: usize = 5;

/// One `- note` line per doctor note.
pub open spec fn notes_text(notes: Seq<String>) -> Seq<char>
    decreases notes.len(),
{
    if notes.len() == 0 {
        Seq::empty()
    } else {
        notes_text(notes.drop_last()) + "- "@ + notes.last()@ + "\n"@
    }
}

/// One line per container.
pub open spec fn containers_text(cs: Seq<Container>) -> Seq<char>
    decreases cs.len(),
{
    if cs.len() == 0 {
        Seq::empty()
    } else {
        containers_text(cs.drop_last()) + "  "@ + cs.last().names@ + " "@ + cs.last().status@
            + "\n"@
    }
}

/// One line per URL, marked up or down.
pub open spec fn urls_text(us: Seq<UrlCheck>) -> Seq<char>
    decreases us.len(),
{
    if us.len() == 0 {
        Seq::empty()
    } else {
        urls_text(us.drop_last()) + "  "@ + us.last().name@ + " ["@ + (if us.last().up {
            "up"@
        } else {
            "down"@
        }) + "]: "@ + us.last().url@ + "\n"@
    }
}

/// One line per lease.
pub open spec fn leases_text(ls: Seq<Lease>) -> Seq<char>
    decreases ls.len(),
{
    if ls.len() == 0 {
        Seq::empty()
    } else {
        leases_text(ls.drop_last()) + "  "@ + ls.last().hostname@ + " "@ + ls.last().ip@ + "\n"@
    }
}

/// Texts joined with `, ` between them.
pub open spec fn join_comma(xs: Seq<Seq<char>>) -> Seq<char>
    decreases xs.len(),
{
    if xs.len() == 0 {
        Seq::empty()
    } else if xs.len() == 1 {
        xs[0]
    } else {
        join_comma(xs.drop_last()) + ", "@ + xs.last()
    }
}

/// The newest five backups, newest first.
pub open spec fn recent_backups(t: Seq<String>) -> Seq<Seq<char>> {
    let n = if t.len() < RECENT_BACKUPS {
        t.len() as int
    } else {
        RECENT_BACKUPS as int
    };
    Seq::new(n as nat, |i: int| t[t.len() - 1 - i]@)
}

/// First lines of the local Overview: mode, hostname and doctor facts.
pub open spec fn overview_head(b: BoxStatus) -> Seq<char> {
    let d = b.doctor;
    "Mode: embedded\n"@ + "Hostname: "@ + b.hostname@ + "\n"@ + "Root: "@ + bool_text(d.is_root)
        + "  Docker: "@ + bool_text(d.docker_present) + "  Full env: "@ + bool_text(d.full_env)
        + "  Minimal env: "@ + bool_text(d.minimal_env) + "\n"@
}

/// Containers section of the local Overview.
pub open spec fn containers_section(b: BoxStatus) -> Seq<char> {
    "\nContainers:\n"@ + (if b.containers@.len() == 0 {
        "  (none)\n"@
    } else {
        containers_text(b.containers@)
    })
}

/// URLs section of the local Overview.
pub open spec fn urls_section(b: BoxStatus) -> Seq<char> {
    "\nURLs:\n"@ + urls_text(b.urls@)
}

/// Leases section of the local Overview: the count, then the first twelve.
pub open spec fn leases_section(b: BoxStatus) -> Seq<char> {
    let shown = if b.leases@.len() > LEASES_SHOWN {
        b.leases@.take(LEASES_SHOWN as int)
    } else {
        b.leases@
    };
    "\nLeases: "@ + nat_text(b.leases@.len()) + "\n"@ + leases_text(shown)
}

/// Timestamped backups line: how many, and the newest five, newest first.
pub open spec fn timestamped_line(t: Seq<String>) -> Seq<char> {
    if t.len() == 0 {
        "  timestamped: (none)\n"@
    } else {
        "  timestamped ("@ + nat_text(t.len()) + "): "@ + join_comma(recent_backups(t)) + "\n"@
    }
}

/// Disk backup line.
pub open spec fn disk_line(d: DiskProbe) -> Seq<char> {
    "  disk root="@ + d.root_source@ + " safe="@ + bool_text(d.safe_to_apply) + " blockers="@
        + nat_text(d.blockers@.len()) + "\n"@
}

/// Backup section of the local Overview.
pub open spec fn backup_section(b: BoxStatus) -> Seq<char> {
    "\nBackup:\n"@ + "  initial_setup: "@ + bool_text(b.backup.initial_setup_present) + "\n"@
        + timestamped_line(b.backup.timestamped@) + disk_line(b.backup.disk)
}

/// The local Overview text.
pub open spec fn overview_spec(b: BoxStatus) -> Seq<char> {
    overview_head(b) + notes_text(b.doctor.notes@) + containers_section(b) + urls_section(b)
        + leases_section(b) + backup_section(b)
}

fn append_notes(out: &mut String, notes: &Vec<String>)
    ensures
        final(out)@ == old(out)@ + notes_text(notes@),
{
    let mut i: usize = 0;
    while i < notes.len()
        invariant
            i <= notes@.len(),
            out@ == old(out)@ + notes_text(notes@.take(i as int)),
        decreases notes@.len() - i,
    {
        out.append("- ");
        out.append(notes[i].as_str());
        out.append("\n");
        assert(notes@.take(i + 1).drop_last() =~= notes@.take(i as int));
        i = i + 1;
    }
    assert(notes@.take(notes@.len() as int) =~= notes@);
}

fn append_containers(out: &mut String, cs: &Vec<Container>)
    ensures
        final(out)@ == old(out)@ + containers_text(cs@),
{
    let mut i: usize = 0;
    while i < cs.len()
        invariant
            i <= cs@.len(),
            out@ == old(out)@ + containers_text(cs@.take(i as int)),
        decreases cs@.len() - i,
    {
        out.append("  ");
        out.append(cs[i].names.as_str());
        out.append(" ");
        out.append(cs[i].status.as_str());
        out.append("\n");
        assert(cs@.take(i + 1).drop_last() =~= cs@.take(i as int));
        i = i + 1;
    }
    assert(cs@.take(cs@.len() as int) =~= cs@);
}

fn append_urls(out: &mut String, us: &Vec<UrlCheck>)
    ensures
        final(out)@ == old(out)@ + urls_text(us@),
{
    let mut i: usize = 0;
    while i < us.len()
        invariant
            i <= us@.len(),
            out@ == old(out)@ + urls_text(us@.take(i as int)),
        decreases us@.len() - i,
    {
        out.append("  ");
        out.append(us[i].name.as_str());
        out.append(" [");
        if us[i].up {
            out.append("up");
        } else {
            out.append("down");
        }
        out.append("]: ");
        out.append(us[i].url.as_str());
        out.append("\n");
        assert(us@.take(i + 1).drop_last() =~= us@.take(i as int));
        i = i + 1;
    }
    assert(us@.take(us@.len() as int) =~= us@);
}

fn append_leases(out: &mut String, ls: &Vec<Lease>, n: usize)
    requires
        n <= ls@.len(),
    ensures
        final(out)@ == old(out)@ + leases_text(ls@.take(n as int)),
{
    let mut i: usize = 0;
    while i < n
        invariant
            n <= ls@.len(),
            i <= n,
            out@ == old(out)@ + leases_text(ls@.take(i as int)),
        decreases n - i,
    {
        out.append("  ");
        out.append(ls[i].hostname.as_str());
        out.append(" ");
        out.append(ls[i].ip.as_str());
        out.append("\n");
        assert(ls@.take(i + 1).drop_last() =~= ls@.take(i as int));
        i = i + 1;
    }
}

fn append_recent(out: &mut String, t: &Vec<String>)
    requires
        t@.len() > 0,
    ensures
        final(out)@ == old(out)@ + join_comma(recent_backups(t@)),
{
    let len = t.len();
    let n = if len < RECENT_BACKUPS {
        len
    } else {
        RECENT_BACKUPS
    };
    let ghost all = recent_backups(t@);
    let mut i: usize = 0;
    while i < n
        invariant
            len == t@.len(),
            len > 0,
            n == all.len(),
            all == recent_backups(t@),
            i <= n,
            out@ == old(out)@ + join_comma(all.take(i as int)),
        decreases n - i,
    {
        if i > 0 {
            out.append(", ");
        }
        out.append(t[len - 1 - i].as_str());
        proof {
            let s = all.take(i + 1);
            assert(s.drop_last() =~= all.take(i as int));
            assert(s.last() == t@[len - 1 - i]@);
            if i == 0 {
                assert(all.take(0) =~= Seq::<Seq<char>>::empty());
            }
        }
        i = i + 1;
    }
    assert(all.take(n as int) =~= all);
}

fn head_text(b: &BoxStatus) -> (r: String)
    ensures
        r@ == overview_head(*b),
{
    let d = &b.doctor;
    let mut out = String::from_str("Mode: embedded\n");
    out.append("Hostname: ");
    out.append(b.hostname.as_str());
    out.append("\n");
    out.append("Root: ");
    out.append(bool_str(d.is_root));
    out.append("  Docker: ");
    out.append(bool_str(d.docker_present));
    out.append("  Full env: ");
    out.append(bool_str(d.full_env));
    out.append("  Minimal env: ");
    out.append(bool_str(d.minimal_env));
    out.append("\n");
    out
}

fn containers_part(out: &mut String, b: &BoxStatus)
    ensures
        final(out)@ == old(out)@ + containers_section(*b),
{
    let ghost start = out@;
    out.append("\nContainers:\n");
    if b.containers.len() == 0 {
        out.append("  (none)\n");
    } else {
        append_containers(out, &b.containers);
    }
    assert(out@ =~= start + containers_section(*b));
}

fn urls_part(out: &mut String, b: &BoxStatus)
    ensures
        final(out)@ == old(out)@ + urls_section(*b),
{
    let ghost start = out@;
    out.append("\nURLs:\n");
    append_urls(out, &b.urls);
    assert(out@ =~= start + urls_section(*b));
}

fn leases_part(out: &mut String, b: &BoxStatus)
    ensures
        final(out)@ == old(out)@ + leases_section(*b),
{
    let ghost start = out@;
    out.append("\nLeases: ");
    let nl = usize_text(b.leases.len());
    out.append(nl.as_str());
    out.append("\n");
    let shown = if b.leases.len() > LEASES_SHOWN {
        LEASES_SHOWN
    } else {
        b.leases.len()
    };
    append_leases(out, &b.leases, shown);
    assert(b.leases@.len() <= LEASES_SHOWN ==> b.leases@.take(shown as int) =~= b.leases@);
    assert(out@ =~= start + leases_section(*b));
}

fn timestamped_part(out: &mut String, t: &Vec<String>)
    ensures
        final(out)@ == old(out)@ + timestamped_line(t@),
{
    let ghost start = out@;
    if t.len() == 0 {
        out.append("  timestamped: (none)\n");
    } else {
        out.append("  timestamped (");
        let nt = usize_text(t.len());
        out.append(nt.as_str());
        out.append("): ");
        append_recent(out, t);
        out.append("\n");
    }
    assert(out@ =~= start + timestamped_line(t@));
}

fn disk_part(out: &mut String, d: &DiskProbe)
    ensures
        final(out)@ == old(out)@ + disk_line(*d),
{
    out.append("  disk root=");
    out.append(d.root_source.as_str());
    out.append(" safe=");
    out.append(bool_str(d.safe_to_apply));
    out.append(" blockers=");
    let nb = usize_text(d.blockers.len());
    out.append(nb.as_str());
    out.append("\n");
}

fn backup_part(out: &mut String, b: &BoxStatus)
    ensures
        final(out)@ == old(out)@ + backup_section(*b),
{
    let ghost start = out@;
    out.append("\nBackup:\n");
    out.append("  initial_setup: ");
    out.append(bool_str(b.backup.initial_setup_present));
    out.append("\n");
    timestamped_part(out, &b.backup.timestamped);
    disk_part(out, &b.backup.disk);
}

/// Build the local Overview text.
pub fn overview_text(b: &BoxStatus) -> (r: String)
    ensures
        r@ == overview_spec(*b),
{
    let mut out = head_text(b);
    append_notes(&mut out, &b.doctor.notes);
    containers_part(&mut out, b);
    urls_part(&mut out, b);
    leases_part(&mut out, b);
    backup_part(&mut out, b);
    out
}

impl App {
    /// Take the local setup status and box status: the Setup rows and the
    /// Overview text (the selected row stays where it is).
    pub fn apply_local_status(&mut self, rows: &Vec<SetupStepRow>, status: &BoxStatus)
        ensures
            final(self).line_view() == report_lines(rows@),
            final(self).overview_text@ == overview_spec(*status),
            *final(self) == (App {
                status_lines: final(self).status_lines,
                overview_text: final(self).overview_text,
                ..*old(self)
            }),
    {
        self.status_lines = build_step_lines(Some(rows), &Vec::new());
        self.overview_text = overview_text(status);
    }
}

} // verus!
