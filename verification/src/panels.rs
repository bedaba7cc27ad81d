//! The five dashboard panels: each renderer is a pure function from
//! plain readings to a titled, colored text block.

use vstd::prelude::*;
use vstd::string::StringExecFns;

use crate::text::{dec_rep, dec_rep_signed, fmt_i64, fmt_u64};
use crate::updates::{updates_count, updates_count_of};
use crate::uptime::split_uptime;

verus! {

/// The foreground color a panel is drawn with.
#[derive(Clone, Copy, PartialEq, Eq, Structural, Debug)]
pub enum PanelColor {
    Cyan,
    Green,
    Yellow,
    Magenta,
    Blue,
}

/// One rendered panel: a border title, the text inside, and a color.
pub struct Panel {
    pub title: String,
    pub body: String,
    pub color: PanelColor,
}

/// The mathematical image of a `Panel`: its strings as char sequences.
#[verifier::ext_equal]
pub struct PanelView {
    pub title: Seq<char>,
    pub body: Seq<char>,
    pub color: PanelColor,
}

impl View for Panel {
    type V = PanelView;

    open spec fn view(&self) -> PanelView {
        PanelView { title: self.title@, body: self.body@, color: self.color }
    }
}

/// The Memory Usage body: used and total, each in whole megabytes by
/// integer division of the native reading by 1024.
pub open spec fn memory_body(used: u64, total: u64) -> Seq<char> {
    "Memory Usage: "@ + dec_rep((used / 1024) as nat) + "/"@ + dec_rep((total / 1024) as nat)
        + " MB"@
}

pub open spec fn spec_memory_panel(used: u64, total: u64) -> PanelView {
    PanelView { title: "Memory Usage"@, body: memory_body(used, total), color: PanelColor::Cyan }
}

/// Renders the Memory Usage panel from the native memory readings.
pub fn memory_panel(used: u64, total: u64) -> (r: Panel)
    ensures
        r@ == spec_memory_panel(used, total),
{
    let mut body = String::from_str("Memory Usage: ");
    let used_mb = fmt_u64(used / 1024);
    body.append(used_mb.as_str());
    body.append("/");
    let total_mb = fmt_u64(total / 1024);
    body.append(total_mb.as_str());
    body.append(" MB");
    let r = Panel { title: String::from_str("Memory Usage"), body, color: PanelColor::Cyan };
    proof {
        assert(r@.body =~= memory_body(used, total));
        assert(r@ =~= spec_memory_panel(used, total));
    }
    r
}

/// The Uptime body: days, hours, minutes and seconds obtained by floor
/// division and remainders by 86400, 3600 and 60.
pub open spec fn uptime_body(s: u64) -> Seq<char> {
    "Uptime: "@ + dec_rep((s / 86400) as nat) + "d "@ + dec_rep((((s % 86400) / 3600)) as nat)
        + "h "@ + dec_rep(((s % 3600) / 60) as nat) + "m "@ + dec_rep((s % 60) as nat) + "s"@
}

pub open spec fn spec_uptime_panel(s: u64) -> PanelView {
    PanelView { title: "System Uptime"@, body: uptime_body(s), color: PanelColor::Green }
}

/// Renders the Uptime panel from a second count.
pub fn uptime_panel(total_seconds: u64) -> (r: Panel)
    ensures
        r@ == spec_uptime_panel(total_seconds),
{
    let parts = split_uptime(total_seconds);
    let mut body = String::from_str("Uptime: ");
    let days = fmt_u64(parts.days);
    body.append(days.as_str());
    body.append("d ");
    let hours = fmt_u64(parts.hours);
    body.append(hours.as_str());
    body.append("h ");
    let minutes = fmt_u64(parts.minutes);
    body.append(minutes.as_str());
    body.append("m ");
    let seconds = fmt_u64(parts.seconds);
    body.append(seconds.as_str());
    body.append("s");
    let r = Panel { title: String::from_str("System Uptime"), body, color: PanelColor::Green };
    proof {
        assert(r@.body =~= uptime_body(total_seconds));
        assert(r@ =~= spec_uptime_panel(total_seconds));
    }
    r
}

/// The Available Updates body: the parsed line count less the header
/// line, zero when nothing parses.
pub open spec fn updates_body(raw: Seq<u8>) -> Seq<char> {
    "Available Updates: "@ + dec_rep_signed(updates_count(raw))
}

pub open spec fn spec_updates_panel(raw: Seq<u8>) -> PanelView {
    PanelView { title: "Apt Updates"@, body: updates_body(raw), color: PanelColor::Yellow }
}

/// Renders the Available Updates panel from the raw bytes the
/// update-listing pipeline printed.
pub fn updates_panel(raw: &Vec<u8>) -> (r: Panel)
    ensures
        r@ == spec_updates_panel(raw@),
{
    let count = updates_count_of(raw);
    let mut body = String::from_str("Available Updates: ");
    let digits = fmt_i64(count);
    body.append(digits.as_str());
    let r = Panel { title: String::from_str("Apt Updates"), body, color: PanelColor::Yellow };
    proof {
        assert(r@.body =~= updates_body(raw@));
        assert(r@ =~= spec_updates_panel(raw@));
    }
    r
}

/// Whether a process table holds an exact (case-sensitive, whole-name)
/// match for `name`.
pub open spec fn running_in(table: Seq<Seq<char>>, name: Seq<char>) -> bool {
    exists|i: int| 0 <= i < table.len() && table[i] == name
}

/// The one Program Status line for a watched name.
pub open spec fn status_line(name: Seq<char>, running: bool) -> Seq<char> {
    if running {
        name + ": Running\n"@
    } else {
        name + ": Not Running\n"@
    }
}

/// The Program Status body: one line per watched name, in order, each
/// decided by exact-name presence in the process table.
pub open spec fn status_body(names: Seq<Seq<char>>, table: Seq<Seq<char>>) -> Seq<char>
    decreases names.len(),
{
    if names.len() == 0 {
        Seq::empty()
    } else {
        status_body(names.drop_last(), table) + status_line(
            names.last(),
            running_in(table, names.last()),
        )
    }
}

/// A sequence of lines laid end to end.
pub open spec fn concat_lines(lines: Seq<Seq<char>>) -> Seq<char>
    decreases lines.len(),
{
    if lines.len() == 0 {
        Seq::empty()
    } else {
        concat_lines(lines.drop_last()) + lines.last()
    }
}

/// Program Status is exactly one line per watched name, order
/// preserved: the body equals the concatenation of a sequence with one
/// entry per name, whose `i`-th entry is the line for the `i`-th name,
/// decided by exact-name presence in the process table.
pub proof fn lemma_status_one_line_per_name(names: Seq<Seq<char>>, table: Seq<Seq<char>>)
    ensures
        status_body(names, table) == concat_lines(
            Seq::new(names.len(), |i: int| status_line(names[i], running_in(table, names[i]))),
        ),
    decreases names.len(),
{
    let lines = Seq::new(names.len(), |i: int| status_line(names[i], running_in(table, names[i])));
    if names.len() == 0 {
        assert(status_body(names, table) =~= concat_lines(lines));
    } else {
        let rest = names.drop_last();
        lemma_status_one_line_per_name(rest, table);
        let rest_lines = Seq::new(
            rest.len(),
            |i: int| status_line(rest[i], running_in(table, rest[i])),
        );
        assert(lines.drop_last() =~= rest_lines);
        assert(lines.last() == status_line(names.last(), running_in(table, names.last())));
    }
}

pub open spec fn spec_status_panel(names: Seq<Seq<char>>, table: Seq<Seq<char>>) -> PanelView {
    PanelView {
        title: "Program Status"@,
        body: status_body(names, table),
        color: PanelColor::Magenta,
    }
}

/// Whether `table` holds an exact match for `name`.
fn name_is_running(table: &Vec<String>, name: &String) -> (r: bool)
    ensures
        r == running_in(table.deep_view(), name@),
{
    let mut i: usize = 0;
    while i < table.len()
        invariant
            i <= table@.len(),
            forall|k: int| 0 <= k < i ==> table.deep_view()[k] != name@,
        decreases table@.len() - i,
    {
        if table[i].eq(name) {
            proof {
                assert(table.deep_view()[i as int] == name@);
            }
            return true;
        }
        i = i + 1;
    }
    false
}

/// Builds the Program Status body for the watched names against a
/// process-name table.
pub fn program_status_body(watched: &Vec<String>, table: &Vec<String>) -> (r: String)
    ensures
        r@ == status_body(watched.deep_view(), table.deep_view()),
{
    let mut out = String::new();
    let mut i: usize = 0;
    while i < watched.len()
        invariant
            i <= watched@.len(),
            out@ == status_body(watched.deep_view().take(i as int), table.deep_view()),
        decreases watched@.len() - i,
    {
        let running = name_is_running(table, &watched[i]);
        out.append(watched[i].as_str());
        if running {
            out.append(": Running\n");
        } else {
            out.append(": Not Running\n");
        }
        proof {
            let names = watched.deep_view();
            assert(names.take(i + 1).drop_last() =~= names.take(i as int));
            assert(names.take(i + 1).last() == names[i as int]);
            assert(names[i as int] == watched[i as int]@);
            assert(out@ =~= status_body(names.take(i + 1), table.deep_view()));
        }
        i = i + 1;
    }
    proof {
        assert(watched.deep_view().take(watched@.len() as int) =~= watched.deep_view());
    }
    out
}

/// Renders the Program Status panel.
pub fn program_status_panel(watched: &Vec<String>, table: &Vec<String>) -> (r: Panel)
    ensures
        r@ == spec_status_panel(watched.deep_view(), table.deep_view()),
{
    let body = program_status_body(watched, table);
    let r = Panel { title: String::from_str("Program Status"), body, color: PanelColor::Magenta };
    proof {
        assert(r@ =~= spec_status_panel(watched.deep_view(), table.deep_view()));
    }
    r
}

pub open spec fn spec_queue_panel(output: Seq<char>) -> PanelView {
    PanelView { title: "Pueue SERVICES Group"@, body: output, color: PanelColor::Blue }
}

/// Renders the task-queue panel: the queue tool's output verbatim.
pub fn queue_panel(output: String) -> (r: Panel)
    ensures
        r@ == spec_queue_panel(output@),
{
    let r = Panel {
        title: String::from_str("Pueue SERVICES Group"),
        body: output,
        color: PanelColor::Blue,
    };
    proof {
        assert(r@ =~= spec_queue_panel(r.body@));
    }
    r
}

/// The fixed list of watched process names.
pub fn watched_programs() -> (r: Vec<String>)
    ensures
        r.deep_view() == seq!["nginx"@, "mysql"@],
{
    let mut v: Vec<String> = Vec::new();
    v.push(String::from_str("nginx"));
    v.push(String::from_str("mysql"));
    proof {
        assert(v.deep_view() =~= seq!["nginx"@, "mysql"@]);
    }
    v
}

/// Builds the whole frame: the five panels in their fixed top-to-bottom
/// order, each rendered from the reading it displays.
pub fn dashboard_panels(
    used: u64,
    total: u64,
    uptime_seconds: u64,
    watched: &Vec<String>,
    table: &Vec<String>,
    updates_raw: &Vec<u8>,
    queue_output: String,
) -> (r: Vec<Panel>)
    ensures
        r@.len() == 5,
        r@[0]@ == spec_memory_panel(used, total),
        r@[1]@ == spec_uptime_panel(uptime_seconds),
        r@[2]@ == spec_updates_panel(updates_raw@),
        r@[3]@ == spec_status_panel(watched.deep_view(), table.deep_view()),
        r@[4]@ == spec_queue_panel(queue_output@),
{
    let mut r: Vec<Panel> = Vec::new();
    r.push(memory_panel(used, total));
    r.push(uptime_panel(uptime_seconds));
    r.push(updates_panel(updates_raw));
    r.push(program_status_panel(watched, table));
    r.push(queue_panel(queue_output));
    r
}

} // verus!
