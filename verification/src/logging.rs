//! The lines of the debug log and where it is written.
use vstd::prelude::*;

use crate::paths::{path_join, std_join};
use crate::text::{concat, concat3, decimal, u64_to_string};

verus! {

/// The directory of the daily debug logs.
pub const DEBUG_LOG_DIR: &'static str = "/var/log/markhola";

/// The log written where the daily one cannot be.
pub const DEBUG_LOG_FALLBACK_PATH: &'static str = "/tmp/markhola.log";

/// How a request number appears in the log: `open-<number>`, or `system` without one.
pub open spec fn event_label(event_id: Option<u64>) -> Seq<char> {
    match event_id {
        Some(id) => "open-"@ + decimal(id as nat),
        None => "system"@,
    }
}

/// The message logged for stage `stage` of the request `event_id`, with the free text
/// `message` quoted and the details `extra` appended where there are any.
pub open spec fn log_message(
    stage: Seq<char>,
    event_id: Option<u64>,
    message: Seq<char>,
    extra: Seq<char>,
) -> Seq<char> {
    let base = "stage="@ + stage + " event_id="@ + event_label(event_id) + " msg=\""@ + message
        + "\""@;
    if extra.len() == 0 {
        base
    } else {
        base + " "@ + extra
    }
}

/// The message that the debug log receives for stage `stage` of the request `event_id`.
pub fn log_event(stage: &str, event_id: Option<u64>, message: &str, extra: &str) -> (r: String)
    ensures
        r@ == log_message(stage@, event_id, message@, extra@),
{
    let label = match event_id {
        Some(id) => {
            let n = u64_to_string(id);
            concat("open-", n.as_str())
        },
        None => String::from_str("system"),
    };
    let mut line = concat("stage=", stage);
    line.append(" event_id=");
    line.append(label.as_str());
    line.append(" msg=\"");
    line.append(message);
    line.append("\"");
    if extra.unicode_len() > 0 {
        line.append(" ");
        line.append(extra);
    }
    line
}

/// `value`, or `fallback` where there is none.
pub open spec fn or_else(value: Option<Seq<char>>, fallback: Seq<char>) -> Seq<char> {
    match value {
        Some(v) => v,
        None => fallback,
    }
}

/// A line of the debug log: the time `ts`, the process `pid` and the thread `tid`, then the
/// message.
pub open spec fn debug_line(ts: Option<Seq<char>>, pid: u32, tid: Option<Seq<char>>, message: Seq<
    char,
>) -> Seq<char> {
    "ts="@ + or_else(ts, "unknown-ts"@) + " pid="@ + decimal(pid as nat) + " tid="@ + or_else(
        tid,
        "unnamed"@,
    ) + " "@ + message + "\n"@
}

/// The view of an optional text.
pub open spec fn opt_str(s: Option<&str>) -> Option<Seq<char>> {
    match s {
        Some(v) => Some(v@),
        None => None,
    }
}

fn text_or<'a>(value: Option<&'a str>, fallback: &'static str) -> (r: &'a str)
    ensures
        r@ == or_else(opt_str(value), fallback@),
{
    match value {
        Some(v) => v,
        None => fallback,
    }
}

/// The head of a line of the debug log: time, process and thread, each followed by a space.
fn line_head(ts: Option<&str>, pid: u32, tid: Option<&str>) -> (r: String)
    ensures
        r@ == "ts="@ + or_else(opt_str(ts), "unknown-ts"@) + " pid="@ + decimal(pid as nat)
            + " tid="@ + or_else(opt_str(tid), "unnamed"@) + " "@,
{
    let mut line = concat("ts=", text_or(ts, "unknown-ts"));
    line.append(" pid=");
    let p = u64_to_string(pid as u64);
    line.append(p.as_str());
    line.append(" tid=");
    line.append(text_or(tid, "unnamed"));
    line.append(" ");
    line
}

/// The line of the debug log for `message`, written at time `ts` by process `pid` on thread
/// `tid`.
pub fn debug_log_line(ts: Option<&str>, pid: u32, tid: Option<&str>, message: &str) -> (r: String)
    ensures
        r@ == debug_line(opt_str(ts), pid, opt_str(tid), message@),
{
    let mut line = line_head(ts, pid, tid);
    line.append(message);
    line.append("\n");
    line
}

/// The note written to the fallback log when the daily log at `primary` (if any) could not be
/// written.
pub open spec fn fallback_notice(
    ts: Option<Seq<char>>,
    pid: u32,
    tid: Option<Seq<char>>,
    primary: Option<Seq<char>>,
) -> Seq<char> {
    "ts="@ + or_else(ts, "unknown-ts"@) + " pid="@ + decimal(pid as nat) + " tid="@ + or_else(
        tid,
        "unnamed"@,
    ) + " "@ + "stage=logger event_id=system msg=\"primary log path unavailable\" primary_path="@
        + or_else(primary, "<none>"@) + " fallback_path="@ + DEBUG_LOG_FALLBACK_PATH@ + "\n"@
}

/// The note written to the fallback log when the daily log could not be written.
pub fn fallback_notice_line(
    ts: Option<&str>,
    pid: u32,
    tid: Option<&str>,
    primary: Option<&str>,
) -> (r: String)
    ensures
        r@ == fallback_notice(opt_str(ts), pid, opt_str(tid), opt_str(primary)),
{
    let mut line = line_head(ts, pid, tid);
    line.append("stage=logger event_id=system msg=\"primary log path unavailable\" primary_path=",
    );
    line.append(text_or(primary, "<none>"));
    line.append(" fallback_path=");
    line.append(DEBUG_LOG_FALLBACK_PATH);
    line.append("\n");
    line
}

/// The daily debug log for the date stamp `date` (such as `20250131`).
pub open spec fn daily_log_path(date: Seq<char>) -> Seq<char> {
    std_join(DEBUG_LOG_DIR@, "markholo-"@ + date + ".log"@)
}

/// The daily debug log, where the date is known.
pub fn primary_debug_log_path(date: Option<&str>) -> (r: Option<String>)
    ensures
        match date {
            Some(d) => r matches Some(p) && p@ == daily_log_path(d@),
            None => r is None,
        },
{
    match date {
        Some(d) => {
            let name = concat3("markholo-", d, ".log");
            Some(path_join(DEBUG_LOG_DIR, name.as_str()))
        },
        None => None,
    }
}

} // verus!
