use vstd::prelude::*;
use crate::config::BackupJobConfig;

verus! {

/// The severity of a log line.
#[derive(Clone, Copy, Debug, PartialEq, Eq, Structural)]
pub enum LogLevel {
    Info,
    Error,
}

/// One line for the log sink.
#[derive(Clone, Debug)]
pub struct LogLine {
    pub level: LogLevel,
    pub text: String,
}

/// What one backup invocation reported on its standard output.
#[derive(Clone, Debug)]
pub enum BackupReport {
    /// The output was a result object; each field holds the JSON text of one member.
    Summary { files_new: String, files_changed: String, total_duration: String },
    /// The output could not be read as a result object; it is kept verbatim.
    Unparsed { raw: String },
}

/// The decimal digit for `d` below ten.
pub open spec fn digit_char(d: nat) -> char {
    if d == 0 { '0' }
    else if d == 1 { '1' }
    else if d == 2 { '2' }
    else if d == 3 { '3' }
    else if d == 4 { '4' }
    else if d == 5 { '5' }
    else if d == 6 { '6' }
    else if d == 7 { '7' }
    else if d == 8 { '8' }
    else { '9' }
}

/// The decimal digits of `n`, most significant first, without leading zeros.
pub open spec fn decimal(n: nat) -> Seq<char>
    decreases n,
{
    if n < 10 {
        seq![digit_char(n)]
    } else {
        decimal(n / 10).push(digit_char(n % 10))
    }
}

fn digit_str(d: u64) -> (r: &'static str)
    requires
        d < 10,
    ensures
        r@ == seq![digit_char(d as nat)],
{
    proof {
        reveal_strlit("0");
        reveal_strlit("1");
        reveal_strlit("2");
        reveal_strlit("3");
        reveal_strlit("4");
        reveal_strlit("5");
        reveal_strlit("6");
        reveal_strlit("7");
        reveal_strlit("8");
        reveal_strlit("9");
    }
    if d == 0 { "0" }
    else if d == 1 { "1" }
    else if d == 2 { "2" }
    else if d == 3 { "3" }
    else if d == 4 { "4" }
    else if d == 5 { "5" }
    else if d == 6 { "6" }
    else if d == 7 { "7" }
    else if d == 8 { "8" }
    else { "9" }
}

/// `n` written in decimal.
pub fn decimal_text(n: u64) -> (r: String)
    ensures
        r@ == decimal(n as nat),
    decreases n,
{
    if n < 10 {
        String::from_str(digit_str(n))
    } else {
        let mut s = decimal_text(n / 10);
        s.append(digit_str(n % 10));
        s
    }
}

/// The line logged when a cycle starts.
pub open spec fn scheduled_text(path: Seq<char>, throttle: u64) -> Seq<char> {
    "FS Changes detected on "@ + path + ", backup scheduled in "@ + decimal(throttle as nat) + " seconds."@
}

/// The line logged when the throttle has run out and the tool is started.
pub open spec fn initiating_text(name: Seq<char>, path: Seq<char>) -> Seq<char> {
    name + " Backup on "@ + path + " initiating."@
}

/// The line logged once a job's change source is subscribed.
pub open spec fn watching_text(name: Seq<char>, path: Seq<char>, throttle: u64) -> Seq<char> {
    "Started FSEvent monitoring on "@ + path + " named "@ + name + " - interval="@ + decimal(throttle as nat)
}

/// The summary of a completed backup.
pub open spec fn summary_text(files_new: Seq<char>, files_changed: Seq<char>, total_duration: Seq<char>) -> Seq<char> {
    "Backup Complete. - "@ + files_new + " new, "@ + files_changed + " changed, finished in "@ + total_duration
        + " seconds."@
}

/// The error logged when the tool's output is not JSON.
pub open spec fn unparsed_text(raw: Seq<char>) -> Seq<char> {
    "Unable to parse restic response json: Raw resp: "@ + raw
}

/// The text that `report_line` logs for a report.
pub open spec fn report_text(report: BackupReport) -> Seq<char> {
    match report {
        BackupReport::Summary { files_new, files_changed, total_duration } => summary_text(
            files_new@,
            files_changed@,
            total_duration@,
        ),
        BackupReport::Unparsed { raw } => unparsed_text(raw@),
    }
}

/// The line logged when a cycle starts.
pub fn scheduled_line(job: &BackupJobConfig) -> (r: String)
    ensures
        r@ == scheduled_text(job.path@, job.throttle),
{
    let mut r = String::from_str("FS Changes detected on ");
    r.append(job.path.as_str());
    r.append(", backup scheduled in ");
    let n = decimal_text(job.throttle);
    r.append(n.as_str());
    r.append(" seconds.");
    r
}

/// The line logged when the tool is started for the job.
pub fn initiating_line(job: &BackupJobConfig) -> (r: String)
    ensures
        r@ == initiating_text(job.name@, job.path@),
{
    let mut r = job.name.clone();
    r.append(" Backup on ");
    r.append(job.path.as_str());
    r.append(" initiating.");
    r
}

/// The line logged once the job's change source is subscribed.
pub fn watching_line(job: &BackupJobConfig) -> (r: String)
    ensures
        r@ == watching_text(job.name@, job.path@, job.throttle),
{
    let mut r = String::from_str("Started FSEvent monitoring on ");
    r.append(job.path.as_str());
    r.append(" named ");
    r.append(job.name.as_str());
    r.append(" - interval=");
    let n = decimal_text(job.throttle);
    r.append(n.as_str());
    r
}

/// The log line for a report: a summary at info level, or the raw output at error level.
pub fn report_line(report: &BackupReport) -> (r: LogLine)
    ensures
        r.text@ == report_text(*report),
        r.level == (match report {
            BackupReport::Summary { .. } => LogLevel::Info,
            BackupReport::Unparsed { .. } => LogLevel::Error,
        }),
{
    match report {
        BackupReport::Summary { files_new, files_changed, total_duration } => {
            let mut t = String::from_str("Backup Complete. - ");
            t.append(files_new.as_str());
            t.append(" new, ");
            t.append(files_changed.as_str());
            t.append(" changed, finished in ");
            t.append(total_duration.as_str());
            t.append(" seconds.");
            LogLine { level: LogLevel::Info, text: t }
        },
        BackupReport::Unparsed { raw } => {
            let mut t = String::from_str("Unable to parse restic response json: Raw resp: ");
            t.append(raw.as_str());
            LogLine { level: LogLevel::Error, text: t }
        },
    }
}

/// The summary line reports the three values unchanged: each can be read back
/// from its place in the line.
pub proof fn lemma_summary_reports_values(files_new: Seq<char>, files_changed: Seq<char>, total_duration: Seq<char>)
    ensures
        ({
            let line = summary_text(files_new, files_changed, total_duration);
            let a: int = 19 + files_new.len() as int;
            let b: int = a + 6 + files_changed.len() as int;
            let c: int = b + 22 + total_duration.len() as int;
            &&& line.len() == c + 9
            &&& line.subrange(19, a) == files_new
            &&& line.subrange(a + 6, b) == files_changed
            &&& line.subrange(b + 22, c) == total_duration
        }),
{
    reveal_strlit("Backup Complete. - ");
    reveal_strlit(" new, ");
    reveal_strlit(" changed, finished in ");
    reveal_strlit(" seconds.");
    let line = summary_text(files_new, files_changed, total_duration);
    let a: int = 19 + files_new.len() as int;
    let b: int = a + 6 + files_changed.len() as int;
    let c: int = b + 22 + total_duration.len() as int;
    assert(line.subrange(19, a) =~= files_new);
    assert(line.subrange(a + 6, b) =~= files_changed);
    assert(line.subrange(b + 22, c) =~= total_duration);
}

/// An unparsed report logs the raw output verbatim at the end of its line, and
/// that line is never a summary line.
pub proof fn lemma_unparsed_reported_verbatim(raw: Seq<char>, files_new: Seq<char>, files_changed: Seq<char>, total_duration: Seq<char>)
    ensures
        unparsed_text(raw).len() == 48 + raw.len(),
        unparsed_text(raw).subrange(48, 48 + raw.len() as int) == raw,
        unparsed_text(raw) != summary_text(files_new, files_changed, total_duration),
{
    reveal_strlit("Unable to parse restic response json: Raw resp: ");
    reveal_strlit("Backup Complete. - ");
    assert(unparsed_text(raw).subrange(48, 48 + raw.len() as int) =~= raw);
    assert(unparsed_text(raw)[0] != summary_text(files_new, files_changed, total_duration)[0]);
}

/// Whether `text` is one JSON document, as serde_json reads it.
pub uninterp spec fn json_parses(text: Seq<char>) -> bool;

/// Whether the document `text` is an object with a member named `key`.
pub uninterp spec fn json_has_member(text: Seq<char>, key: Seq<char>) -> bool;

/// The compact JSON text of member `key` of the document `text`.
pub uninterp spec fn json_member_text(text: Seq<char>, key: Seq<char>) -> Seq<char>;

/// Relies on `serde_json::from_str::<serde_json::Value>`, which succeeds exactly
/// when the whole text is one JSON document, on `Value::get` with a `&str`, which
/// finds the member of an object (nothing for any other value or a missing
/// member), and on `Value`'s `Display`: the member's compact JSON text.
#[verifier::external_body]
fn json_member(text: &str, key: &str) -> (r: Option<String>)
    ensures
        r.is_some() == (json_parses(text@) && json_has_member(text@, key@)),
        r matches Some(m) ==> m@ == json_member_text(text@, key@),
{
    match serde_json::from_str::<serde_json::Value>(text) {
        Ok(v) => v.get(key).map(|m| m.to_string()),
        Err(_) => None,
    }
}

/// The tool's output is a result: one JSON object with the new-file count, the
/// changed-file count and the duration.
pub open spec fn is_result(text: Seq<char>) -> bool {
    &&& json_parses(text)
    &&& json_has_member(text, "files_new"@)
    &&& json_has_member(text, "files_changed"@)
    &&& json_has_member(text, "total_duration"@)
}

/// Reads the tool's machine-readable output: a summary when it is a result
/// object, else the raw text.
pub fn summarize_output(stdout: &str) -> (r: BackupReport)
    ensures
        is_result(stdout@) ==> (r matches BackupReport::Summary { files_new, files_changed, total_duration }
            && files_new@ == json_member_text(stdout@, "files_new"@)
            && files_changed@ == json_member_text(stdout@, "files_changed"@)
            && total_duration@ == json_member_text(stdout@, "total_duration"@)),
        !is_result(stdout@) ==> (r matches BackupReport::Unparsed { raw } && raw@ == stdout@),
{
    let files_new = json_member(stdout, "files_new");
    let files_changed = json_member(stdout, "files_changed");
    let total_duration = json_member(stdout, "total_duration");
    match (files_new, files_changed, total_duration) {
        (Some(files_new), Some(files_changed), Some(total_duration)) => BackupReport::Summary {
            files_new,
            files_changed,
            total_duration,
        },
        _ => BackupReport::Unparsed { raw: String::from_str(stdout) },
    }
}

/// The log line for the tool's output: at info level the summary of the three
/// members when it is a result object, else at error level the raw text.
pub fn output_line(stdout: &str) -> (r: LogLine)
    ensures
        is_result(stdout@) ==> r.level == LogLevel::Info && r.text@ == summary_text(
            json_member_text(stdout@, "files_new"@),
            json_member_text(stdout@, "files_changed"@),
            json_member_text(stdout@, "total_duration"@),
        ),
        !is_result(stdout@) ==> r.level == LogLevel::Error && r.text@ == unparsed_text(stdout@),
{
    let report = summarize_output(stdout);
    report_line(&report)
}

} // verus!
