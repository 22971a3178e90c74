//! Run reports: the timing and command data handed out after a finished run,
//! and the formatting of that data into a console block.

use vstd::prelude::*;
use vstd::arithmetic::div_mod::lemma_fundamental_div_mod;
use vstd::string::StringExecFns;

verus! {

/// What is reported after a run that finished on its own (success or
/// failure; a cancelled run is never reported): when it started, how long it
/// took, where it ran, and what was run.
#[derive(Clone, Debug, PartialEq, Eq)]
pub struct RunReport {
    /// Milliseconds since the epoch at which the run was started.
    pub started_at: u64,
    /// Milliseconds from start to completion.
    pub elapsed_ms: u64,
    /// The directory the command asked to run in, if it named one.
    pub directory: Option<String>,
    /// The invocation line of the command that ran.
    pub command_label: String,
}

/// The decimal digit character for a value below ten.
pub open spec fn digit_char(d: int) -> char {
    if d == 0 {
        '0'
    } else if d == 1 {
        '1'
    } else if d == 2 {
        '2'
    } else if d == 3 {
        '3'
    } else if d == 4 {
        '4'
    } else if d == 5 {
        '5'
    } else if d == 6 {
        '6'
    } else if d == 7 {
        '7'
    } else if d == 8 {
        '8'
    } else {
        '9'
    }
}

/// The decimal digits of a number, most significant first, no leading
/// zeroes (a lone zero for zero itself).
pub open spec fn spec_digits(n: nat) -> Seq<char>
    decreases n,
{
    if n < 10 {
        seq![digit_char(n as int)]
    } else {
        spec_digits(n / 10).push(digit_char((n % 10) as int))
    }
}

/// A number below one hundred as exactly two digits, zero-padded.
pub open spec fn spec_two_digits(n: nat) -> Seq<char> {
    if n < 10 {
        seq!['0'] + spec_digits(n)
    } else {
        spec_digits(n)
    }
}

/// The single decimal digit character of `d`.
fn digit_string(d: u64) -> (r: String)
    requires
        d < 10,
    ensures
        r@ == seq![digit_char(d as int)],
{
    let r = if d == 0 {
        String::from_str("0")
    } else if d == 1 {
        String::from_str("1")
    } else if d == 2 {
        String::from_str("2")
    } else if d == 3 {
        String::from_str("3")
    } else if d == 4 {
        String::from_str("4")
    } else if d == 5 {
        String::from_str("5")
    } else if d == 6 {
        String::from_str("6")
    } else if d == 7 {
        String::from_str("7")
    } else if d == 8 {
        String::from_str("8")
    } else {
        String::from_str("9")
    };
    proof {
        reveal_strlit("0");
        reveal_strlit("1");
        reveal_strlit("2");
        reveal_strlit("3");
        reveal_strlit("4");
        reveal_strlit("5");
        reveal_strlit("6");
        reveal_strlit("7");
        reveal_strlit("8");
        reveal_strlit("9");
        assert(r@ =~= seq![digit_char(d as int)]);
    }
    r
}

/// A number in decimal, most significant digit first.
pub fn u64_string(n: u64) -> (r: String)
    ensures
        r@ == spec_digits(n as nat),
    decreases n,
{
    if n < 10 {
        digit_string(n)
    } else {
        let mut s = u64_string(n / 10);
        let d = digit_string(n % 10);
        s.append(d.as_str());
        proof {
            assert(s@ =~= spec_digits(n as nat));
        }
        s
    }
}

/// A number below one hundred as two digits, zero-padded.
pub fn two_digit_string(n: u64) -> (r: String)
    requires
        n < 100,
    ensures
        r@ == spec_two_digits(n as nat),
{
    if n < 10 {
        let mut s = String::from_str("0");
        let d = digit_string(n);
        s.append(d.as_str());
        proof {
            reveal_strlit("0");
            assert(s@ =~= spec_two_digits(n as nat));
        }
        s
    } else {
        u64_string(n)
    }
}

/// The second of the local day a moment falls on, for a moment given in
/// milliseconds since the epoch and a timezone offset in minutes east.
pub open spec fn spec_local_day_secs(epoch_ms: int, offset_minutes: int) -> int {
    (epoch_ms / 1000 + offset_minutes * 60) % 86400
}

/// Compute the second of the local day. The offset is bounded by a day in
/// either direction, and the moment may not fall before the epoch even
/// after shifting.
pub fn local_day_secs(epoch_ms: u64, offset_minutes: i32) -> (r: u64)
    requires
        -1440 <= offset_minutes <= 1440,
        epoch_ms as int / 1000 + offset_minutes as int * 60 >= 0,
    ensures
        r == spec_local_day_secs(epoch_ms as int, offset_minutes as int),
        r < 86400,
{
    proof {
        lemma_fundamental_div_mod(epoch_ms as int, 1000);
    }
    let secs = epoch_ms / 1000;
    if offset_minutes >= 0 {
        let total = secs + (offset_minutes as u64) * 60;
        total % 86400
    } else {
        let west = ((0 - offset_minutes) as u64) * 60;
        let total = secs - west;
        total % 86400
    }
}

/// The clock reading `HH:MM:SS` of a local day second.
pub open spec fn spec_clock(day: int) -> Seq<char> {
    spec_two_digits((day / 3600) as nat) + ":"@ + spec_two_digits(((day % 3600) / 60) as nat)
        + ":"@ + spec_two_digits((day % 60) as nat)
}

/// A timezone offset rendered as `+HH:MM` or `-HH:MM`.
pub open spec fn spec_offset_mark(offset_minutes: int) -> Seq<char> {
    let a = if offset_minutes < 0 {
        -offset_minutes
    } else {
        offset_minutes
    };
    (if offset_minutes < 0 {
        "-"@
    } else {
        "+"@
    }) + spec_two_digits((a / 60) as nat) + ":"@ + spec_two_digits((a % 60) as nat)
}

/// The start-time line: local clock reading followed by the timezone
/// offset, seconds precision.
pub open spec fn spec_time_line(epoch_ms: int, offset_minutes: int) -> Seq<char> {
    spec_clock(spec_local_day_secs(epoch_ms, offset_minutes)) + spec_offset_mark(offset_minutes)
}

/// Render the start-time line for a moment and a timezone offset.
pub fn time_line(epoch_ms: u64, offset_minutes: i32) -> (r: String)
    requires
        -1440 <= offset_minutes <= 1440,
        epoch_ms as int / 1000 + offset_minutes as int * 60 >= 0,
    ensures
        r@ == spec_time_line(epoch_ms as int, offset_minutes as int),
{
    let day = local_day_secs(epoch_ms, offset_minutes);
    proof {
        lemma_fundamental_div_mod(day as int, 3600);
        lemma_fundamental_div_mod((day as int) % 3600, 60);
    }
    let hh = day / 3600;
    let mm = (day % 3600) / 60;
    let ss = day % 60;
    let mut s = two_digit_string(hh);
    s.append(":");
    let m = two_digit_string(mm);
    s.append(m.as_str());
    s.append(":");
    let sec = two_digit_string(ss);
    s.append(sec.as_str());
    let a: u64;
    if offset_minutes < 0 {
        s.append("-");
        a = (0 - offset_minutes) as u64;
    } else {
        s.append("+");
        a = offset_minutes as u64;
    }
    let oh = two_digit_string(a / 60);
    s.append(oh.as_str());
    s.append(":");
    let om = two_digit_string(a % 60);
    s.append(om.as_str());
    proof {
        assert(s@ =~= spec_time_line(epoch_ms as int, offset_minutes as int));
    }
    s
}

/// The delimiter line that opens a report block.
pub open spec fn spec_rule_line() -> Seq<char> {
    "------------------------------------"@
}

/// The directory line of a report block.
pub open spec fn spec_directory_line(dir: Seq<char>) -> Seq<char> {
    "Directory: "@ + dir
}

/// The elapsed line of a report block: the milliseconds in decimal,
/// followed by `ms`.
pub open spec fn spec_elapsed_line(elapsed_ms: nat) -> Seq<char> {
    spec_digits(elapsed_ms) + "ms"@
}

/// The views of a sequence of strings.
pub open spec fn views(v: Seq<String>) -> Seq<Seq<char>> {
    v.map_values(|s: String| s@)
}

/// The lines of a report block: delimiter, start time, the run's directory
/// when it differs from the supervisor's own starting directory, the
/// command label, and the elapsed milliseconds.
pub open spec fn spec_report_lines(
    r: RunReport,
    offset_minutes: int,
    own_dir: Seq<char>,
) -> Seq<Seq<char>> {
    let head = seq![
        spec_rule_line(),
        spec_time_line(r.started_at as int, offset_minutes),
    ];
    let dir_lines = match r.directory {
        Some(d) => if d@ != own_dir {
            seq![spec_directory_line(d@)]
        } else {
            Seq::<Seq<char>>::empty()
        },
        None => Seq::<Seq<char>>::empty(),
    };
    head + dir_lines + seq![r.command_label@, spec_elapsed_line(r.elapsed_ms as nat)]
}

/// Format a run report into its console block.
pub fn format_report(r: &RunReport, offset_minutes: i32, own_dir: &String) -> (lines: Vec<String>)
    requires
        -1440 <= offset_minutes <= 1440,
        r.started_at as int / 1000 + offset_minutes as int * 60 >= 0,
    ensures
        views(lines@) == spec_report_lines(*r, offset_minutes as int, own_dir@),
{
    let mut lines: Vec<String> = Vec::new();
    lines.push(String::from_str("------------------------------------"));
    lines.push(time_line(r.started_at, offset_minutes));
    match &r.directory {
        Some(d) => {
            if !d.eq(own_dir) {
                let mut line = String::from_str("Directory: ");
                line.append(d.as_str());
                lines.push(line);
            }
        },
        None => {},
    }
    lines.push(r.command_label.clone());
    let mut el = u64_string(r.elapsed_ms);
    el.append("ms");
    lines.push(el);
    proof {
        assert(views(lines@) =~= spec_report_lines(*r, offset_minutes as int, own_dir@));
    }
    lines
}

/// Emit a run report, or nothing at all when quiet mode is configured.
pub fn emit_report(r: &RunReport, offset_minutes: i32, own_dir: &String, quiet: bool) -> (out:
    Option<Vec<String>>)
    requires
        -1440 <= offset_minutes <= 1440,
        r.started_at as int / 1000 + offset_minutes as int * 60 >= 0,
    ensures
        quiet ==> out is None,
        !quiet ==> (out matches Some(lines) && views(lines@) == spec_report_lines(
            *r,
            offset_minutes as int,
            own_dir@,
        )),
{
    if quiet {
        None
    } else {
        Some(format_report(r, offset_minutes, own_dir))
    }
}

} // verus!
