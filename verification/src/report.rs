//! Where a report goes and what it holds. Writing it is the caller's part.

use crate::catalog::Operation;
use crate::text::{decimal, decimal_chars, from_chars, push_all, push_str};
use vstd::prelude::*;

verus! {

/// The moment a report is written, in local time.
#[derive(Debug, Clone, Copy, PartialEq, Eq, Structural)]
pub struct Timestamp {
    pub year: u16,
    pub month: u8,
    pub day: u8,
    pub hour: u8,
    pub minute: u8,
    pub second: u8,
}

/// Where the reports are kept.
#[derive(Debug, Clone)]
pub struct ReportSaver {
    pub base_dir: String,
}

/// The flags by which a report names the operation it is about; a custom
/// command has no report.
pub open spec fn tag_of(op: Operation) -> Option<Seq<char>> {
    match op {
        Operation::Update => Some("Syu"@),
        Operation::Install => Some("S"@),
        Operation::Remove => Some("Rns"@),
        Operation::Custom => None,
    }
}

/// The flags by which a report names the operation it is about.
pub fn operation_tag(op: Operation) -> (tag: Option<&'static str>)
    ensures
        match tag {
            Some(t) => tag_of(op) == Some(t@),
            None => tag_of(op) is None,
        },
{
    match op {
        Operation::Update => Some("Syu"),
        Operation::Install => Some("S"),
        Operation::Remove => Some("Rns"),
        Operation::Custom => None,
    }
}

/// A number in at least two digits.
pub open spec fn two_digits(n: nat) -> Seq<char> {
    if n < 10 {
        "0"@ + decimal(n)
    } else {
        decimal(n)
    }
}

/// The directory of the reports of one day: `base/YYYY/MM/DD`.
pub open spec fn report_dir_of(base: Seq<char>, t: Timestamp) -> Seq<char> {
    base + "/"@ + decimal(t.year as nat) + "/"@ + two_digits(t.month as nat) + "/"@ + two_digits(
        t.day as nat,
    )
}

/// The name of a report's file: `HH-MM.md`.
pub open spec fn report_name_of(t: Timestamp) -> Seq<char> {
    two_digits(t.hour as nat) + "-"@ + two_digits(t.minute as nat) + ".md"@
}

/// The time as the report's head states it: `YYYY-MM-DD HH:MM:SS`.
pub open spec fn stamp_text(t: Timestamp) -> Seq<char> {
    decimal(t.year as nat) + "-"@ + two_digits(t.month as nat) + "-"@ + two_digits(t.day as nat)
        + " "@ + two_digits(t.hour as nat) + ":"@ + two_digits(t.minute as nat) + ":"@
        + two_digits(t.second as nat)
}

/// What a report holds: a head with the distribution, the operation and the
/// time, then the analysis.
pub open spec fn report_text(
    content: Seq<char>,
    distro: Seq<char>,
    operation: Seq<char>,
    t: Timestamp,
) -> Seq<char> {
    "# "@ + distro + " 更新报告\n\n**操作**: -"@ + operation + "\n\n**生成时间**: "@ + stamp_text(t)
        + "\n\n---\n\n"@ + content
}

fn push_two(out: &mut Vec<char>, n: u8)
    ensures
        final(out)@ == old(out)@ + two_digits(n as nat),
{
    if n < 10 {
        push_str(out, "0");
    }
    let d = decimal_chars(n as usize);
    push_all(out, d.as_slice());
    assert(out@ =~= old(out)@ + two_digits(n as nat));
}

fn push_number(out: &mut Vec<char>, n: u16)
    ensures
        final(out)@ == old(out)@ + decimal(n as nat),
{
    let d = decimal_chars(n as usize);
    push_all(out, d.as_slice());
}

fn push_stamp(out: &mut Vec<char>, t: Timestamp)
    ensures
        final(out)@ == old(out)@ + stamp_text(t),
{
    push_number(out, t.year);
    push_str(out, "-");
    push_two(out, t.month);
    push_str(out, "-");
    push_two(out, t.day);
    push_str(out, " ");
    push_two(out, t.hour);
    push_str(out, ":");
    push_two(out, t.minute);
    push_str(out, ":");
    push_two(out, t.second);
    assert(out@ =~= old(out)@ + stamp_text(t));
}

impl ReportSaver {
    pub fn new(base_dir: String) -> (s: ReportSaver)
        ensures
            s.base_dir == base_dir,
    {
        ReportSaver { base_dir }
    }

    /// The directory for a report written at `t`.
    pub fn directory(&self, t: Timestamp) -> (dir: String)
        ensures
            dir@ == report_dir_of(self.base_dir@, t),
    {
        let mut out: Vec<char> = Vec::new();
        push_str(&mut out, self.base_dir.as_str());
        push_str(&mut out, "/");
        push_number(&mut out, t.year);
        push_str(&mut out, "/");
        push_two(&mut out, t.month);
        push_str(&mut out, "/");
        push_two(&mut out, t.day);
        assert(out@ =~= report_dir_of(self.base_dir@, t));
        from_chars(out.as_slice())
    }

    /// The file name for a report written at `t`.
    pub fn file_name(t: Timestamp) -> (name: String)
        ensures
            name@ == report_name_of(t),
    {
        let mut out: Vec<char> = Vec::new();
        push_two(&mut out, t.hour);
        push_str(&mut out, "-");
        push_two(&mut out, t.minute);
        push_str(&mut out, ".md");
        assert(out@ =~= report_name_of(t));
        from_chars(out.as_slice())
    }

    /// The text of a report written at `t`.
    pub fn document(content: &str, distro: &str, operation: &str, t: Timestamp) -> (text: String)
        ensures
            text@ == report_text(content@, distro@, operation@, t),
    {
        let mut out: Vec<char> = Vec::new();
        push_str(&mut out, "# ");
        push_str(&mut out, distro);
        push_str(&mut out, " 更新报告\n\n**操作**: -");
        push_str(&mut out, operation);
        push_str(&mut out, "\n\n**生成时间**: ");
        push_stamp(&mut out, t);
        push_str(&mut out, "\n\n---\n\n");
        push_str(&mut out, content);
        assert(out@ =~= report_text(content@, distro@, operation@, t));
        from_chars(out.as_slice())
    }
}

} // verus!
