//! The description of the machine that goes into an analysis request.
//!
//! Running the probing commands is the caller's part; what they printed is
//! read here.

use crate::text::{
    find_char, find_from, from_chars, join, join_rows, lemma_rows_push, lines, owned, push_all,
    push_str, rows, slice_chars, split_lines, split_tokens, to_chars, tokens, trim, trim_chars,
};
use vstd::prelude::*;

verus! {

/// What stands for a value that could not be found out.
pub const UNKNOWN: &'static str = "未知";

/// The machine as far as an analysis cares.
#[derive(Debug, Clone)]
pub struct SystemInfo {
    pub kernel: String,
    pub distro: String,
    pub gpu: String,
    pub desktop: String,
    pub display_protocol: String,
    pub cpu: String,
    pub memory: String,
}

/// What the probing commands printed, `None` where one failed or a variable
/// is not set.
#[derive(Debug, Clone)]
pub struct SystemProbe {
    /// `uname -r`.
    pub kernel: Option<String>,
    /// The `PRETTY_NAME` line of the OS release file.
    pub os_release: Option<String>,
    /// The VGA lines of the PCI listing.
    pub vga: Option<String>,
    /// The desktop named by the session's environment.
    pub desktop: Option<String>,
    /// The session type named by the environment.
    pub session_type: Option<String>,
    /// The model-name line of the CPU listing.
    pub cpu_model: Option<String>,
    /// The memory line of the memory listing.
    pub memory: Option<String>,
}

/// The output of a command, trimmed; unknown when it failed.
pub open spec fn command_value(out: Option<String>) -> Seq<char> {
    match out {
        Some(s) => trim(s@),
        None => UNKNOWN@,
    }
}

/// The output of a shell pipeline, trimmed; unknown when it failed or
/// printed nothing.
pub open spec fn shell_value(out: Option<String>) -> Seq<char> {
    match out {
        Some(s) => if trim(s@).len() == 0 {
            UNKNOWN@
        } else {
            trim(s@)
        },
        None => UNKNOWN@,
    }
}

/// The second of the pieces that `sep` cuts `s` into, if there are two.
pub open spec fn second_piece(s: Seq<char>, sep: char) -> Option<Seq<char>> {
    let p = find_from(s, 0, sep);
    if p >= s.len() {
        None
    } else {
        Some(s.subrange(p + 1, find_from(s, p + 1, sep)))
    }
}

/// Index of the first character from `from` on that is not `c`.
pub open spec fn skip_char(s: Seq<char>, from: int, c: char) -> int
    decreases s.len() - from,
{
    if from >= s.len() {
        s.len() as int
    } else if s[from] != c {
        from
    } else {
        skip_char(s, from + 1, c)
    }
}

/// One past the last character before `to` that is not `c`.
pub open spec fn skip_char_back(s: Seq<char>, to: int, c: char) -> int
    decreases to,
{
    if to <= 0 {
        0
    } else if s[to - 1] != c {
        to
    } else {
        skip_char_back(s, to - 1, c)
    }
}

/// `s` without the `c` at its two ends.
pub open spec fn strip_char(s: Seq<char>, c: char) -> Seq<char> {
    let a = skip_char(s, 0, c);
    let e = skip_char_back(s, s.len() as int, c);
    if a >= e {
        Seq::empty()
    } else {
        s.subrange(a, e)
    }
}

/// The distribution's name out of `PRETTY_NAME="..."`.
pub open spec fn distro_of(raw: Seq<char>) -> Seq<char> {
    match second_piece(raw, '=') {
        Some(v) => strip_char(v, '"'),
        None => raw,
    }
}

/// The value after the first colon, trimmed; the whole when there is no
/// colon.
pub open spec fn cpu_of(raw: Seq<char>) -> Seq<char> {
    match second_piece(raw, ':') {
        Some(v) => trim(v),
        None => raw,
    }
}

/// Total and used memory out of the memory line.
pub open spec fn memory_of(raw: Seq<char>) -> Seq<char> {
    let parts = tokens(raw);
    if parts.len() >= 3 {
        parts[1] + " (已用 "@ + parts[2] + ")"@
    } else {
        raw
    }
}

/// Index of the first `": "` at or after `from`, or `s.len()`.
pub open spec fn find_colon_space(s: Seq<char>, from: int) -> int
    decreases s.len() - from,
{
    if from >= s.len() {
        s.len() as int
    } else if s[from] == ':' && from + 1 < s.len() && s[from + 1] == ' ' {
        from
    } else {
        find_colon_space(s, from + 1)
    }
}

/// The device named on one line of the PCI listing: what stands between the
/// first and the second `": "`.
pub open spec fn device_of(line: Seq<char>) -> Option<Seq<char>> {
    let p = find_colon_space(line, 0);
    if p >= line.len() {
        None
    } else {
        let q = find_colon_space(line, p + 2);
        if q < p + 2 {
            None
        } else {
            Some(trim(line.subrange(p + 2, q)))
        }
    }
}

pub open spec fn devices_of(ls: Seq<Seq<char>>) -> Seq<Seq<char>>
    decreases ls.len(),
{
    if ls.len() == 0 {
        Seq::empty()
    } else {
        match device_of(ls.last()) {
            Some(d) => devices_of(ls.drop_last()).push(d),
            None => devices_of(ls.drop_last()),
        }
    }
}

/// The graphics devices of the PCI listing, joined by `"; "`.
pub open spec fn gpu_of(raw: Seq<char>) -> Seq<char> {
    join(devices_of(lines(raw)), "; "@)
}

fn command_text(out: &Option<String>) -> (v: Vec<char>)
    ensures
        v@ == command_value(*out),
{
    match out {
        Some(s) => {
            let c = to_chars(s.as_str());
            trim_chars(c.as_slice())
        },
        None => to_chars(UNKNOWN),
    }
}

fn shell_text(out: &Option<String>) -> (v: Vec<char>)
    ensures
        v@ == shell_value(*out),
{
    match out {
        Some(s) => {
            let c = to_chars(s.as_str());
            let t = trim_chars(c.as_slice());
            if t.len() == 0 {
                to_chars(UNKNOWN)
            } else {
                t
            }
        },
        None => to_chars(UNKNOWN),
    }
}

fn second_of(s: &[char], sep: char) -> (r: Option<Vec<char>>)
    ensures
        match r {
            Some(v) => second_piece(s@, sep) == Some(v@),
            None => second_piece(s@, sep) is None,
        },
{
    let p = find_char(s, 0, sep);
    if p >= s.len() {
        None
    } else {
        let q = find_char(s, p + 1, sep);
        Some(slice_chars(s, p + 1, q))
    }
}

fn strip(s: &[char], c: char) -> (v: Vec<char>)
    ensures
        v@ == strip_char(s@, c),
{
    let mut a: usize = 0;
    while a < s.len() && s[a] == c
        invariant
            a <= s.len(),
            skip_char(s@, 0, c) == skip_char(s@, a as int, c),
        decreases s.len() - a,
    {
        a += 1;
    }
    let mut e: usize = s.len();
    while e > 0 && s[e - 1] == c
        invariant
            e <= s.len(),
            skip_char_back(s@, s@.len() as int, c) == skip_char_back(s@, e as int, c),
        decreases e,
    {
        e -= 1;
    }
    if a >= e {
        Vec::new()
    } else {
        slice_chars(s, a, e)
    }
}

fn colon_space(s: &[char], from: usize) -> (r: usize)
    requires
        from <= s.len(),
    ensures
        r == find_colon_space(s@, from as int),
        from <= r <= s.len(),
        r < s.len() ==> r + 2 <= s.len(),
{
    let mut i: usize = from;
    while i < s.len()
        invariant
            from <= i <= s.len(),
            find_colon_space(s@, from as int) == find_colon_space(s@, i as int),
        decreases s.len() - i,
    {
        if s[i] == ':' && i + 1 < s.len() && s[i + 1] == ' ' {
            return i;
        }
        i += 1;
    }
    i
}

fn device(line: &[char]) -> (r: Option<Vec<char>>)
    ensures
        match r {
            Some(v) => device_of(line@) == Some(v@),
            None => device_of(line@) is None,
        },
{
    let p = colon_space(line, 0);
    if p >= line.len() {
        None
    } else {
        let q = colon_space(line, p + 2);
        let part = slice_chars(line, p + 2, q);
        Some(trim_chars(part.as_slice()))
    }
}

impl SystemInfo {
    /// The distribution's name out of the `PRETTY_NAME` line.
    pub fn get_distro(raw: &str) -> (s: String)
        ensures
            s@ == distro_of(raw@),
    {
        let c = to_chars(raw);
        match second_of(c.as_slice(), '=') {
            Some(v) => {
                let d = strip(v.as_slice(), '"');
                from_chars(d.as_slice())
            },
            None => owned(raw),
        }
    }

    /// The graphics devices out of the VGA lines of the PCI listing.
    pub fn get_gpu(raw: &str) -> (s: String)
        ensures
            s@ == gpu_of(raw@),
    {
        let c = to_chars(raw);
        let ls = split_lines(c.as_slice());
        let mut found: Vec<Vec<char>> = Vec::new();
        let mut i: usize = 0;
        proof {
            assert(rows(found@) =~= Seq::<Seq<char>>::empty());
            assert(rows(ls@).take(0) =~= Seq::<Seq<char>>::empty());
        }
        while i < ls.len()
            invariant
                i <= ls.len(),
                rows(found@) == devices_of(rows(ls@).take(i as int)),
            decreases ls.len() - i,
        {
            proof {
                let next = rows(ls@).take(i + 1);
                assert(next.drop_last() =~= rows(ls@).take(i as int));
                assert(next.last() == ls@[i as int]@);
            }
            match device(ls[i].as_slice()) {
                Some(d) => {
                    proof {
                        lemma_rows_push(found@, d);
                    }
                    found.push(d);
                },
                None => {},
            }
            i += 1;
        }
        assert(rows(ls@).take(ls.len() as int) =~= rows(ls@));
        let joined = join_rows(&found, "; ");
        from_chars(joined.as_slice())
    }

    /// The CPU's name out of the model-name line.
    pub fn get_cpu(raw: &str) -> (s: String)
        ensures
            s@ == cpu_of(raw@),
    {
        let c = to_chars(raw);
        match second_of(c.as_slice(), ':') {
            Some(v) => {
                let t = trim_chars(v.as_slice());
                from_chars(t.as_slice())
            },
            None => owned(raw),
        }
    }

    /// Total and used memory out of the memory line.
    pub fn get_memory(raw: &str) -> (s: String)
        ensures
            s@ == memory_of(raw@),
    {
        let c = to_chars(raw);
        let parts = split_tokens(c.as_slice());
        if parts.len() >= 3 {
            assert(rows(parts@)[1] == parts@[1]@);
            assert(rows(parts@)[2] == parts@[2]@);
            let mut out: Vec<char> = Vec::new();
            push_all(&mut out, parts[1].as_slice());
            push_str(&mut out, " (已用 ");
            push_all(&mut out, parts[2].as_slice());
            push_str(&mut out, ")");
            assert(out@ =~= memory_of(raw@));
            from_chars(out.as_slice())
        } else {
            owned(raw)
        }
    }

    /// Reads what the probing commands printed.
    pub fn detect(probe: &SystemProbe) -> (info: SystemInfo)
        ensures
            info.kernel@ == command_value(probe.kernel),
            info.distro@ == distro_of(shell_value(probe.os_release)),
            info.gpu@ == gpu_of(shell_value(probe.vga)),
            info.desktop@ == match probe.desktop {
                Some(d) => d@,
                None => UNKNOWN@,
            },
            info.display_protocol@ == match probe.session_type {
                Some(d) => d@,
                None => UNKNOWN@,
            },
            info.cpu@ == cpu_of(shell_value(probe.cpu_model)),
            info.memory@ == memory_of(shell_value(probe.memory)),
    {
        let kernel = command_text(&probe.kernel);
        let os = from_chars(shell_text(&probe.os_release).as_slice());
        let vga = from_chars(shell_text(&probe.vga).as_slice());
        let cpu = from_chars(shell_text(&probe.cpu_model).as_slice());
        let mem = from_chars(shell_text(&probe.memory).as_slice());
        SystemInfo {
            kernel: from_chars(kernel.as_slice()),
            distro: SystemInfo::get_distro(os.as_str()),
            gpu: SystemInfo::get_gpu(vga.as_str()),
            desktop: match &probe.desktop {
                Some(d) => d.clone(),
                None => owned(UNKNOWN),
            },
            display_protocol: match &probe.session_type {
                Some(d) => d.clone(),
                None => owned(UNKNOWN),
            },
            cpu: SystemInfo::get_cpu(cpu.as_str()),
            memory: SystemInfo::get_memory(mem.as_str()),
        }
    }
}

/// The section of an analysis request that describes the machine.
pub open spec fn prompt_section(info: SystemInfo) -> Seq<char> {
    "## 系统环境信息\n- 发行版: "@ + info.distro@ + "\n- 内核: "@ + info.kernel@ + "\n- CPU: "@
        + info.cpu@ + "\n- 内存: "@ + info.memory@ + "\n- 显卡: "@ + info.gpu@ + "\n- 桌面环境: "@
        + info.desktop@ + "\n- 显示协议: "@ + info.display_protocol@
}

impl SystemInfo {
    /// The section of an analysis request that describes the machine.
    pub fn to_prompt_section(&self) -> (s: String)
        ensures
            s@ == prompt_section(*self),
    {
        let mut out: Vec<char> = Vec::new();
        push_str(&mut out, "## 系统环境信息\n- 发行版: ");
        push_str(&mut out, self.distro.as_str());
        push_str(&mut out, "\n- 内核: ");
        push_str(&mut out, self.kernel.as_str());
        push_str(&mut out, "\n- CPU: ");
        push_str(&mut out, self.cpu.as_str());
        push_str(&mut out, "\n- 内存: ");
        push_str(&mut out, self.memory.as_str());
        push_str(&mut out, "\n- 显卡: ");
        push_str(&mut out, self.gpu.as_str());
        push_str(&mut out, "\n- 桌面环境: ");
        push_str(&mut out, self.desktop.as_str());
        push_str(&mut out, "\n- 显示协议: ");
        push_str(&mut out, self.display_protocol.as_str());
        assert(out@ =~= prompt_section(*self));
        from_chars(out.as_slice())
    }
}

} // verus!
