//! The progress extractor: label, size, speed and ETA out of one progress
//! line of a package manager.

use crate::text::{
    char_is_digit, contains_str, ends_with, eq_str, find_char, from_chars, has_sub, has_suffix,
    is_digit, join, push_all, push_str, rows, slice_chars,
    split_tokens, to_chars, tokens, trim, trim_chars, find_from,
};
use vstd::prelude::*;

verus! {

/// What one progress line says.
#[derive(Debug, Clone)]
pub struct ProgressInfo {
    /// The trimmed line itself.
    pub raw: String,
    /// Package name or action.
    pub label: String,
    /// Total size, such as `4.50 MiB`.
    pub total_size: String,
    /// Transfer speed, such as `2.10 MiB/s`.
    pub speed: String,
    /// Remaining time, such as `00:23`.
    pub eta: String,
}

/// The mathematical content of a [`ProgressInfo`].
pub struct ProgressView {
    pub raw: Seq<char>,
    pub label: Seq<char>,
    pub total_size: Seq<char>,
    pub speed: Seq<char>,
    pub eta: Seq<char>,
}

impl View for ProgressInfo {
    type V = ProgressView;

    open spec fn view(&self) -> ProgressView {
        ProgressView {
            raw: self.raw@,
            label: self.label@,
            total_size: self.total_size@,
            speed: self.speed@,
            eta: self.eta@,
        }
    }
}

/// Longest label taken from a free-text line before it is cut.
pub const LABEL_LIMIT: usize = 45;

/// Longest raw line shown in the footer before it is cut.
pub const FOOTER_LIMIT: usize = 60;

// ---------------------------------------------------------------------------
// Token classes
// ---------------------------------------------------------------------------

pub open spec fn all_digits(s: Seq<char>) -> bool {
    forall|k: int| 0 <= k < s.len() ==> is_digit(#[trigger] s[k])
}

/// Digits and dots only, at least one character.
pub open spec fn number_token(s: Seq<char>) -> bool {
    s.len() > 0 && forall|k: int| 0 <= k < s.len() ==> (is_digit(#[trigger] s[k]) || s[k] == '.')
}

/// `H:MM`, `HH:MM` and the like: digits, the first colon, exactly two digits.
pub open spec fn time_token(s: Seq<char>) -> bool {
    let p = find_from(s, 0, ':');
    p < s.len() && p > 0 && s.len() - p - 1 == 2 && all_digits(s.subrange(0, p)) && all_digits(
        s.subrange(p + 1, s.len() as int),
    )
}

pub open spec fn speed_unit(s: Seq<char>) -> bool {
    has_sub(s, "iB/s"@) || (has_sub(s, "iB/"@) && s.len() > 0 && s.last() == 's')
}

pub open spec fn size_unit(s: Seq<char>) -> bool {
    has_suffix(s, "iB"@) || s == "B"@
}

/// A drawn progress bar, `[####----]`.
pub open spec fn bar_token(s: Seq<char>) -> bool {
    s.len() > 0 && s[0] == '['
}

/// A bare percentage, `100%`.
pub open spec fn percent_token(s: Seq<char>) -> bool {
    s.len() > 0 && s.last() == '%' && all_digits(s.drop_last())
}

fn digits_only(s: &[char], from: usize, to: usize) -> (r: bool)
    requires
        from <= to <= s.len(),
    ensures
        r == all_digits(s@.subrange(from as int, to as int)),
{
    let mut i: usize = from;
    while i < to
        invariant
            from <= i <= to <= s.len(),
            forall|k: int| from <= k < i ==> is_digit(#[trigger] s@[k]),
        decreases to - i,
    {
        if !char_is_digit(s[i]) {
            assert(!is_digit(s@.subrange(from as int, to as int)[i - from]));
            return false;
        }
        i += 1;
    }
    assert forall|k: int| 0 <= k < to - from implies is_digit(
        #[trigger] s@.subrange(from as int, to as int)[k],
    ) by {
        assert(is_digit(s@[k + from]));
    }
    true
}

pub fn is_number_token(s: &[char]) -> (r: bool)
    ensures
        r == number_token(s@),
{
    if s.len() == 0 {
        return false;
    }
    let mut i: usize = 0;
    while i < s.len()
        invariant
            i <= s.len(),
            forall|k: int| 0 <= k < i ==> (is_digit(#[trigger] s@[k]) || s@[k] == '.'),
        decreases s.len() - i,
    {
        if !(char_is_digit(s[i]) || s[i] == '.') {
            return false;
        }
        i += 1;
    }
    true
}

pub fn is_time_token(s: &[char]) -> (r: bool)
    ensures
        r == time_token(s@),
{
    let p = find_char(s, 0, ':');
    if p >= s.len() || p == 0 {
        return false;
    }
    if s.len() - p - 1 != 2 {
        return false;
    }
    digits_only(s, 0, p) && digits_only(s, p + 1, s.len())
}

pub fn contains_speed_unit(s: &[char]) -> (r: bool)
    ensures
        r == speed_unit(s@),
{
    contains_str(s, "iB/s") || (contains_str(s, "iB/") && s.len() > 0 && s[s.len() - 1] == 's')
}

pub fn contains_size_unit(s: &[char]) -> (r: bool)
    ensures
        r == size_unit(s@),
{
    ends_with(s, "iB") || eq_str(s, "B")
}

fn is_bar_token(s: &[char]) -> (r: bool)
    ensures
        r == bar_token(s@),
{
    s.len() > 0 && s[0] == '['
}

fn is_percent_token(s: &[char]) -> (r: bool)
    ensures
        r == percent_token(s@),
{
    if s.len() == 0 || s[s.len() - 1] != '%' {
        return false;
    }
    let r = digits_only(s, 0, s.len() - 1);
    assert(s@.drop_last() =~= s@.subrange(0, s.len() - 1));
    r
}

// ---------------------------------------------------------------------------
// The scan over the tokens
// ---------------------------------------------------------------------------

/// The four fields while the tokens are read.
pub struct Fields {
    pub label: Seq<char>,
    pub total_size: Seq<char>,
    pub speed: Seq<char>,
    pub eta: Seq<char>,
}

pub open spec fn no_fields() -> Fields {
    Fields { label: Seq::empty(), total_size: Seq::empty(), speed: Seq::empty(), eta: Seq::empty() }
}

/// What token `i` contributes: how many tokens it uses up (1 or 2) and the
/// fields after it. In this order:
///
/// 1. a progress bar or a bare percentage is skipped;
/// 2. a time token is the ETA, the first one wins;
/// 3. a number followed by a speed unit is the speed, the last one wins;
/// 4. a token holding a speed unit is the speed, the first one wins;
/// 5. a number followed by a size unit is the size, the first one wins;
/// 6. a token ending in a size unit is the size, the first one wins;
/// 7. otherwise the first token that is no number is the label.
pub open spec fn scan_step(toks: Seq<Seq<char>>, i: int, f: Fields) -> (int, Fields) {
    let t = toks[i];
    let has_next = i + 1 < toks.len();
    if bar_token(t) || percent_token(t) {
        (1, f)
    } else if time_token(t) {
        (
            1,
            if f.eta.len() == 0 {
                Fields { eta: t, ..f }
            } else {
                f
            },
        )
    } else if has_next && speed_unit(toks[i + 1]) && number_token(t) {
        (2, Fields { speed: t + " "@ + toks[i + 1], ..f })
    } else if speed_unit(t) {
        (
            1,
            if f.speed.len() == 0 {
                Fields { speed: t, ..f }
            } else {
                f
            },
        )
    } else if has_next && size_unit(toks[i + 1]) && !speed_unit(toks[i + 1]) && number_token(t) {
        (
            2,
            if f.total_size.len() == 0 {
                Fields { total_size: t + " "@ + toks[i + 1], ..f }
            } else {
                f
            },
        )
    } else if size_unit(t) && !speed_unit(t) {
        (
            1,
            if f.total_size.len() == 0 {
                Fields { total_size: t, ..f }
            } else {
                f
            },
        )
    } else if f.label.len() == 0 && !number_token(t) {
        (1, Fields { label: t, ..f })
    } else {
        (1, f)
    }
}

pub open spec fn scan_from(toks: Seq<Seq<char>>, i: int, f: Fields) -> Fields
    decreases toks.len() - i,
{
    if i < 0 || i >= toks.len() {
        f
    } else {
        let (used, g) = scan_step(toks, i, f);
        if used <= 0 {
            g
        } else {
            scan_from(toks, i + used, g)
        }
    }
}

/// `s` cut to its first `keep` characters and an ellipsis when it is longer
/// than `limit`.
pub open spec fn ellipsized(s: Seq<char>, limit: int, keep: int) -> Seq<char> {
    if s.len() > limit && 0 <= keep <= limit {
        s.subrange(0, keep).push('…')
    } else {
        s
    }
}

/// What a progress line says. A blank line says nothing. A line without
/// size, speed and ETA is free text: the whole line, cut to the label
/// limit, is its label.
pub open spec fn progress_of(raw: Seq<char>) -> ProgressView {
    let line = trim(raw);
    if line.len() == 0 {
        ProgressView {
            raw: Seq::empty(),
            label: Seq::empty(),
            total_size: Seq::empty(),
            speed: Seq::empty(),
            eta: Seq::empty(),
        }
    } else {
        let f = scan_from(tokens(line), 0, no_fields());
        let label = if f.total_size.len() == 0 && f.speed.len() == 0 && f.eta.len() == 0 {
            ellipsized(line, LABEL_LIMIT as int, LABEL_LIMIT - 1)
        } else {
            f.label
        };
        ProgressView { raw: line, label, total_size: f.total_size, speed: f.speed, eta: f.eta }
    }
}

fn ellipsize(s: &[char], limit: usize, keep: usize) -> (out: Vec<char>)
    ensures
        out@ == ellipsized(s@, limit as int, keep as int),
{
    if s.len() > limit && keep <= limit {
        let mut out = slice_chars(s, 0, keep);
        out.push('…');
        out
    } else {
        let out = slice_chars(s, 0, s.len());
        assert(s@.subrange(0, s.len() as int) =~= s@);
        out
    }
}

fn pair_text(a: &[char], b: &[char]) -> (out: Vec<char>)
    ensures
        out@ == a@ + " "@ + b@,
{
    let mut out: Vec<char> = Vec::new();
    push_all(&mut out, a);
    push_str(&mut out, " ");
    push_all(&mut out, b);
    assert(out@ =~= a@ + " "@ + b@);
    out
}

/// Extracts label, size, speed and ETA from one progress line. Total: a line
/// that holds none of them is its own label.
pub fn parse_progress_info(raw: &str) -> (info: ProgressInfo)
    ensures
        info@ == progress_of(raw@),
{
    let rawc = to_chars(raw);
    let line = trim_chars(rawc.as_slice());
    if line.len() == 0 {
        return ProgressInfo {
            raw: String::new(),
            label: String::new(),
            total_size: String::new(),
            speed: String::new(),
            eta: String::new(),
        };
    }
    let toks = split_tokens(line.as_slice());
    let n: usize = toks.len();
    let mut label: Vec<char> = Vec::new();
    let mut total_size: Vec<char> = Vec::new();
    let mut speed: Vec<char> = Vec::new();
    let mut eta: Vec<char> = Vec::new();
    let ghost all = rows(toks@);
    let mut i: usize = 0;
    while i < n
        invariant
            n == toks.len(),
            i <= n,
            all == rows(toks@),
            all == tokens(line@),
            scan_from(all, 0, no_fields()) == scan_from(
                all,
                i as int,
                Fields { label: label@, total_size: total_size@, speed: speed@, eta: eta@ },
            ),
        decreases n - i,
    {
        let t = toks[i].as_slice();
        assert(all[i as int] == t@);
        assert(i + 1 < n ==> all[i + 1] == toks@[i + 1]@);
        if is_bar_token(t) || is_percent_token(t) {
            i += 1;
        } else if is_time_token(t) {
            if eta.len() == 0 {
                eta = toks[i].clone();
            }
            i += 1;
        } else if i + 1 < n && contains_speed_unit(toks[i + 1].as_slice()) && is_number_token(t) {
            speed = pair_text(t, toks[i + 1].as_slice());
            i += 2;
        } else if contains_speed_unit(t) {
            if speed.len() == 0 {
                speed = toks[i].clone();
            }
            i += 1;
        } else if i + 1 < n && contains_size_unit(toks[i + 1].as_slice()) && !contains_speed_unit(
            toks[i + 1].as_slice(),
        ) && is_number_token(t) {
            if total_size.len() == 0 {
                total_size = pair_text(t, toks[i + 1].as_slice());
            }
            i += 2;
        } else if contains_size_unit(t) && !contains_speed_unit(t) {
            if total_size.len() == 0 {
                total_size = toks[i].clone();
            }
            i += 1;
        } else {
            if label.len() == 0 && !is_number_token(t) {
                label = toks[i].clone();
            }
            i += 1;
        }
    }
    if total_size.len() == 0 && speed.len() == 0 && eta.len() == 0 {
        label = ellipsize(line.as_slice(), LABEL_LIMIT, LABEL_LIMIT - 1);
    }
    ProgressInfo {
        raw: from_chars(line.as_slice()),
        label: from_chars(label.as_slice()),
        total_size: from_chars(total_size.as_slice()),
        speed: from_chars(speed.as_slice()),
        eta: from_chars(eta.as_slice()),
    }
}

// ---------------------------------------------------------------------------
// The footer text
// ---------------------------------------------------------------------------

/// The parts of the footer, in order: label, speed, size, ETA, each only
/// when it is there.
pub open spec fn footer_parts(p: ProgressView) -> Seq<Seq<char>> {
    let a: Seq<Seq<char>> = if p.label.len() > 0 {
        seq![p.label]
    } else {
        Seq::empty()
    };
    let b = if p.speed.len() > 0 {
        a.push("⬇ "@ + p.speed)
    } else {
        a
    };
    let c = if p.total_size.len() > 0 {
        b.push("/ "@ + p.total_size)
    } else {
        b
    };
    if p.eta.len() > 0 {
        c.push("剩余 "@ + p.eta)
    } else {
        c
    }
}

/// The status-bar text of a progress record: its parts joined by two
/// spaces; the raw line, cut to the footer limit, when it has no part; nothing
/// when the record is empty.
pub open spec fn footer_of(p: ProgressView) -> Seq<char> {
    if p.raw.len() == 0 {
        Seq::empty()
    } else if footer_parts(p).len() == 0 {
        ellipsized(p.raw, FOOTER_LIMIT as int, FOOTER_LIMIT - 2)
    } else {
        join(footer_parts(p), "  "@)
    }
}

fn prefixed(prefix: &str, s: &str) -> (out: Vec<char>)
    ensures
        out@ == prefix@ + s@,
{
    let mut out: Vec<char> = Vec::new();
    push_str(&mut out, prefix);
    push_str(&mut out, s);
    out
}

impl ProgressInfo {
    /// The record of a blank line.
    pub fn empty() -> (info: ProgressInfo)
        ensures
            info@ == progress_of(Seq::empty()),
    {
        assert(trim(Seq::<char>::empty()).len() == 0);
        ProgressInfo {
            raw: String::new(),
            label: String::new(),
            total_size: String::new(),
            speed: String::new(),
            eta: String::new(),
        }
    }

    pub fn is_empty(&self) -> (r: bool)
        ensures
            r == (self@.raw.len() == 0),
    {
        self.raw.as_str().unicode_len() == 0
    }

    /// The text for the status bar.
    pub fn footer_text(&self) -> (out: String)
        ensures
            out@ == footer_of(self@),
    {
        if self.is_empty() {
            return String::new();
        }
        let mut parts: Vec<Vec<char>> = Vec::new();
        assert(rows(parts@) =~= Seq::<Seq<char>>::empty());
        if self.label.as_str().unicode_len() > 0 {
            let p = to_chars(self.label.as_str());
            parts.push(p);
            assert(rows(parts@) =~= seq![self.label@]);
        }
        if self.speed.as_str().unicode_len() > 0 {
            let ghost before = rows(parts@);
            let p = prefixed("⬇ ", self.speed.as_str());
            parts.push(p);
            assert(rows(parts@) =~= before.push("⬇ "@ + self.speed@));
        }
        if self.total_size.as_str().unicode_len() > 0 {
            let ghost before = rows(parts@);
            let p = prefixed("/ ", self.total_size.as_str());
            parts.push(p);
            assert(rows(parts@) =~= before.push("/ "@ + self.total_size@));
        }
        if self.eta.as_str().unicode_len() > 0 {
            let ghost before = rows(parts@);
            let p = prefixed("剩余 ", self.eta.as_str());
            parts.push(p);
            assert(rows(parts@) =~= before.push("剩余 "@ + self.eta@));
        }
        if parts.len() == 0 {
            let raw = to_chars(self.raw.as_str());
            let cut = ellipsize(raw.as_slice(), FOOTER_LIMIT, FOOTER_LIMIT - 2);
            from_chars(cut.as_slice())
        } else {
            let joined = crate::text::join_rows(&parts, "  ");
            from_chars(joined.as_slice())
        }
    }
}

impl Default for ProgressInfo {
    fn default() -> (info: ProgressInfo)
        ensures
            info@ == progress_of(Seq::empty()),
    {
        ProgressInfo::empty()
    }
}

} // verus!
