//! The line sanitizer: terminal output without escape sequences, control
//! characters or runs of blank lines.

use crate::text::{
    blank_chars, char_is_ascii_letter, char_is_control, from_chars, is_ascii_letter, is_blank,
    is_control, join, join_rows, lemma_rows_push, lines, rows, split_lines, to_chars,
};
use vstd::prelude::*;

verus! {

/// Index just past the first ASCII letter at or after `from` (the final byte
/// of a CSI sequence), or `s.len()` when the sequence never ends.
pub open spec fn csi_end(s: Seq<char>, from: int) -> int
    decreases s.len() - from,
{
    if from >= s.len() {
        s.len() as int
    } else if is_ascii_letter(s[from]) {
        from + 1
    } else {
        csi_end(s, from + 1)
    }
}

/// What the character at `i` contributes, given the text `out` kept so far:
/// the next index to read and the text kept after it.
///
/// * `ESC [` starts a CSI sequence, dropped up to and with its final letter;
///   any other `ESC` is dropped alone.
/// * `'\r'` becomes a line break unless a `'\n'` follows it or precedes it in
///   the kept text.
/// * Other control characters but `'\n'` and `'\t'` are dropped.
pub open spec fn strip_step(s: Seq<char>, i: int, out: Seq<char>) -> (int, Seq<char>) {
    let c = s[i];
    if c == '\x1b' {
        if i + 1 < s.len() && s[i + 1] == '[' {
            (csi_end(s, i + 2), out)
        } else {
            (i + 1, out)
        }
    } else if c == '\r' {
        if (i + 1 < s.len() && s[i + 1] == '\n') || (out.len() > 0 && out.last() == '\n') {
            (i + 1, out)
        } else {
            (i + 1, out.push('\n'))
        }
    } else if is_control(c) && c != '\n' && c != '\t' {
        (i + 1, out)
    } else {
        (i + 1, out.push(c))
    }
}

pub open spec fn strip_from(s: Seq<char>, i: int, out: Seq<char>) -> Seq<char>
    decreases s.len() - i,
{
    if i < 0 || i >= s.len() {
        out
    } else {
        let (next, kept) = strip_step(s, i, out);
        if next <= i || next > s.len() {
            kept
        } else {
            strip_from(s, next, kept)
        }
    }
}

/// `s` without CSI sequences and control characters, bare carriage returns
/// turned into line breaks.
pub open spec fn stripped(s: Seq<char>) -> Seq<char> {
    strip_from(s, 0, Seq::empty())
}

/// Whether line `i` survives the collapsing of blank runs: a blank line
/// directly after a blank line does not.
pub open spec fn keeps_line(ls: Seq<Seq<char>>, i: int) -> bool {
    !(is_blank(ls[i]) && i > 0 && is_blank(ls[i - 1]))
}

/// The lines of `ls` with every run of blank lines reduced to its first.
pub open spec fn collapse_blank(ls: Seq<Seq<char>>) -> Seq<Seq<char>>
    decreases ls.len(),
{
    if ls.len() == 0 {
        Seq::empty()
    } else if keeps_line(ls, ls.len() - 1) {
        collapse_blank(ls.drop_last()).push(ls.last())
    } else {
        collapse_blank(ls.drop_last())
    }
}

/// The sanitized form of a chunk of terminal output.
pub open spec fn sanitized(s: Seq<char>) -> Seq<char> {
    join(collapse_blank(lines(stripped(s))), "\n"@)
}

pub proof fn lemma_csi_end_bounds(s: Seq<char>, from: int)
    requires
        0 <= from <= s.len(),
    ensures
        from <= csi_end(s, from) <= s.len(),
        from < s.len() ==> from < csi_end(s, from),
    decreases s.len() - from,
{
    if from < s.len() && !is_ascii_letter(s[from]) {
        lemma_csi_end_bounds(s, from + 1);
    }
}

fn skip_csi(s: &[char], from: usize) -> (r: usize)
    requires
        from <= s.len(),
    ensures
        r == csi_end(s@, from as int),
        from <= r <= s.len(),
{
    let mut i: usize = from;
    while i < s.len()
        invariant
            from <= i <= s.len(),
            csi_end(s@, from as int) == csi_end(s@, i as int),
        decreases s.len() - i,
    {
        if char_is_ascii_letter(s[i]) {
            return i + 1;
        }
        i += 1;
    }
    i
}

/// Removes escape sequences and control characters.
pub fn strip_chars(s: &[char]) -> (out: Vec<char>)
    ensures
        out@ == stripped(s@),
{
    let mut out: Vec<char> = Vec::new();
    let mut i: usize = 0;
    while i < s.len()
        invariant
            i <= s.len(),
            stripped(s@) == strip_from(s@, i as int, out@),
        decreases s.len() - i,
    {
        let c = s[i];
        if c == '\x1b' {
            if i + 1 < s.len() && s[i + 1] == '[' {
                let e = skip_csi(s, i + 2);
                i = e;
            } else {
                i += 1;
            }
        } else if c == '\r' {
            let followed = i + 1 < s.len() && s[i + 1] == '\n';
            let preceded = out.len() > 0 && out[out.len() - 1] == '\n';
            if !followed && !preceded {
                out.push('\n');
            }
            i += 1;
        } else if char_is_control(c) && c != '\n' && c != '\t' {
            i += 1;
        } else {
            out.push(c);
            i += 1;
        }
    }
    out
}

/// Drops every blank line that directly follows a blank line.
pub fn collapse_blank_rows(ls: Vec<Vec<char>>) -> (out: Vec<Vec<char>>)
    ensures
        rows(out@) == collapse_blank(rows(ls@)),
{
    let mut out: Vec<Vec<char>> = Vec::new();
    let mut prev_blank = false;
    let mut i: usize = 0;
    assert(rows(out@) =~= Seq::<Seq<char>>::empty());
    assert(rows(ls@).take(0) =~= Seq::<Seq<char>>::empty());
    while i < ls.len()
        invariant
            i <= ls.len(),
            rows(out@) == collapse_blank(rows(ls@).take(i as int)),
            prev_blank == (i > 0 && is_blank(ls@[i - 1]@)),
        decreases ls.len() - i,
    {
        let blank = blank_chars(ls[i].as_slice());
        proof {
            let next = rows(ls@).take(i + 1);
            assert(next.drop_last() =~= rows(ls@).take(i as int));
            assert(next.last() == ls@[i as int]@);
            assert(keeps_line(next, i as int) == !(blank && prev_blank));
        }
        if !(blank && prev_blank) {
            let line = ls[i].clone();
            proof {
                assert(line@ == ls@[i as int]@);
                lemma_rows_push(out@, line);
            }
            out.push(line);
        }
        prev_blank = blank;
        i += 1;
    }
    assert(rows(ls@).take(ls.len() as int) =~= rows(ls@));
    out
}

/// The sanitizer on character vectors.
pub fn sanitize_chars(s: &[char]) -> (out: Vec<char>)
    ensures
        out@ == sanitized(s@),
{
    let kept = strip_chars(s);
    let ls = split_lines(kept.as_slice());
    let cleaned = collapse_blank_rows(ls);
    join_rows(&cleaned, "\n")
}

/// Strips ANSI CSI sequences and control characters from a chunk of terminal
/// output, turns bare carriage returns into line breaks and collapses runs of
/// blank lines into one. Total: every input has a sanitized form.
pub fn clean_terminal_output(input: &str) -> (out: String)
    ensures
        out@ == sanitized(input@),
{
    let s = to_chars(input);
    let cleaned = sanitize_chars(s.as_slice());
    from_chars(cleaned.as_slice())
}

} // verus!
