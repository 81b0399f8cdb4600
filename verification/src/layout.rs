//! Laying out text in columns: how wide a text is on the terminal and how
//! it is padded to line up.

use crate::state::{max_scroll, scroll_limit, SettingsItem};
use crate::text::{from_chars, push_all, push_str, repeat, repeat_chars};
use unicode_width::UnicodeWidthStr;
use vstd::prelude::*;

verus! {

/// The number of terminal columns that `UnicodeWidthStr::width` gives for a
/// text.
pub uninterp spec fn columns_of(s: Seq<char>) -> nat;

/// `unicode_width::UnicodeWidthStr::width`: the displayed width of the text
/// in columns by the rules of Unicode Standard Annex #11, a wide East Asian
/// character counting two. The result is a function of the text alone.
#[verifier::external_body]
fn display_width(s: &str) -> (w: usize)
    ensures
        w == columns_of(s@),
{
    UnicodeWidthStr::width(s)
}

/// The column at which the values of a package description begin.
pub const KEY_COLUMNS: usize = 18;

/// The label width the settings page assumes when it has no text field.
pub const DEFAULT_LABEL_COLUMNS: usize = 10;

/// The spaces that bring a text of `width` columns to `target` columns.
pub open spec fn padding(width: nat, target: nat) -> Seq<char> {
    if target > width {
        repeat(' ', (target - width) as nat)
    } else {
        Seq::empty()
    }
}

/// A key of a package description, `width` columns wide, padded to the
/// column of the values and one space.
pub open spec fn key_cell(key: Seq<char>, width: nat) -> Seq<char> {
    key + padding(width, KEY_COLUMNS as nat) + " "@
}

/// A label of the settings page, `width` columns wide, with its colon,
/// padded to labels of `widest` columns.
pub open spec fn label_cell(label: Seq<char>, width: nat, widest: nat) -> Seq<char> {
    " "@ + label + ":"@ + padding(width, widest) + " "@
}

fn pad(out: &mut Vec<char>, width: usize, target: usize)
    ensures
        final(out)@ == old(out)@ + padding(width as nat, target as nat),
{
    if target > width {
        let spaces = repeat_chars(' ', target - width);
        push_all(out, spaces.as_slice());
    } else {
        assert(out@ + Seq::<char>::empty() =~= out@);
    }
}

/// Pads a key that is `width` columns wide to the column of the values.
pub fn padded_key(key: &str, width: usize) -> (out: String)
    ensures
        out@ == key_cell(key@, width as nat),
{
    let mut c: Vec<char> = Vec::new();
    push_str(&mut c, key);
    pad(&mut c, width, KEY_COLUMNS);
    push_str(&mut c, " ");
    from_chars(c.as_slice())
}

/// Pads a label that is `width` columns wide to labels of `widest` columns.
pub fn padded_label(label: &str, width: usize, widest: usize) -> (out: String)
    ensures
        out@ == label_cell(label@, width as nat, widest as nat),
{
    let mut c: Vec<char> = Vec::new();
    push_str(&mut c, " ");
    push_str(&mut c, label);
    push_str(&mut c, ":");
    pad(&mut c, width, widest);
    push_str(&mut c, " ");
    assert(c@ =~= label_cell(label@, width as nat, widest as nat));
    from_chars(c.as_slice())
}

/// The cell of a key of a package description.
pub fn detail_key_cell(key: &str) -> (out: String)
    ensures
        out@ == key_cell(key@, columns_of(key@)),
{
    padded_key(key, display_width(key))
}

/// The greatest width among the labels of the first `n` rows that are text
/// fields, and whether there is one.
pub open spec fn widest_label(items: Seq<SettingsItem>, n: int) -> Option<nat>
    decreases n,
{
    if n <= 0 {
        None
    } else {
        let before = widest_label(items, n - 1);
        match items[n - 1] {
            SettingsItem::TextEdit { label, .. } => match before {
                Some(w) => Some(
                    if columns_of(label@) > w {
                        columns_of(label@)
                    } else {
                        w
                    },
                ),
                None => Some(columns_of(label@)),
            },
            _ => before,
        }
    }
}

/// The width that the labels of the settings page are padded to.
pub open spec fn label_columns(items: Seq<SettingsItem>) -> nat {
    match widest_label(items, items.len() as int) {
        Some(w) => w,
        None => DEFAULT_LABEL_COLUMNS as nat,
    }
}

/// The width that the labels of the settings page are padded to: that of
/// the widest label of a text field.
pub fn max_label_width(items: &Vec<SettingsItem>) -> (w: usize)
    ensures
        w == label_columns(items@),
{
    let mut best: Option<usize> = None;
    let mut i: usize = 0;
    while i < items.len()
        invariant
            i <= items.len(),
            match best {
                Some(b) => widest_label(items@, i as int) == Some(b as nat),
                None => widest_label(items@, i as int) is None,
            },
        decreases items.len() - i,
    {
        match &items[i] {
            SettingsItem::TextEdit { label, .. } => {
                let w = display_width(label.as_str());
                best = match best {
                    Some(b) => Some(
                        if w > b {
                            w
                        } else {
                            b
                        },
                    ),
                    None => Some(w),
                };
            },
            _ => {},
        }
        i += 1;
    }
    match best {
        Some(b) => b,
        None => DEFAULT_LABEL_COLUMNS,
    }
}

/// The cell of the label of a text field on the settings page.
pub fn settings_label_cell(label: &str, items: &Vec<SettingsItem>) -> (out: String)
    ensures
        out@ == label_cell(label@, columns_of(label@), label_columns(items@)),
{
    padded_label(label, display_width(label), max_label_width(items))
}

/// The lines `[start, end)` of a display of `total` lines that are to be
/// drawn when `visible` fit and it is scrolled to `scroll`.
pub open spec fn window(total: usize, visible: usize, scroll: usize) -> (usize, usize) {
    let start = if scroll > max_scroll(total, visible) {
        max_scroll(total, visible)
    } else {
        scroll
    };
    (
        start,
        if start + visible < total {
            (start + visible) as usize
        } else {
            total
        },
    )
}

/// The lines that are to be drawn.
pub fn visible_window(total: usize, visible: usize, scroll: usize) -> (r: (usize, usize))
    ensures
        r == window(total, visible, scroll),
        r.0 <= r.1 <= total,
{
    let limit = scroll_limit(total, visible);
    let start: usize = if scroll > limit {
        limit
    } else {
        scroll
    };
    let end: usize = if visible < total - start {
        start + visible
    } else {
        total
    };
    (start, end)
}

} // verus!
