//! Keys as the application understands them.

use vstd::prelude::*;

verus! {

/// The key that was pressed.
#[derive(Debug, Clone, Copy, PartialEq, Eq, Structural)]
pub enum KeyCode {
    Esc,
    Enter,
    Tab,
    Up,
    Down,
    Left,
    Right,
    Home,
    End,
    PageUp,
    PageDown,
    Backspace,
    Delete,
    Char(char),
    /// Any key the application has no use for.
    Other,
}

/// A key press with its modifiers.
#[derive(Debug, Clone, Copy, PartialEq, Eq, Structural)]
pub struct Key {
    pub code: KeyCode,
    pub ctrl: bool,
    pub alt: bool,
}

impl Key {
    /// The key without modifiers.
    pub fn plain(code: KeyCode) -> (k: Key)
        ensures
            k == (Key { code, ctrl: false, alt: false }),
    {
        Key { code, ctrl: false, alt: false }
    }
}

/// The lines that a page key scrolls.
pub const PAGE_LINES: usize = 10;

/// What the caller knows when a key arrives.
#[derive(Debug, Clone, Copy)]
pub struct Context {
    /// Milliseconds on a monotonic clock.
    pub now: u64,
    /// The height of the terminal in rows.
    pub term_height: u16,
    /// Whether the text in the settings' edit buffer reads as a number.
    pub edit_is_number: bool,
}

/// Where a display of `total` lines, `visible` of which fit, stands after a
/// scroll key; `None` for any other key.
pub open spec fn scroll_key(scroll: usize, code: KeyCode, total: usize, visible: usize) -> Option<
    usize,
> {
    let room = if total > visible {
        (total - visible) as usize
    } else {
        0
    };
    match code {
        KeyCode::Up => Some(
            if scroll > 0 {
                (scroll - 1) as usize
            } else {
                0
            },
        ),
        KeyCode::Down => Some(
            if scroll < room {
                (scroll + 1) as usize
            } else {
                scroll
            },
        ),
        KeyCode::PageUp => Some(
            if scroll > PAGE_LINES {
                (scroll - PAGE_LINES) as usize
            } else {
                0
            },
        ),
        KeyCode::PageDown => Some(
            if scroll + PAGE_LINES < room {
                (scroll + PAGE_LINES) as usize
            } else {
                room
            },
        ),
        _ => None,
    }
}

pub fn scroll_by_key(scroll: usize, code: KeyCode, total: usize, visible: usize) -> (r: Option<usize>)
    ensures
        r == scroll_key(scroll, code, total, visible),
{
    let room: usize = if total > visible {
        total - visible
    } else {
        0
    };
    match code {
        KeyCode::Up => Some(
            if scroll > 0 {
                scroll - 1
            } else {
                0
            },
        ),
        KeyCode::Down => Some(
            if scroll < room {
                scroll + 1
            } else {
                scroll
            },
        ),
        KeyCode::PageUp => Some(
            if scroll > PAGE_LINES {
                scroll - PAGE_LINES
            } else {
                0
            },
        ),
        KeyCode::PageDown => Some(
            if PAGE_LINES < room && scroll < room - PAGE_LINES {
                scroll + PAGE_LINES
            } else {
                room
            },
        ),
        _ => None,
    }
}

/// One more, unless that is beyond what the machine counts.
pub open spec fn bumped(n: usize) -> usize {
    if n < usize::MAX {
        (n + 1) as usize
    } else {
        n
    }
}

pub fn bump(n: usize) -> (r: usize)
    ensures
        r == bumped(n),
{
    if n < usize::MAX {
        n + 1
    } else {
        n
    }
}

/// The rows left for content in a terminal of that height.
pub open spec fn visible_rows(term_height: u16) -> usize {
    if term_height > 8 {
        (term_height - 8) as usize
    } else {
        0
    }
}

} // verus!
