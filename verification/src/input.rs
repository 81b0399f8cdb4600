//! Editing one line of text with a cursor that counts characters.

use crate::keys::KeyCode;
use crate::text::{from_chars, to_chars};
use vstd::prelude::*;

verus! {

/// Where an edit at `cursor` takes place in a text of `len` characters: at
/// the cursor, or at the end when the cursor lies beyond it.
pub open spec fn edit_pos(len: nat, cursor: usize) -> int {
    if cursor <= len {
        cursor as int
    } else {
        len as int
    }
}

/// Inserts `c` at the cursor and moves the cursor past it.
pub fn str_insert_char(s: &mut String, cursor: &mut usize, c: char)
    ensures
        final(s)@ == old(s)@.insert(edit_pos(old(s)@.len(), *old(cursor)), c),
        *final(cursor) == edit_pos(old(s)@.len(), *old(cursor)) + 1,
{
    let mut v = to_chars(s.as_str());
    let p: usize = if *cursor <= v.len() {
        *cursor
    } else {
        v.len()
    };
    v.insert(p, c);
    let n: usize = v.len();
    assert(p < n);
    *s = from_chars(v.as_slice());
    *cursor = p + 1;
}

/// Backspace: removes the character before the cursor and moves the cursor
/// onto its place. Nothing at the start of the line.
pub fn str_delete_back(s: &mut String, cursor: &mut usize)
    ensures
        *old(cursor) == 0 ==> final(s)@ == old(s)@ && *final(cursor) == 0,
        *old(cursor) > 0 ==> *final(cursor) == *old(cursor) - 1,
        0 < *old(cursor) <= old(s)@.len() ==> final(s)@ == old(s)@.remove(*old(cursor) - 1),
        *old(cursor) > old(s)@.len() ==> final(s)@ == old(s)@,
{
    if *cursor > 0 {
        *cursor = *cursor - 1;
        let mut v = to_chars(s.as_str());
        if *cursor < v.len() {
            v.remove(*cursor);
            *s = from_chars(v.as_slice());
        }
    }
}

/// Delete: removes the character under the cursor. Nothing at the end of
/// the line.
pub fn str_delete_forward(s: &mut String, cursor: &mut usize)
    ensures
        *final(cursor) == *old(cursor),
        *old(cursor) < old(s)@.len() ==> final(s)@ == old(s)@.remove(*old(cursor) as int),
        *old(cursor) >= old(s)@.len() ==> final(s)@ == old(s)@,
{
    let mut v = to_chars(s.as_str());
    if *cursor < v.len() {
        v.remove(*cursor);
        *s = from_chars(v.as_slice());
    }
}

/// The cursor one character to the left, stopping at the start.
pub fn cursor_left(cursor: usize) -> (r: usize)
    ensures
        r == if cursor > 0 {
            cursor - 1
        } else {
            0
        },
{
    if cursor > 0 {
        cursor - 1
    } else {
        0
    }
}

/// The cursor one character to the right, stopping at the end of `s`.
pub fn cursor_right(s: &str, cursor: usize) -> (r: usize)
    ensures
        r == if cursor < s@.len() {
            cursor + 1
        } else {
            cursor as int
        },
{
    if cursor < s.unicode_len() {
        cursor + 1
    } else {
        cursor
    }
}

/// A line and its cursor after an editing key; `None` for any other key.
///
/// Backspace and Delete remove the character before and under the cursor,
/// a character key inserts it at the cursor, the arrow keys, Home and End
/// move the cursor within the line.
pub open spec fn edit_spec(s: Seq<char>, cursor: usize, code: KeyCode) -> Option<(Seq<char>, usize)> {
    match code {
        KeyCode::Backspace => Some(
            if cursor == 0 {
                (s, cursor)
            } else if cursor <= s.len() {
                (s.remove(cursor - 1), (cursor - 1) as usize)
            } else {
                (s, (cursor - 1) as usize)
            },
        ),
        KeyCode::Delete => Some(
            if cursor < s.len() {
                (s.remove(cursor as int), cursor)
            } else {
                (s, cursor)
            },
        ),
        KeyCode::Left => Some(
            (
                s,
                if cursor > 0 {
                    (cursor - 1) as usize
                } else {
                    0
                },
            ),
        ),
        KeyCode::Right => Some(
            (
                s,
                if cursor < s.len() {
                    (cursor + 1) as usize
                } else {
                    cursor
                },
            ),
        ),
        KeyCode::Home => Some((s, 0)),
        KeyCode::End => Some((s, s.len() as usize)),
        KeyCode::Char(c) => Some(
            (s.insert(edit_pos(s.len(), cursor), c), (edit_pos(s.len(), cursor) + 1) as usize),
        ),
        _ => None,
    }
}

/// Whether an editing key changes the text rather than move the cursor.
pub open spec fn changes_text(code: KeyCode) -> bool {
    code is Backspace || code is Delete || code is Char
}

/// Applies an editing key to a line; tells whether the key was one.
pub fn apply_edit_key(s: &mut String, cursor: &mut usize, code: KeyCode) -> (handled: bool)
    ensures
        match edit_spec(old(s)@, *old(cursor), code) {
            Some((text, at)) => handled && final(s)@ == text && *final(cursor) == at,
            None => !handled && *final(s) == *old(s) && *final(cursor) == *old(cursor),
        },
        !changes_text(code) ==> *final(s) == *old(s),
{
    match code {
        KeyCode::Backspace => {
            str_delete_back(s, cursor);
            true
        },
        KeyCode::Delete => {
            str_delete_forward(s, cursor);
            true
        },
        KeyCode::Left => {
            *cursor = cursor_left(*cursor);
            true
        },
        KeyCode::Right => {
            *cursor = cursor_right(s.as_str(), *cursor);
            true
        },
        KeyCode::Home => {
            *cursor = 0;
            true
        },
        KeyCode::End => {
            *cursor = s.as_str().unicode_len();
            true
        },
        KeyCode::Char(c) => {
            str_insert_char(s, cursor, c);
            true
        },
        _ => false,
    }
}

pub fn is_text_key(code: KeyCode) -> (r: bool)
    ensures
        r == changes_text(code),
{
    match code {
        KeyCode::Backspace => true,
        KeyCode::Delete => true,
        KeyCode::Char(_) => true,
        _ => false,
    }
}

/// A text input box.
#[derive(Debug, Clone)]
pub struct InputBox {
    content: String,
    cursor: usize,
}

impl InputBox {
    pub closed spec fn text(&self) -> Seq<char> {
        self.content@
    }

    pub closed spec fn cursor(&self) -> usize {
        self.cursor
    }

    pub fn new() -> (b: InputBox)
        ensures
            b.text() == Seq::<char>::empty(),
            b.cursor() == 0,
    {
        InputBox { content: String::new(), cursor: 0 }
    }

    /// Inserts `c` at the cursor.
    pub fn insert(&mut self, c: char)
        ensures
            final(self).text() == old(self).text().insert(
                edit_pos(old(self).text().len(), old(self).cursor()),
                c,
            ),
            final(self).cursor() == edit_pos(old(self).text().len(), old(self).cursor()) + 1,
    {
        str_insert_char(&mut self.content, &mut self.cursor, c);
    }

    /// Backspace.
    pub fn delete_back(&mut self)
        ensures
            old(self).cursor() == 0 ==> final(self).text() == old(self).text()
                && final(self).cursor() == 0,
            old(self).cursor() > 0 ==> final(self).cursor() == old(self).cursor() - 1,
            0 < old(self).cursor() <= old(self).text().len() ==> final(self).text()
                == old(self).text().remove(old(self).cursor() - 1),
            old(self).cursor() > old(self).text().len() ==> final(self).text() == old(self).text(),
    {
        str_delete_back(&mut self.content, &mut self.cursor);
    }

    /// Delete.
    pub fn delete_forward(&mut self)
        ensures
            final(self).cursor() == old(self).cursor(),
            old(self).cursor() < old(self).text().len() ==> final(self).text()
                == old(self).text().remove(old(self).cursor() as int),
            old(self).cursor() >= old(self).text().len() ==> final(self).text() == old(self).text(),
    {
        str_delete_forward(&mut self.content, &mut self.cursor);
    }

    pub fn move_left(&mut self)
        ensures
            final(self).text() == old(self).text(),
            final(self).cursor() == if old(self).cursor() > 0 {
                old(self).cursor() - 1
            } else {
                0
            },
    {
        self.cursor = cursor_left(self.cursor);
    }

    pub fn move_right(&mut self)
        ensures
            final(self).text() == old(self).text(),
            final(self).cursor() == if old(self).cursor() < old(self).text().len() {
                old(self).cursor() + 1
            } else {
                old(self).cursor() as int
            },
    {
        self.cursor = cursor_right(self.content.as_str(), self.cursor);
    }

    pub fn move_home(&mut self)
        ensures
            final(self).text() == old(self).text(),
            final(self).cursor() == 0,
    {
        self.cursor = 0;
    }

    pub fn move_end(&mut self)
        ensures
            final(self).text() == old(self).text(),
            final(self).cursor() == old(self).text().len(),
    {
        self.cursor = self.content.as_str().unicode_len();
    }

    pub fn clear(&mut self)
        ensures
            final(self).text() == Seq::<char>::empty(),
            final(self).cursor() == 0,
    {
        self.content = String::new();
        self.cursor = 0;
    }

    pub fn content(&self) -> (s: &str)
        ensures
            s@ == self.text(),
    {
        self.content.as_str()
    }

    pub fn cursor_pos(&self) -> (c: usize)
        ensures
            c == self.cursor(),
    {
        self.cursor
    }
}

} // verus!
