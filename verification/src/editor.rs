//! A cursor-based single-line (or multi-line) text editor over a borrowed buffer.
//!
//! The cursor counts characters, not bytes. It may stand past the end of the text; an
//! insertion there appends.
use vstd::prelude::*;
use crate::text::{chars_of, string_of};

verus! {

/// The place where an insertion at `cursor` lands in a text of `len` characters.
pub open spec fn insert_index(len: nat, cursor: nat) -> nat {
    if cursor < len { cursor } else { len }
}

/// Text and cursor after typing `c` at `cursor`.
pub open spec fn after_insert(buf: Seq<char>, cursor: nat, c: char) -> (Seq<char>, nat) {
    let p = insert_index(buf.len(), cursor) as int;
    (buf.take(p).push(c) + buf.skip(p), cursor + 1)
}

/// Text and cursor after Enter: a line break stands at the cursor (at the end when the
/// cursor is past it) and the cursor moves one further.
pub open spec fn after_newline(buf: Seq<char>, cursor: nat) -> (Seq<char>, nat) {
    let p = insert_index(buf.len(), cursor) as int;
    (buf.take(p) + seq!['\n'] + buf.skip(p), cursor + 1)
}

/// Text and cursor after Backspace: the character before the cursor goes.
pub open spec fn after_backspace(buf: Seq<char>, cursor: nat) -> (Seq<char>, nat) {
    if cursor == 0 {
        (buf, cursor)
    } else {
        (buf.remove(cursor - 1), (cursor - 1) as nat)
    }
}

/// Text and cursor after Delete: the character under the cursor goes.
pub open spec fn after_delete(buf: Seq<char>, cursor: nat) -> (Seq<char>, nat) {
    if cursor >= buf.len() {
        (buf, cursor)
    } else {
        (buf.remove(cursor as int), cursor)
    }
}

pub open spec fn after_move_left(buf: Seq<char>, cursor: nat) -> (Seq<char>, nat) {
    if cursor > 0 { (buf, (cursor - 1) as nat) } else { (buf, cursor) }
}

pub open spec fn after_move_right(buf: Seq<char>, cursor: nat) -> (Seq<char>, nat) {
    if cursor < buf.len() { (buf, cursor + 1) } else { (buf, cursor) }
}

pub open spec fn after_home(buf: Seq<char>, cursor: nat) -> (Seq<char>, nat) {
    (buf, 0)
}

pub open spec fn after_end(buf: Seq<char>, cursor: nat) -> (Seq<char>, nat) {
    (buf, buf.len())
}

/// Backspace as the side panels' line editors do it. Their cursor may stand past the end
/// of the text (the RPC worker line starts with the cursor at the line's byte length):
/// the character before the cursor goes when there is one, else the first character.
pub open spec fn after_loose_backspace(buf: Seq<char>, cursor: nat) -> (Seq<char>, nat) {
    if cursor == 0 {
        (buf, cursor)
    } else if cursor - 1 < buf.len() {
        (buf.remove(cursor - 1), (cursor - 1) as nat)
    } else {
        (buf.remove(0), (cursor - 1) as nat)
    }
}

/// Right arrow in the side panels' line editors: one step on, but never past the end
/// (a cursor beyond the end comes back to it).
pub open spec fn after_clamped_right(buf: Seq<char>, cursor: nat) -> (Seq<char>, nat) {
    if cursor + 1 <= buf.len() { (buf, cursor + 1) } else { (buf, buf.len()) }
}

/// Backspace with a cursor that may stand past the end of the text (see
/// `after_loose_backspace`).
pub fn loose_backspace(buf: &mut String, cur: &mut usize)
    requires
        *old(cur) > 0 ==> old(buf)@.len() > 0,
    ensures
        (final(buf)@, *final(cur) as nat) == after_loose_backspace(old(buf)@, *old(cur) as nat),
{
    if *cur > 0 {
        let mut v = chars_of(buf.as_str());
        let pos = *cur - 1;
        let at = if pos < v.len() { pos } else { 0 };
        v.remove(at);
        *buf = string_of(v.as_slice());
        *cur = pos;
    }
}

/// Right arrow that stops at the end of the text (see `after_clamped_right`).
pub fn clamped_right(buf: &String, cur: &mut usize)
    requires
        *old(cur) < usize::MAX,
    ensures
        (buf@, *final(cur) as nat) == after_clamped_right(buf@, *old(cur) as nat),
{
    let count = chars_of(buf.as_str()).len();
    let next = *cur + 1;
    *cur = if next < count { next } else { count };
}

/// Edits a borrowed text buffer at a borrowed cursor position.
pub struct TextEditor<'a> {
    pub buffer: &'a mut String,
    pub cursor: &'a mut usize,
}

impl TextEditor<'_> {
    /// Types `c` at the cursor and moves the cursor past it.
    pub fn insert_char(&mut self, c: char)
        requires
            *old(self).cursor < usize::MAX,
        ensures
            (final(self).buffer@, *final(self).cursor as nat)
                == after_insert(old(self).buffer@, *old(self).cursor as nat, c),
            *final(final(self).cursor) == *final(old(self).cursor),
            *final(final(self).buffer) == *final(old(self).buffer),
    {
        let mut v = chars_of(self.buffer.as_str());
        let p = if *self.cursor < v.len() { *self.cursor } else { v.len() };
        let ghost before = v@;
        v.insert(p, c);
        assert(v@ == before.take(p as int).push(c) + before.skip(p as int));
        *self.buffer = string_of(v.as_slice());
        *self.cursor = *self.cursor + 1;
    }

    /// Types a line break at the cursor.
    pub fn insert_newline(&mut self)
        requires
            *old(self).cursor < usize::MAX,
        ensures
            (final(self).buffer@, *final(self).cursor as nat)
                == after_newline(old(self).buffer@, *old(self).cursor as nat),
            *final(final(self).cursor) == *final(old(self).cursor),
            *final(final(self).buffer) == *final(old(self).buffer),
    {
        proof {
            law_newline_is_typed_like_a_character(self.buffer@, *self.cursor as nat);
        }
        self.insert_char('\n');
    }

    /// Deletes the character before the cursor.
    pub fn backspace(&mut self)
        requires
            *old(self).cursor == 0 || *old(self).cursor <= old(self).buffer@.len(),
        ensures
            (final(self).buffer@, *final(self).cursor as nat)
                == after_backspace(old(self).buffer@, *old(self).cursor as nat),
            *final(final(self).cursor) == *final(old(self).cursor),
            *final(final(self).buffer) == *final(old(self).buffer),
    {
        if *self.cursor == 0 {
            return;
        }
        let mut v = chars_of(self.buffer.as_str());
        let pos = *self.cursor - 1;
        v.remove(pos);
        *self.buffer = string_of(v.as_slice());
        *self.cursor = pos;
    }

    /// Deletes the character under the cursor.
    pub fn delete(&mut self)
        ensures
            (final(self).buffer@, *final(self).cursor as nat)
                == after_delete(old(self).buffer@, *old(self).cursor as nat),
            *final(final(self).cursor) == *final(old(self).cursor),
            *final(final(self).buffer) == *final(old(self).buffer),
    {
        let mut v = chars_of(self.buffer.as_str());
        if *self.cursor >= v.len() {
            return;
        }
        v.remove(*self.cursor);
        *self.buffer = string_of(v.as_slice());
    }

    /// Moves the cursor one character left, if it can.
    pub fn move_left(&mut self)
        ensures
            (final(self).buffer@, *final(self).cursor as nat)
                == after_move_left(old(self).buffer@, *old(self).cursor as nat),
            *final(final(self).cursor) == *final(old(self).cursor),
            *final(final(self).buffer) == *final(old(self).buffer),
    {
        if *self.cursor > 0 {
            *self.cursor = *self.cursor - 1;
        }
    }

    /// Moves the cursor one character right, up to the end of the text.
    pub fn move_right(&mut self)
        ensures
            (final(self).buffer@, *final(self).cursor as nat)
                == after_move_right(old(self).buffer@, *old(self).cursor as nat),
            *final(final(self).cursor) == *final(old(self).cursor),
            *final(final(self).buffer) == *final(old(self).buffer),
    {
        let max = chars_of(self.buffer.as_str()).len();
        if *self.cursor < max {
            *self.cursor = *self.cursor + 1;
        }
    }

    /// Moves the cursor to the start of the text.
    pub fn home(&mut self)
        ensures
            (final(self).buffer@, *final(self).cursor as nat)
                == after_home(old(self).buffer@, *old(self).cursor as nat),
            *final(final(self).cursor) == *final(old(self).cursor),
            *final(final(self).buffer) == *final(old(self).buffer),
    {
        *self.cursor = 0;
    }

    /// Moves the cursor to the end of the text.
    pub fn end(&mut self)
        ensures
            (final(self).buffer@, *final(self).cursor as nat)
                == after_end(old(self).buffer@, *old(self).cursor as nat),
            *final(final(self).cursor) == *final(old(self).cursor),
            *final(final(self).buffer) == *final(old(self).buffer),
    {
        *self.cursor = chars_of(self.buffer.as_str()).len();
    }
}

// ───────────────────────── laws ─────────────────────────

/// Every editing step keeps a cursor that lies within the text within the text.
pub proof fn law_cursor_stays_within_text(buf: Seq<char>, cursor: nat, c: char)
    requires
        cursor <= buf.len(),
    ensures
        after_insert(buf, cursor, c).1 <= after_insert(buf, cursor, c).0.len(),
        after_backspace(buf, cursor).1 <= after_backspace(buf, cursor).0.len(),
        after_delete(buf, cursor).1 <= after_delete(buf, cursor).0.len(),
        after_move_left(buf, cursor).1 <= after_move_left(buf, cursor).0.len(),
        after_move_right(buf, cursor).1 <= after_move_right(buf, cursor).0.len(),
        after_home(buf, cursor).1 <= after_home(buf, cursor).0.len(),
        after_end(buf, cursor).1 <= after_end(buf, cursor).0.len(),
{
}

/// Backspace right after typing a character takes the text and cursor back to where
/// they were.
pub proof fn law_backspace_undoes_insert(buf: Seq<char>, cursor: nat, c: char)
    requires
        cursor <= buf.len(),
    ensures
        ({
            let (b1, k1) = after_insert(buf, cursor, c);
            after_backspace(b1, k1) == (buf, cursor)
        }),
{
    let (b1, k1) = after_insert(buf, cursor, c);
    assert(b1.remove(cursor as int) =~= buf);
}

/// Enter types a line break like any character: from the same text and cursor,
/// `insert_newline` leaves what `insert_char('\n')` leaves. The break lands at the
/// cursor, the text grows by one, and the cursor moves past it.
pub proof fn law_newline_is_typed_like_a_character(buf: Seq<char>, cursor: nat)
    ensures
        after_newline(buf, cursor) == after_insert(buf, cursor, '\n'),
        ({
            let (b1, k1) = after_newline(buf, cursor);
            &&& b1.len() == buf.len() + 1
            &&& b1[insert_index(buf.len(), cursor) as int] == '\n'
            &&& k1 == cursor + 1
            &&& b1.remove(insert_index(buf.len(), cursor) as int) == buf
        }),
{
    let p = insert_index(buf.len(), cursor) as int;
    assert(buf.take(p) + seq!['\n'] + buf.skip(p) =~= buf.take(p).push('\n') + buf.skip(p));
    let (b1, k1) = after_newline(buf, cursor);
    assert(b1.remove(p) =~= buf);
}

/// Typing a character, stepping left onto it and pressing Delete leaves the text and
/// cursor as they were.
pub proof fn law_delete_undoes_insert(buf: Seq<char>, cursor: nat, c: char)
    requires
        cursor <= buf.len(),
    ensures
        ({
            let (b1, k1) = after_insert(buf, cursor, c);
            let (b2, k2) = after_move_left(b1, k1);
            after_delete(b2, k2) == (buf, cursor)
        }),
{
    let (b1, k1) = after_insert(buf, cursor, c);
    assert(b1.remove(cursor as int) =~= buf);
}

/// Moving right and then left returns to the same place, away from the end of the text.
pub proof fn law_left_undoes_right(buf: Seq<char>, cursor: nat)
    requires
        cursor < buf.len(),
    ensures
        ({
            let (b1, k1) = after_move_right(buf, cursor);
            after_move_left(b1, k1) == (buf, cursor)
        }),
{
}

/// Cursor moves never change the text.
pub proof fn law_moves_keep_text(buf: Seq<char>, cursor: nat)
    ensures
        after_move_left(buf, cursor).0 == buf,
        after_move_right(buf, cursor).0 == buf,
        after_home(buf, cursor).0 == buf,
        after_end(buf, cursor).0 == buf,
{
}

} // verus!
