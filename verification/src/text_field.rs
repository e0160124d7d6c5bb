//! A single-line text buffer with a cursor, edited one key per frame.

use vstd::prelude::*;
use crate::input::Key;
use crate::text::{chars_of, string_from_chars};

verus! {

/// The mathematical value of a [`TextField`]: its characters and the
/// position of the cursor among them.
#[verifier::ext_equal]
pub ghost struct TextModel {
    pub buffer: Seq<char>,
    pub cursor: nat,
}

impl TextModel {
    /// The cursor stands on a character or just behind the last one.
    pub open spec fn in_range(self) -> bool {
        self.cursor <= self.buffer.len()
    }

    /// The same text with the cursor pulled back to the end of the buffer
    /// where it lay beyond it.
    pub open spec fn clamped(self) -> TextModel {
        TextModel {
            buffer: self.buffer,
            cursor: if self.cursor > self.buffer.len() {
                self.buffer.len()
            } else {
                self.cursor
            },
        }
    }

    /// The field after one key: the cursor is clamped first, then the key
    /// inserts, deletes or moves; a key of no editing class leaves the
    /// clamped field as it is.
    pub open spec fn edited(self, key: Key) -> TextModel {
        let at = self.clamped().cursor;
        let len = self.buffer.len();
        match key {
            Key::Char(c) => TextModel {
                buffer: self.buffer.insert(at as int, c),
                cursor: at + 1,
            },
            Key::Left => TextModel {
                buffer: self.buffer,
                cursor: if at > 0 { (at - 1) as nat } else { 0 },
            },
            Key::Right => TextModel {
                buffer: self.buffer,
                cursor: if at < len { at + 1 } else { len },
            },
            Key::Backspace => if at > 0 {
                TextModel { buffer: self.buffer.remove(at - 1), cursor: (at - 1) as nat }
            } else {
                self.clamped()
            },
            Key::Delete => if at < len {
                TextModel { buffer: self.buffer.remove(at as int), cursor: at }
            } else {
                self.clamped()
            },
            _ => self.clamped(),
        }
    }

    /// The field after a run of keys, applied in order.
    pub open spec fn edited_all(self, keys: Seq<Key>) -> TextModel
        decreases keys.len(),
    {
        if keys.len() == 0 {
            self
        } else {
            self.edited_all(keys.drop_last()).edited(keys.last())
        }
    }
}

/// Whatever the field held and wherever its cursor lay, one key leaves the
/// cursor inside `[0, len]`.
pub proof fn lemma_edit_keeps_cursor_in_range(field: TextModel, key: Key)
    ensures
        field.edited(key).in_range(),
{
}

/// After each key of a non-empty run the cursor is inside `[0, len]`,
/// whatever state the run started from.
pub proof fn lemma_edits_keep_cursor_in_range(field: TextModel, keys: Seq<Key>, n: int)
    requires
        1 <= n <= keys.len(),
    ensures
        field.edited_all(keys.take(n)).in_range(),
{
    let run = keys.take(n);
    lemma_edit_keeps_cursor_in_range(field.edited_all(run.drop_last()), run.last());
}

/// An editable line of text. The cursor counts characters, not bytes. It may
/// lie beyond the end after the buffer was replaced from outside; the next
/// key pulls it back before it takes effect.
#[derive(Clone, Debug)]
pub struct TextField {
    pub buffer: Vec<char>,
    pub cursor: usize,
}

impl View for TextField {
    type V = TextModel;

    open spec fn view(&self) -> TextModel {
        TextModel { buffer: self.buffer@, cursor: self.cursor as nat }
    }
}

impl TextField {
    /// An empty field with the cursor at the start.
    pub fn new() -> (field: TextField)
        ensures
            field@ == (TextModel { buffer: Seq::empty(), cursor: 0 }),
    {
        TextField { buffer: Vec::new(), cursor: 0 }
    }

    /// A field that holds `text`, with the cursor at the start.
    pub fn from_text(text: &str) -> (field: TextField)
        ensures
            field@ == (TextModel { buffer: text@, cursor: 0 }),
    {
        TextField { buffer: chars_of(text), cursor: 0 }
    }

    /// The text of the field as a string.
    pub fn text(&self) -> (text: String)
        ensures
            text@ == self@.buffer,
    {
        string_from_chars(&self.buffer)
    }

    /// Applies the pending key of this frame.
    pub fn apply(&mut self, key: Key)
        ensures
            final(self)@ == old(self)@.edited(key),
            final(self)@.in_range(),
    {
        let len = self.buffer.len();
        if self.cursor > len {
            self.cursor = len;
        }
        match key {
            Key::Char(c) => {
                self.buffer.insert(self.cursor, c);
                // The grown buffer has a length, so `len + 1` is representable.
                let grown = self.buffer.len();
                assert(grown == len + 1);
                self.cursor = self.cursor + 1;
            },
            Key::Left => {
                if self.cursor > 0 {
                    self.cursor = self.cursor - 1;
                }
            },
            Key::Right => {
                if self.cursor < len {
                    self.cursor = self.cursor + 1;
                }
            },
            Key::Backspace => {
                if self.cursor > 0 {
                    self.cursor = self.cursor - 1;
                    self.buffer.remove(self.cursor);
                }
            },
            Key::Delete => {
                if self.cursor < len {
                    self.buffer.remove(self.cursor);
                }
            },
            _ => {},
        }
    }
}

} // verus!
