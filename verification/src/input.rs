//! A one-line text editor: the characters typed so far and a cursor that
//! insertion, deletion and arrow keys move. It stands behind the input mode
//! of the subscription view.

use crate::help::append_chars;
use vstd::prelude::*;

verus! {

/// Editor state: the typed characters and a cursor position inside them.
#[derive(Debug)]
pub struct InputBuffer {
    pub chars: Vec<char>,
    pub cursor: usize,
}

impl InputBuffer {
    /// The cursor never leaves the text.
    pub open spec fn wf(&self) -> bool {
        self.cursor <= self.chars@.len()
    }

    /// An empty editor.
    pub fn new() -> (r: InputBuffer)
        ensures
            r.wf(),
            r.chars@ == Seq::<char>::empty(),
            r.cursor == 0,
    {
        InputBuffer { chars: Vec::new(), cursor: 0 }
    }

    /// Inserts `c` at the cursor; the cursor ends up behind it.
    pub fn insert_char(&mut self, c: char)
        requires
            old(self).wf(),
        ensures
            final(self).wf(),
            final(self).chars@ == old(self).chars@.insert(old(self).cursor as int, c),
            final(self).cursor == old(self).cursor + 1,
    {
        self.chars.insert(self.cursor, c);
        let n = self.chars.len();
        proof {
            assert(self.cursor < n);
        }
        self.cursor = self.cursor + 1;
    }

    /// Removes the character before the cursor, when there is one.
    pub fn backspace(&mut self)
        requires
            old(self).wf(),
        ensures
            final(self).wf(),
            old(self).cursor > 0 ==> final(self).chars@ == old(self).chars@.remove(
                old(self).cursor - 1,
            ) && final(self).cursor == old(self).cursor - 1,
            old(self).cursor == 0 ==> *final(self) == *old(self),
    {
        if self.cursor > 0 {
            self.chars.remove(self.cursor - 1);
            self.cursor = self.cursor - 1;
        }
    }

    /// Moves the cursor one place left, stopping at the start.
    pub fn move_left(&mut self)
        requires
            old(self).wf(),
        ensures
            final(self).wf(),
            final(self).chars@ == old(self).chars@,
            final(self).cursor == (if old(self).cursor > 0 {
                old(self).cursor - 1
            } else {
                0int
            }),
    {
        if self.cursor > 0 {
            self.cursor = self.cursor - 1;
        }
    }

    /// Moves the cursor one place right, stopping at the end.
    pub fn move_right(&mut self)
        requires
            old(self).wf(),
        ensures
            final(self).wf(),
            final(self).chars@ == old(self).chars@,
            final(self).cursor == (if old(self).cursor < old(self).chars@.len() {
                old(self).cursor + 1
            } else {
                old(self).cursor as int
            }),
    {
        if self.cursor < self.chars.len() {
            self.cursor = self.cursor + 1;
        }
    }

    /// The typed text.
    pub fn text(&self) -> (r: String)
        ensures
            r@ == self.chars@,
    {
        let mut s = String::new();
        append_chars(&mut s, &self.chars);
        proof {
            assert(Seq::<char>::empty() + self.chars@ =~= self.chars@);
        }
        s
    }

    /// Clears the editor.
    pub fn reset(&mut self)
        ensures
            final(self).wf(),
            final(self).chars@ == Seq::<char>::empty(),
            final(self).cursor == 0,
    {
        self.chars.clear();
        self.cursor = 0;
    }
}

} // verus!
