//! The active line editor: a scratch buffer of characters plus a cursor
//! offset, holding the working copy of the currently selected document line.

use vstd::prelude::*;

verus! {

/// The scratch buffer for the line currently being edited, together with the
/// cursor offset. The offset counts characters; `offset == buf.len()` means
/// the cursor sits after the last character.
pub struct TextEdit {
    pub buf: Vec<char>,
    pub offset: usize,
}

impl TextEdit {
    /// The standing invariant: the cursor never leaves the buffer.
    pub open spec fn wf(&self) -> bool {
        self.offset <= self.buf@.len()
    }

    /// A fresh editor: empty buffer, cursor at the start.
    pub fn new() -> (r: TextEdit)
        ensures
            r.buf@ == Seq::<char>::empty(),
            r.offset == 0,
            r.wf(),
    {
        TextEdit { buf: Vec::new(), offset: 0 }
    }

    /// Move the cursor one character to the right, saturating at the end of
    /// the buffer.
    pub fn right(&mut self)
        requires
            old(self).wf(),
        ensures
            final(self).buf == old(self).buf,
            final(self).offset == if old(self).offset < old(self).buf@.len() {
                old(self).offset + 1
            } else {
                old(self).offset as int
            },
            final(self).wf(),
    {
        if self.offset < self.buf.len() {
            self.offset = self.offset + 1;
        }
    }

    /// Move the cursor one character to the left, saturating at the start of
    /// the buffer.
    pub fn left(&mut self)
        requires
            old(self).wf(),
        ensures
            final(self).buf == old(self).buf,
            final(self).offset == if old(self).offset > 0 {
                old(self).offset - 1
            } else {
                0int
            },
            final(self).wf(),
    {
        if self.offset > 0 {
            self.offset = self.offset - 1;
        }
    }

    /// Insert a character at the cursor and advance the cursor past it.
    pub fn insert(&mut self, c: char)
        requires
            old(self).wf(),
        ensures
            final(self).buf@ == old(self).buf@.insert(old(self).offset as int, c),
            final(self).offset == old(self).offset + 1,
            final(self).wf(),
    {
        if self.offset <= self.buf.len() {
            self.buf.insert(self.offset, c);
            let n = self.buf.len();
            assert(self.offset + 1 <= n);
            self.offset = self.offset + 1;
        }
    }

    /// Remove the character just before the cursor and move the cursor back
    /// over it. With the cursor at the start of the buffer this is a no-op:
    /// the caller decides whether that event means a line join instead.
    pub fn remove(&mut self)
        requires
            old(self).wf(),
        ensures
            final(self).buf@ == if old(self).offset > 0 {
                old(self).buf@.remove(old(self).offset - 1)
            } else {
                old(self).buf@
            },
            final(self).offset == if old(self).offset > 0 {
                old(self).offset - 1
            } else {
                0int
            },
            final(self).wf(),
    {
        if self.offset > 0 && self.offset <= self.buf.len() {
            self.buf.remove(self.offset - 1);
            self.offset = self.offset - 1;
        }
    }

    /// Move the cursor to the start of the buffer.
    pub fn move_to_start(&mut self)
        ensures
            final(self).buf == old(self).buf,
            final(self).offset == 0,
            final(self).wf(),
    {
        self.offset = 0;
    }

    /// Move the cursor past the last character of the buffer.
    pub fn move_to_end(&mut self)
        ensures
            final(self).buf == old(self).buf,
            final(self).offset == old(self).buf@.len(),
            final(self).wf(),
    {
        self.offset = self.buf.len();
    }
}

} // verus!
