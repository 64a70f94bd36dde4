//! The editing context: the document store, the selection cursor and the
//! active line editor, together with the synchronization protocol that moves
//! content between the scratch buffer and the document on navigation, split
//! and join events.

use crate::chars::copy_chars;
use crate::document::{join_lines, split_lines, Document};
use crate::text_edit::TextEdit;
use vstd::prelude::*;

verus! {

/// One discrete edit command, as handed to the core by the input loop.
#[derive(Clone, Copy, Debug)]
pub enum Command {
    InsertChar(char),
    DeleteBackward,
    Split,
    JoinOrDeleteBackward,
    MoveLeft,
    MoveRight,
    MoveUp,
    MoveDown,
    MoveHome,
    MoveEnd,
}

/// The mathematical state of the editing context: the stored lines, the
/// selected line index, and the scratch buffer with its cursor offset.
#[verifier::ext_equal]
pub ghost struct EditorModel {
    pub lines: Seq<Seq<char>>,
    pub selected: Option<int>,
    pub buf: Seq<char>,
    pub offset: int,
}

impl EditorModel {
    /// The standing invariant: the cursor stays inside the scratch buffer,
    /// the selection is a valid line index, and the selection is absent
    /// exactly when the document has no lines.
    pub open spec fn wf(&self) -> bool {
        &&& 0 <= self.offset <= self.buf.len()
        &&& match self.selected {
            Some(i) => 0 <= i < self.lines.len(),
            None => true,
        }
        &&& (self.selected is None <==> self.lines.len() == 0)
    }
}

/// Inserting a character at the cursor.
pub open spec fn insert_model(m: EditorModel, c: char) -> EditorModel {
    EditorModel { buf: m.buf.insert(m.offset, c), offset: m.offset + 1, ..m }
}

/// Removing the character before the cursor; with the cursor at the start of
/// the line this is a no-op.
pub open spec fn delete_model(m: EditorModel) -> EditorModel {
    if m.offset > 0 {
        EditorModel { buf: m.buf.remove(m.offset - 1), offset: m.offset - 1, ..m }
    } else {
        m
    }
}

/// Moving the cursor left, saturating at the start of the buffer.
pub open spec fn left_model(m: EditorModel) -> EditorModel {
    if m.offset > 0 {
        EditorModel { offset: m.offset - 1, ..m }
    } else {
        m
    }
}

/// Moving the cursor right, saturating at the end of the buffer.
pub open spec fn right_model(m: EditorModel) -> EditorModel {
    if m.offset < m.buf.len() {
        EditorModel { offset: m.offset + 1, ..m }
    } else {
        m
    }
}

/// Moving the cursor to the start of the buffer.
pub open spec fn home_model(m: EditorModel) -> EditorModel {
    EditorModel { offset: 0, ..m }
}

/// Moving the cursor past the last character of the buffer.
pub open spec fn end_model(m: EditorModel) -> EditorModel {
    EditorModel { offset: m.buf.len() as int, ..m }
}

/// Splitting the selected line at the cursor. On an empty document this
/// seeds a single empty line; otherwise the head stays at the selected
/// index, the tail becomes a new line below it, and the tail is checked out
/// with the cursor at its start.
pub open spec fn split_model(m: EditorModel) -> EditorModel {
    if m.lines.len() == 0 {
        EditorModel {
            lines: seq![Seq::<char>::empty()],
            selected: Some(0),
            buf: Seq::<char>::empty(),
            offset: 0,
        }
    } else {
        match m.selected {
            None => m,
            Some(i) => EditorModel {
                lines: m.lines.update(i, m.buf.take(m.offset)).insert(i + 1, m.buf.skip(m.offset)),
                selected: Some(i + 1),
                buf: m.buf.skip(m.offset),
                offset: 0,
            },
        }
    }
}

/// The backspace event: with the cursor inside the line it deletes the
/// previous character; at the start of a line other than the first it joins
/// the line into the previous one, with the cursor landing on the seam; at
/// the start of the first line it is a no-op.
pub open spec fn join_model(m: EditorModel) -> EditorModel {
    if m.offset > 0 {
        delete_model(m)
    } else {
        match m.selected {
            None => m,
            Some(i) => if i == 0 {
                m
            } else {
                EditorModel {
                    lines: m.lines.update(i - 1, m.lines[i - 1] + m.buf).remove(i),
                    selected: Some(i - 1),
                    buf: m.lines[i - 1] + m.buf,
                    offset: m.lines[i - 1].len() as int,
                }
            },
        }
    }
}

/// Moving the selection up one line: commit the scratch buffer, check out
/// the line above, and clamp the cursor to its length. At the first line
/// this is a no-op.
pub open spec fn up_model(m: EditorModel) -> EditorModel {
    match m.selected {
        None => m,
        Some(i) => if i == 0 {
            m
        } else {
            let committed = m.lines.update(i, m.buf);
            let nb = committed[i - 1];
            EditorModel {
                lines: committed,
                selected: Some(i - 1),
                buf: nb,
                offset: if m.offset > nb.len() {
                    nb.len() as int
                } else {
                    m.offset
                },
            }
        },
    }
}

/// Moving the selection down one line: commit the scratch buffer, check out
/// the line below, and clamp the cursor to its length. At the last line
/// this is a no-op.
pub open spec fn down_model(m: EditorModel) -> EditorModel {
    match m.selected {
        None => m,
        Some(i) => if i + 1 >= m.lines.len() {
            m
        } else {
            let committed = m.lines.update(i, m.buf);
            let nb = committed[i + 1];
            EditorModel {
                lines: committed,
                selected: Some(i + 1),
                buf: nb,
                offset: if m.offset > nb.len() {
                    nb.len() as int
                } else {
                    m.offset
                },
            }
        },
    }
}

/// Committing the scratch buffer back into the selected line.
pub open spec fn commit_model(m: EditorModel) -> EditorModel {
    match m.selected {
        None => m,
        Some(i) => EditorModel { lines: m.lines.update(i, m.buf), ..m },
    }
}

/// The state produced by loading the text `t`: its lines, with the first
/// line checked out when there is one.
pub open spec fn load_model(t: Seq<char>) -> EditorModel {
    let lines = split_lines(t);
    EditorModel {
        lines: lines,
        selected: if lines.len() == 0 {
            None
        } else {
            Some(0)
        },
        buf: if lines.len() == 0 {
            Seq::<char>::empty()
        } else {
            lines[0]
        },
        offset: 0,
    }
}

/// The transition made by one command.
pub open spec fn step(m: EditorModel, cmd: Command) -> EditorModel {
    match cmd {
        Command::InsertChar(c) => insert_model(m, c),
        Command::DeleteBackward => delete_model(m),
        Command::Split => split_model(m),
        Command::JoinOrDeleteBackward => join_model(m),
        Command::MoveLeft => left_model(m),
        Command::MoveRight => right_model(m),
        Command::MoveUp => up_model(m),
        Command::MoveDown => down_model(m),
        Command::MoveHome => home_model(m),
        Command::MoveEnd => end_model(m),
    }
}

/// Offset invariant: every defined command preserves well-formedness, so
/// along any sequence of commands the cursor offset stays within the scratch
/// buffer and the selection stays valid.
pub proof fn lemma_step_preserves_wf(m: EditorModel, cmd: Command)
    requires
        m.wf(),
    ensures
        step(m, cmd).wf(),
{
}

/// Split/join inverse: splitting the selected line at the cursor and then
/// immediately joining at the seam restores the selection, the scratch
/// buffer and the cursor offset, and leaves the document equal to the
/// original with the scratch buffer committed at the selected index.
pub proof fn lemma_split_join_inverse(m: EditorModel)
    requires
        m.wf(),
        m.selected is Some,
    ensures
        join_model(split_model(m)).selected == m.selected,
        join_model(split_model(m)).offset == m.offset,
        join_model(split_model(m)).buf == m.buf,
        join_model(split_model(m)).lines == m.lines.update(m.selected->0, m.buf),
{
    let i = m.selected->0;
    let head = m.buf.take(m.offset);
    let tail = m.buf.skip(m.offset);
    let s = split_model(m);
    assert(s.lines[i] == head);
    assert(head + tail =~= m.buf);
    let r = join_model(s);
    assert(r.buf == m.buf);
    assert(r.offset == head.len());
    assert(r.lines =~~= m.lines.update(i, m.buf));
}

/// The editing context: document store, selection cursor, active line
/// editor. The selected line's authoritative content lives in the scratch
/// buffer; the document's stored copy of that line is stale until a commit.
pub struct Editor {
    pub doc: Document,
    pub selected: Option<usize>,
    pub edit: TextEdit,
}

impl View for Editor {
    type V = EditorModel;

    open spec fn view(&self) -> EditorModel {
        EditorModel {
            lines: self.doc@,
            selected: match self.selected {
                Some(i) => Some(i as int),
                None => None,
            },
            buf: self.edit.buf@,
            offset: self.edit.offset as int,
        }
    }
}

impl Editor {
    /// The standing invariant of the context.
    pub open spec fn wf(&self) -> bool {
        self@.wf()
    }

    /// Loads a document from its text. A non-empty document checks out its
    /// first line with the cursor at the start; an empty one has no
    /// selection and an empty scratch buffer.
    pub fn load(text: &Vec<char>) -> (e: Editor)
        ensures
            e@ == load_model(text@),
            e.wf(),
    {
        let doc = Document::load(text);
        if doc.line_count() == 0 {
            let e = Editor { doc, selected: None, edit: TextEdit::new() };
            proof {
                assert(e@ =~~= load_model(text@));
            }
            e
        } else {
            let buf = copy_chars(doc.get(0));
            let e = Editor { doc, selected: Some(0), edit: TextEdit { buf, offset: 0 } };
            proof {
                assert(e@ =~~= load_model(text@));
            }
            e
        }
    }

    /// Inserts a character at the cursor.
    pub fn insert_char(&mut self, c: char)
        requires
            old(self).wf(),
        ensures
            final(self)@ == insert_model(old(self)@, c),
            final(self).wf(),
    {
        self.edit.insert(c);
        proof {
            assert(self@ =~~= insert_model(old(self)@, c));
        }
    }

    /// Removes the character before the cursor; a no-op with the cursor at
    /// the start of the line.
    pub fn delete_backward(&mut self)
        requires
            old(self).wf(),
        ensures
            final(self)@ == delete_model(old(self)@),
            final(self).wf(),
    {
        self.edit.remove();
        proof {
            assert(self@ =~~= delete_model(old(self)@));
        }
    }

    /// Moves the cursor left within the line.
    pub fn move_left(&mut self)
        requires
            old(self).wf(),
        ensures
            final(self)@ == left_model(old(self)@),
            final(self).wf(),
    {
        self.edit.left();
        proof {
            assert(self@ =~~= left_model(old(self)@));
        }
    }

    /// Moves the cursor right within the line.
    pub fn move_right(&mut self)
        requires
            old(self).wf(),
        ensures
            final(self)@ == right_model(old(self)@),
            final(self).wf(),
    {
        self.edit.right();
        proof {
            assert(self@ =~~= right_model(old(self)@));
        }
    }

    /// Moves the cursor to the start of the line.
    pub fn move_home(&mut self)
        requires
            old(self).wf(),
        ensures
            final(self)@ == home_model(old(self)@),
            final(self).wf(),
    {
        self.edit.move_to_start();
        proof {
            assert(self@ =~~= home_model(old(self)@));
        }
    }

    /// Moves the cursor past the last character of the line.
    pub fn move_end(&mut self)
        requires
            old(self).wf(),
        ensures
            final(self)@ == end_model(old(self)@),
            final(self).wf(),
    {
        self.edit.move_to_end();
        proof {
            assert(self@ =~~= end_model(old(self)@));
        }
    }

    /// Splits the selected line at the cursor; on an empty document, seeds a
    /// single empty line.
    pub fn split(&mut self)
        requires
            old(self).wf(),
        ensures
            final(self)@ == split_model(old(self)@),
            final(self).wf(),
    {
        let n: usize = self.doc.line_count();
        if n == 0 {
            self.doc.insert_line(0, Vec::new());
            self.selected = Some(0);
            self.edit.buf = Vec::new();
            self.edit.offset = 0;
            proof {
                assert(self@.lines =~~= seq![Seq::<char>::empty()]);
                assert(self@ =~~= split_model(old(self)@));
            }
        } else {
            match self.selected {
                None => {
                    proof {
                        assert(self@ =~~= split_model(old(self)@));
                    }
                }
                Some(i) => {
                    let tail = self.edit.buf.split_off(self.edit.offset);
                    let head_copy = copy_chars(&self.edit.buf);
                    self.doc.set(i, head_copy);
                    let tail_copy = copy_chars(&tail);
                    self.doc.insert_line(i + 1, tail_copy);
                    self.edit.buf = tail;
                    self.edit.offset = 0;
                    self.selected = Some(i + 1);
                    proof {
                        assert(self@ =~~= split_model(old(self)@));
                    }
                }
            }
        }
    }

    /// The backspace event: deletes the previous character, or joins the
    /// selected line into the previous one when the cursor is at the start
    /// of a line other than the first.
    pub fn join_or_delete_backward(&mut self)
        requires
            old(self).wf(),
        ensures
            final(self)@ == join_model(old(self)@),
            final(self).wf(),
    {
        if self.edit.offset > 0 {
            self.edit.remove();
            proof {
                assert(self@ =~~= join_model(old(self)@));
            }
        } else {
            match self.selected {
                None => {
                    proof {
                        assert(self@ =~~= join_model(old(self)@));
                    }
                }
                Some(i) => {
                    if i > 0 {
                        let prev_len: usize = self.doc.get(i - 1).len();
                        let mut merged = copy_chars(self.doc.get(i - 1));
                        crate::chars::append_chars(&mut merged, &self.edit.buf);
                        let merged_copy = copy_chars(&merged);
                        self.doc.set(i - 1, merged);
                        self.doc.remove_line(i);
                        self.selected = Some(i - 1);
                        self.edit.buf = merged_copy;
                        self.edit.offset = prev_len;
                        proof {
                            assert(self@ =~~= join_model(old(self)@));
                        }
                    } else {
                        proof {
                            assert(self@ =~~= join_model(old(self)@));
                        }
                    }
                }
            }
        }
    }

    /// Moves the selection up one line, committing the scratch buffer and
    /// checking out the new line; a no-op at the first line.
    pub fn move_up(&mut self)
        requires
            old(self).wf(),
        ensures
            final(self)@ == up_model(old(self)@),
            final(self).wf(),
            (old(self)@.selected matches Some(i) && i == 0) ==> final(self)@ == old(self)@,
    {
        match self.selected {
            None => {}
            Some(i) => {
                if i > 0 {
                    let b = copy_chars(&self.edit.buf);
                    self.doc.set(i, b);
                    let nb = copy_chars(self.doc.get(i - 1));
                    let nlen: usize = nb.len();
                    self.edit.buf = nb;
                    if self.edit.offset > nlen {
                        self.edit.offset = nlen;
                    }
                    self.selected = Some(i - 1);
                    proof {
                        assert(self@ =~~= up_model(old(self)@));
                    }
                }
            }
        }
    }

    /// Moves the selection down one line, committing the scratch buffer and
    /// checking out the new line; a no-op at the last line.
    pub fn move_down(&mut self)
        requires
            old(self).wf(),
        ensures
            final(self)@ == down_model(old(self)@),
            final(self).wf(),
            (old(self)@.selected matches Some(i) && i + 1 >= old(self)@.lines.len())
                ==> final(self)@ == old(self)@,
    {
        match self.selected {
            None => {}
            Some(i) => {
                let n: usize = self.doc.line_count();
                if i + 1 < n {
                    let b = copy_chars(&self.edit.buf);
                    self.doc.set(i, b);
                    let nb = copy_chars(self.doc.get(i + 1));
                    let nlen: usize = nb.len();
                    self.edit.buf = nb;
                    if self.edit.offset > nlen {
                        self.edit.offset = nlen;
                    }
                    self.selected = Some(i + 1);
                    proof {
                        assert(self@ =~~= down_model(old(self)@));
                    }
                }
            }
        }
    }

    /// Dispatches one command to the operation that handles it.
    pub fn apply(&mut self, cmd: Command)
        requires
            old(self).wf(),
        ensures
            final(self)@ == step(old(self)@, cmd),
            final(self).wf(),
    {
        match cmd {
            Command::InsertChar(c) => self.insert_char(c),
            Command::DeleteBackward => self.delete_backward(),
            Command::Split => self.split(),
            Command::JoinOrDeleteBackward => self.join_or_delete_backward(),
            Command::MoveLeft => self.move_left(),
            Command::MoveRight => self.move_right(),
            Command::MoveUp => self.move_up(),
            Command::MoveDown => self.move_down(),
            Command::MoveHome => self.move_home(),
            Command::MoveEnd => self.move_end(),
        }
    }

    /// Commits the scratch buffer back into the selected line.
    pub fn commit(&mut self)
        requires
            old(self).wf(),
        ensures
            final(self)@ == commit_model(old(self)@),
            final(self).wf(),
    {
        match self.selected {
            None => {}
            Some(i) => {
                let b = copy_chars(&self.edit.buf);
                self.doc.set(i, b);
                proof {
                    assert(self@ =~~= commit_model(old(self)@));
                }
            }
        }
    }

    /// The save event: commits the scratch buffer, then serializes the
    /// document as text, every line followed by a single newline.
    pub fn save_text(&mut self) -> (out: Vec<char>)
        requires
            old(self).wf(),
        ensures
            final(self)@ == commit_model(old(self)@),
            final(self).wf(),
            out@ == join_lines(commit_model(old(self)@).lines),
    {
        self.commit();
        self.doc.serialize()
    }
}

} // verus!
