//! The document store: an ordered sequence of lines, each an ordered sequence
//! of characters, together with the text format it is loaded from and saved
//! to (every line followed by a single newline).

use vstd::pervasive::VecAdditionalExecFns;
use vstd::prelude::*;

verus! {

/// Splits `t` into lines, carrying `cur` as the partial line read so far.
/// A newline ends the current line; a non-empty partial line at the end of
/// the text becomes a final line of its own.
pub open spec fn split_from(t: Seq<char>, cur: Seq<char>) -> Seq<Seq<char>>
    decreases t.len(),
{
    if t.len() == 0 {
        if cur.len() == 0 {
            Seq::<Seq<char>>::empty()
        } else {
            seq![cur]
        }
    } else if t[0] == '\n' {
        seq![cur] + split_from(t.skip(1), Seq::<char>::empty())
    } else {
        split_from(t.skip(1), cur.push(t[0]))
    }
}

/// The lines of the text `t`: segments between newlines, where a trailing
/// newline produces no extra empty line. Empty text has no lines.
pub open spec fn split_lines(t: Seq<char>) -> Seq<Seq<char>> {
    split_from(t, Seq::<char>::empty())
}

/// The text of the lines `ls`: each line followed by a single newline.
pub open spec fn join_lines(ls: Seq<Seq<char>>) -> Seq<char>
    decreases ls.len(),
{
    if ls.len() == 0 {
        Seq::<char>::empty()
    } else {
        ls[0] + seq!['\n'] + join_lines(ls.skip(1))
    }
}

/// Joining one more line at the end appends that line and a newline.
pub proof fn lemma_join_push(ls: Seq<Seq<char>>, l: Seq<char>)
    ensures
        join_lines(ls.push(l)) == join_lines(ls) + l + seq!['\n'],
    decreases ls.len(),
{
    if ls.len() == 0 {
        assert(ls.push(l).skip(1) =~= Seq::<Seq<char>>::empty());
        assert(ls.push(l).len() == 1);
        assert(ls.push(l)[0] == l);
        assert(join_lines(ls.push(l).skip(1)) == Seq::<char>::empty());
        assert(join_lines(ls.push(l)) == l + seq!['\n'] + Seq::<char>::empty());
        assert(l + seq!['\n'] + Seq::<char>::empty() =~= Seq::<char>::empty() + l + seq!['\n']);
    } else {
        assert(ls.push(l).skip(1) =~= ls.skip(1).push(l));
        lemma_join_push(ls.skip(1), l);
        assert(ls[0] + seq!['\n'] + (join_lines(ls.skip(1)) + l + seq!['\n']) =~= (ls[0]
            + seq!['\n'] + join_lines(ls.skip(1))) + l + seq!['\n']);
    }
}

/// Joining the lines split out of `t` restores `cur + t`, provided the text
/// is newline-terminated (or empty with no partial line pending).
proof fn lemma_join_split_from(t: Seq<char>, cur: Seq<char>)
    requires
        t.len() == 0 ==> cur.len() == 0,
        t.len() > 0 ==> t[t.len() - 1] == '\n',
    ensures
        join_lines(split_from(t, cur)) == cur + t,
    decreases t.len(),
{
    if t.len() == 0 {
        assert(cur + t =~= Seq::<char>::empty());
    } else if t[0] == '\n' {
        let rest = t.skip(1);
        if rest.len() > 0 {
            assert(rest[rest.len() - 1] == t[t.len() - 1]);
        }
        lemma_join_split_from(rest, Seq::<char>::empty());
        let s = split_from(rest, Seq::<char>::empty());
        assert((seq![cur] + s).skip(1) =~= s);
        assert(join_lines(seq![cur] + s) == cur + seq!['\n'] + join_lines(s));
        assert(Seq::<char>::empty() + rest =~= rest);
        assert(cur + seq!['\n'] + rest =~= cur + t);
    } else {
        let rest = t.skip(1);
        assert(rest[rest.len() - 1] == t[t.len() - 1]);
        lemma_join_split_from(rest, cur.push(t[0]));
        assert(cur.push(t[0]) + rest =~= cur + t);
    }
}

/// Load/save round trip: serializing the lines loaded from `t` restores `t`
/// exactly, for any text whose last character is a newline (or empty text).
pub proof fn lemma_load_serialize_round_trip(t: Seq<char>)
    requires
        t.len() == 0 || t[t.len() - 1] == '\n',
    ensures
        join_lines(split_lines(t)) == t,
{
    lemma_join_split_from(t, Seq::<char>::empty());
    assert(Seq::<char>::empty() + t =~= t);
}

/// The view of a vector of lines: the sequence of its lines' character
/// sequences.
pub open spec fn lines_view(lines: Seq<Vec<char>>) -> Seq<Seq<char>> {
    Seq::new(lines.len(), |i: int| lines[i]@)
}

/// The ordered line store of one document.
pub struct Document {
    pub lines: Vec<Vec<char>>,
}

impl View for Document {
    type V = Seq<Seq<char>>;

    open spec fn view(&self) -> Seq<Seq<char>> {
        lines_view(self.lines@)
    }
}

impl Document {
    /// A document with no lines.
    pub fn new() -> (d: Document)
        ensures
            d@ == Seq::<Seq<char>>::empty(),
    {
        let d = Document { lines: Vec::new() };
        proof {
            assert(d@ =~= Seq::<Seq<char>>::empty());
        }
        d
    }

    /// Builds the document whose lines are the lines of `text`.
    pub fn load(text: &Vec<char>) -> (d: Document)
        ensures
            d@ == split_lines(text@),
    {
        let mut lines: Vec<Vec<char>> = Vec::new();
        let mut cur: Vec<char> = Vec::new();
        let mut i: usize = 0;
        proof {
            assert(text@.skip(0) =~= text@);
            assert(lines_view(lines@) =~~= Seq::<Seq<char>>::empty());
            assert(split_from(text@.skip(0), cur@) == split_lines(text@));
            assert(lines_view(lines@) + split_from(text@.skip(0), cur@) =~~= split_lines(text@));
        }
        while i < text.len()
            invariant
                i <= text@.len(),
                lines_view(lines@) + split_from(text@.skip(i as int), cur@) == split_lines(text@),
            decreases text@.len() - i,
        {
            let c = text[i];
            proof {
                assert(text@.skip(i as int).len() > 0);
                assert(text@.skip(i as int)[0] == text@[i as int]);
                assert(text@.skip(i as int).skip(1) =~= text@.skip(i + 1));
            }
            if c == '\n' {
                proof {
                    assert(split_from(text@.skip(i as int), cur@) == seq![cur@] + split_from(
                        text@.skip(i + 1),
                        Seq::<char>::empty(),
                    ));
                    assert(lines_view(lines@.push(cur)) =~~= lines_view(lines@).push(cur@));
                    assert(lines_view(lines@.push(cur)) + split_from(
                        text@.skip(i + 1),
                        Seq::<char>::empty(),
                    ) =~~= lines_view(lines@) + (seq![cur@] + split_from(
                        text@.skip(i + 1),
                        Seq::<char>::empty(),
                    )));
                }
                lines.push(cur);
                cur = Vec::new();
                proof {
                    assert(cur@ =~= Seq::<char>::empty());
                }
            } else {
                proof {
                    assert(split_from(text@.skip(i as int), cur@) == split_from(
                        text@.skip(i + 1),
                        cur@.push(c),
                    ));
                }
                cur.push(c);
            }
            i = i + 1;
        }
        proof {
            assert(text@.skip(text@.len() as int) =~= Seq::<char>::empty());
        }
        if cur.len() > 0 {
            proof {
                assert(split_from(Seq::<char>::empty(), cur@) =~~= seq![cur@]);
                assert(lines_view(lines@.push(cur)) =~~= lines_view(lines@).push(cur@));
                assert(lines_view(lines@) + seq![cur@] =~~= lines_view(lines@).push(cur@));
            }
            lines.push(cur);
        } else {
            proof {
                assert(split_from(Seq::<char>::empty(), cur@) =~~= Seq::<Seq<char>>::empty());
                assert(lines_view(lines@) + Seq::<Seq<char>>::empty() =~~= lines_view(lines@));
            }
        }
        Document { lines }
    }

    /// The number of lines.
    pub fn line_count(&self) -> (n: usize)
        ensures
            n == self@.len(),
    {
        self.lines.len()
    }

    /// The line at index `i`.
    pub fn get(&self, i: usize) -> (l: &Vec<char>)
        requires
            i < self@.len(),
        ensures
            l@ == self@[i as int],
    {
        &self.lines[i]
    }

    /// Replaces the line at index `i`.
    pub fn set(&mut self, i: usize, l: Vec<char>)
        requires
            i < old(self)@.len(),
        ensures
            final(self)@ == old(self)@.update(i as int, l@),
    {
        self.lines.set(i, l);
        proof {
            assert(self@ =~~= old(self)@.update(i as int, l@));
        }
    }

    /// Inserts a line at index `i`, shifting later lines up by one index.
    pub fn insert_line(&mut self, i: usize, l: Vec<char>)
        requires
            i <= old(self)@.len(),
        ensures
            final(self)@ == old(self)@.insert(i as int, l@),
    {
        self.lines.insert(i, l);
        proof {
            assert(self@ =~~= old(self)@.insert(i as int, l@));
        }
    }

    /// Removes the line at index `i`, shifting later lines down by one index.
    pub fn remove_line(&mut self, i: usize)
        requires
            i < old(self)@.len(),
        ensures
            final(self)@ == old(self)@.remove(i as int),
    {
        self.lines.remove(i);
        proof {
            assert(self@ =~~= old(self)@.remove(i as int));
        }
    }

    /// The document's text: every line followed by a single newline.
    pub fn serialize(&self) -> (out: Vec<char>)
        ensures
            out@ == join_lines(self@),
    {
        let mut out: Vec<char> = Vec::new();
        let mut i: usize = 0;
        proof {
            assert(self@.take(0) =~~= Seq::<Seq<char>>::empty());
        }
        while i < self.lines.len()
            invariant
                i <= self@.len(),
                self@.len() == self.lines@.len(),
                out@ == join_lines(self@.take(i as int)),
            decreases self@.len() - i,
        {
            append_line(&mut out, &self.lines[i]);
            proof {
                lemma_join_push(self@.take(i as int), self@[i as int]);
                assert(self@.take(i as int).push(self@[i as int]) =~~= self@.take(i + 1));
            }
            i = i + 1;
        }
        proof {
            assert(self@.take(self@.len() as int) =~~= self@);
        }
        out
    }
}

/// Appends one line and its terminating newline to the output text.
fn append_line(out: &mut Vec<char>, line: &Vec<char>)
    ensures
        final(out)@ == old(out)@ + line@ + seq!['\n'],
{
    crate::chars::append_chars(out, line);
    out.push('\n');
    proof {
        assert((old(out)@ + line@).push('\n') =~= old(out)@ + line@ + seq!['\n']);
    }
}

} // verus!
