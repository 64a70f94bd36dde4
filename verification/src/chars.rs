//! Small character-sequence utilities shared by the document store and the
//! editor: copying and appending lines, and rendering a line as a `String`.

use vstd::prelude::*;

verus! {

/// Relies on `String::push`: appends the given character to the end of the
/// string.
pub assume_specification[ String::push ](s: &mut String, ch: char)
    ensures
        final(s)@ == old(s)@.push(ch),
;

/// Chars to string: builds the `String` holding exactly the characters of
/// `vec`, in order.
pub fn cts(vec: &Vec<char>) -> (res: String)
    ensures
        res@ == vec@,
{
    let mut res = String::new();
    let mut i: usize = 0;
    while i < vec.len()
        invariant
            i <= vec@.len(),
            res@ == vec@.take(i as int),
        decreases vec@.len() - i,
    {
        res.push(vec[i]);
        proof {
            assert(vec@.take(i + 1) =~= vec@.take(i as int).push(vec@[i as int]));
        }
        i = i + 1;
    }
    proof {
        assert(vec@.take(vec@.len() as int) =~= vec@);
    }
    res
}

/// A fresh character vector with the same contents as `src`.
pub fn copy_chars(src: &Vec<char>) -> (r: Vec<char>)
    ensures
        r@ == src@,
{
    let mut r: Vec<char> = Vec::new();
    let mut i: usize = 0;
    while i < src.len()
        invariant
            i <= src@.len(),
            r@ == src@.take(i as int),
        decreases src@.len() - i,
    {
        r.push(src[i]);
        proof {
            assert(src@.take(i + 1) =~= src@.take(i as int).push(src@[i as int]));
        }
        i = i + 1;
    }
    proof {
        assert(src@.take(src@.len() as int) =~= src@);
    }
    r
}

/// Appends the characters of `src` to the end of `dst`.
pub fn append_chars(dst: &mut Vec<char>, src: &Vec<char>)
    ensures
        final(dst)@ == old(dst)@ + src@,
{
    let mut i: usize = 0;
    while i < src.len()
        invariant
            i <= src@.len(),
            dst@ == old(dst)@ + src@.take(i as int),
        decreases src@.len() - i,
    {
        dst.push(src[i]);
        proof {
            assert(old(dst)@ + src@.take(i + 1) =~= (old(dst)@ + src@.take(i as int)).push(
                src@[i as int],
            ));
        }
        i = i + 1;
    }
    proof {
        assert(old(dst)@ + src@.take(src@.len() as int) =~= old(dst)@ + src@);
    }
}

} // verus!
