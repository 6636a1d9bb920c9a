//! Comparisons of texts, character by character.

use vstd::prelude::*;
use vstd::std_specs::iter::IteratorSpec;

verus! {

/// Whether `prefix` is the start of `text`.
pub fn starts_with(text: &str, prefix: &str) -> (found: bool)
    ensures
        found == prefix@.is_prefix_of(text@),
{
    let mut rest = text.chars();
    let mut wanted = prefix.chars();
    let ghost mut done: int = 0;
    loop
        invariant
            rest.obeys_prophetic_iter_laws(),
            wanted.obeys_prophetic_iter_laws(),
            0 <= done <= text@.len(),
            done <= prefix@.len(),
            rest.remaining() == text@.skip(done),
            wanted.remaining() == prefix@.skip(done),
            text@.take(done) == prefix@.take(done),
        decreases prefix@.len() - done,
    {
        match wanted.next() {
            None => {
                assert(prefix@.take(done) == prefix@);
                return true;
            },
            Some(w) => {
                match rest.next() {
                    None => {
                        return false;
                    },
                    Some(c) => {
                        if c != w {
                            assert(text@[done] != prefix@[done]);
                            return false;
                        }
                        proof {
                            assert(text@.skip(done).drop_first() == text@.skip(done + 1));
                            assert(prefix@.skip(done).drop_first() == prefix@.skip(done + 1));
                            assert(text@.take(done + 1) == text@.take(done).push(text@[done]));
                            assert(prefix@.take(done + 1) == prefix@.take(done).push(prefix@[done]));
                            done = done + 1;
                        }
                    },
                }
            },
        }
    }
}

/// Whether two texts hold the same characters.
pub fn same_text(left: &str, right: &str) -> (same: bool)
    ensures
        same == (left@ == right@),
{
    let mut l = left.chars();
    let mut r = right.chars();
    let ghost mut done: int = 0;
    loop
        invariant
            l.obeys_prophetic_iter_laws(),
            r.obeys_prophetic_iter_laws(),
            0 <= done <= left@.len(),
            done <= right@.len(),
            l.remaining() == left@.skip(done),
            r.remaining() == right@.skip(done),
            left@.take(done) == right@.take(done),
        decreases left@.len() - done,
    {
        match l.next() {
            None => {
                let end = r.next();
                assert(left@.take(done) == left@);
                assert(end is None ==> right@.take(done) == right@);
                return end.is_none();
            },
            Some(a) => {
                match r.next() {
                    None => {
                        return false;
                    },
                    Some(b) => {
                        if a != b {
                            assert(left@[done] != right@[done]);
                            return false;
                        }
                        proof {
                            assert(left@.skip(done).drop_first() == left@.skip(done + 1));
                            assert(right@.skip(done).drop_first() == right@.skip(done + 1));
                            assert(left@.take(done + 1) == left@.take(done).push(left@[done]));
                            assert(right@.take(done + 1) == right@.take(done).push(right@[done]));
                            done = done + 1;
                        }
                    },
                }
            },
        }
    }
}

/// Adds `c` at the end of `text`: `String::push` of the standard library,
/// which is taken on trust to do so.
#[verifier::external_body]
pub(crate) fn push_char(text: &mut String, c: char)
    ensures
        final(text)@ == old(text)@.push(c),
{
    text.push(c);
}

} // verus!
