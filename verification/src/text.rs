//! Editing at the end of a string, one character at a time.

use vstd::prelude::*;
use vstd::string::*;

verus! {

/// `s` without its last `n` characters; empty if it has no more than `n`.
pub open spec fn without_tail(s: Seq<char>, n: nat) -> Seq<char> {
    if n >= s.len() {
        Seq::empty()
    } else {
        s.subrange(0, s.len() - n)
    }
}

/// `String::push`: the string grows by the one character, at its end.
#[verifier::external_body]
pub(crate) fn push_char(s: &mut String, c: char)
    ensures
        final(s)@ == old(s)@.push(c),
{
    s.push(c)
}

/// `String::pop`: takes the last character off the string and returns it; on
/// an empty string it returns nothing and leaves the string empty.
#[verifier::external_body]
pub(crate) fn pop_char(s: &mut String) -> (c: Option<char>)
    ensures
        old(s)@.len() == 0 ==> c.is_none() && final(s)@ == old(s)@,
        old(s)@.len() > 0 ==> c == Some(old(s)@.last()) && final(s)@ == old(s)@.drop_last(),
{
    s.pop()
}

/// Removes the last `n` characters of `s`, or all of them if there are
/// fewer.
pub fn remove_tail(s: &mut String, n: usize)
    ensures
        final(s)@ == without_tail(old(s)@, n as nat),
{
    let mut done: usize = 0;
    while done < n
        invariant
            done <= n,
            s@ == without_tail(old(s)@, done as nat),
        decreases n - done,
    {
        let popped = pop_char(s);
        if popped.is_none() {
            assert(s@ =~= without_tail(old(s)@, n as nat));
            return ;
        }
        done = done + 1;
        assert(s@ =~= without_tail(old(s)@, done as nat));
    }
}

/// True when `s` reads exactly as `word`.
pub fn reads_as(s: &String, word: &str) -> (b: bool)
    ensures
        b == (s@ == word@),
{
    let w = String::from_str(word);
    *s == w
}

/// Taking characters off the end undoes appending them: a string to which
/// `added` was appended, less its last `added.len()` characters, is the
/// string again.
pub proof fn lemma_append_then_remove(s: Seq<char>, added: Seq<char>)
    ensures
        without_tail(s + added, added.len()) == s,
{
    assert(without_tail(s + added, added.len()) =~= s);
}

/// Removing in two steps is removing at once.
pub proof fn lemma_remove_twice(s: Seq<char>, n: nat, m: nat)
    ensures
        without_tail(without_tail(s, n), m) == without_tail(s, n + m),
{
    assert(without_tail(without_tail(s, n), m) =~= without_tail(s, n + m));
}

} // verus!
