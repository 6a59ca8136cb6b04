//! Conversions between strings and sequences of characters.

use vstd::prelude::*;
use vstd::std_specs::iter::IteratorSpec;
use vstd::string::StringExecFns;

verus! {

/// `String::push` of std: appends one character.
#[verifier::external_body]
pub(crate) fn string_push(s: &mut String, c: char)
    ensures
        final(s)@ == old(s)@.push(c),
{
    s.push(c)
}

/// The characters of `s`, in order.
pub fn chars_of(s: &str) -> (v: Vec<char>)
    ensures
        v@ == s@,
{
    let mut v: Vec<char> = Vec::new();
    let mut it = s.chars();
    proof {
        vstd::string::axiom_spec_iter(s);
    }
    loop
        invariant
            it.obeys_prophetic_iter_laws(),
            it.decrease() is Some,
            v@ + it.remaining() == s@,
        decreases it.decrease()->0,
    {
        let ghost before = it;
        let next = it.next();
        proof {
            vstd::string::next_postcondition(&before, &it, next);
        }
        match next {
            Some(c) => {
                v.push(c);
            },
            None => {
                return v;
            },
        }
    }
}

/// The least of two lengths.
pub open spec fn least(a: int, b: int) -> int {
    if a < b {
        a
    } else {
        b
    }
}

/// The string made of `v[from..to]`, where `to` stops at the length of `v`
/// and `from` at `to`.
pub fn string_of_range(v: &Vec<char>, from: usize, to: usize) -> (s: String)
    ensures
        s@ == v@.subrange(
            least(from as int, least(to as int, v@.len() as int)),
            least(to as int, v@.len() as int),
        ),
{
    let to = if to < v.len() {
        to
    } else {
        v.len()
    };
    let from = if from < to {
        from
    } else {
        to
    };
    let mut s = String::new();
    let mut i: usize = from;
    while i < to
        invariant
            from <= i <= to <= v@.len(),
            s@ == v@.subrange(from as int, i as int),
        decreases to - i,
    {
        string_push(&mut s, v[i]);
        i += 1;
    }
    s
}

/// `before`, then `t`, then `after`, in one string.
pub fn framed(before: &str, t: &str, after: &str) -> (s: String)
    ensures
        s@ == before@ + t@ + after@,
{
    let mut s = before.to_owned();
    s.append(t);
    s.append(after);
    s
}

/// The string made of all of `v`.
pub fn string_of(v: &Vec<char>) -> (s: String)
    ensures
        s@ == v@,
{
    string_of_range(v, 0, v.len())
}

} // verus!
