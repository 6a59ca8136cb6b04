//! When a piece of input is a complete unit: its brackets and quotes are
//! closed, and a semicolon stands outside them.

use crate::text::chars_of;
use vstd::prelude::*;

verus! {

/// The character that closes what `c` opens, if `c` opens anything.
pub open spec fn closing_of(c: char) -> Option<char> {
    if c == '{' {
        Some('}')
    } else if c == '[' {
        Some(']')
    } else if c == '(' {
        Some(')')
    } else if c == '"' {
        Some('"')
    } else if c == '\'' {
        Some('\'')
    } else {
        None
    }
}

/// Whether `s`, from index `i` on, reaches a semicolon with nothing left
/// open, and what is still waited for where the reading stops. `want` holds
/// the closing characters waited for, the innermost last. A character that
/// is waited for closes; else a character that opens makes its closing
/// character waited for.
pub open spec fn complete_from(s: Seq<char>, i: int, want: Seq<char>) -> (bool, Seq<char>)
    decreases s.len() - i,
{
    if i < 0 || i >= s.len() {
        (false, want)
    } else if want.len() > 0 && s[i] == want.last() {
        complete_from(s, i + 1, want.drop_last())
    } else if closing_of(s[i]) is Some {
        complete_from(s, i + 1, want.push(closing_of(s[i])->Some_0))
    } else if want.len() == 0 && s[i] == ';' {
        (true, want)
    } else {
        complete_from(s, i + 1, want)
    }
}

/// The closing characters that the input read so far waits for.
#[derive(Debug)]
pub struct Pairs {
    pub want_pair: Vec<char>,
}

impl Pairs {
    /// Nothing is waited for.
    pub fn new() -> (p: Pairs)
        ensures
            p.want_pair@ == Seq::<char>::empty(),
    {
        Pairs { want_pair: Vec::new() }
    }

    /// The character that closes what `c` opens: see [`closing_of`].
    pub fn _match_pair(c: char) -> (r: Option<char>)
        ensures
            r == closing_of(c),
    {
        if c == '{' {
            Some('}')
        } else if c == '[' {
            Some(']')
        } else if c == '(' {
            Some(')')
        } else if c == '"' {
            Some('"')
        } else if c == '\'' {
            Some('\'')
        } else {
            None
        }
    }

    /// Reads `s` and says whether it completes the input: see
    /// [`complete_from`]. What is still waited for is kept for the next
    /// piece.
    pub fn is_complete(&mut self, s: &str) -> (r: bool)
        ensures
            (r, final(self).want_pair@) == complete_from(s@, 0, old(self).want_pair@),
    {
        let chars = chars_of(s);
        let mut i: usize = 0;
        while i < chars.len()
            invariant
                chars@ == s@,
                complete_from(s@, i as int, self.want_pair@) == complete_from(
                    s@,
                    0,
                    old(self).want_pair@,
                ),
            decreases chars@.len() - i,
        {
            let c = chars[i];
            if self.want_pair.len() > 0 && c == self.want_pair[self.want_pair.len() - 1] {
                self.want_pair.pop();
            } else {
                match Pairs::_match_pair(c) {
                    Some(want) => {
                        self.want_pair.push(want);
                    },
                    None => {
                        if self.want_pair.len() == 0 && c == ';' {
                            return true;
                        }
                    },
                }
            }
            i += 1;
        }
        false
    }
}

} // verus!
