//! A structural identifier check for generated method names.
//!
//! The engine promises that every resolved accessor name is a legal
//! identifier before it reaches emission. The check is deliberately
//! structural and ASCII-only: a letter or underscore followed by
//! letters, digits or underscores, and not the bare underscore. It
//! does not attempt to reject language keywords.

use vstd::prelude::*;
use vstd::string::StrSliceExecFns;

verus! {

/// Whether `c` may start an identifier.
pub open spec fn is_ident_start(c: char) -> bool {
    ||| c == '_'
    ||| ('a' as u32) <= (c as u32) && (c as u32) <= ('z' as u32)
    ||| ('A' as u32) <= (c as u32) && (c as u32) <= ('Z' as u32)
}

/// Whether `c` may continue an identifier.
pub open spec fn is_ident_continue(c: char) -> bool {
    ||| is_ident_start(c)
    ||| ('0' as u32) <= (c as u32) && (c as u32) <= ('9' as u32)
}

/// Whether `s` is a legal identifier in the structural, ASCII sense.
pub open spec fn is_identifier(s: Seq<char>) -> bool {
    &&& s.len() > 0
    &&& !(s.len() == 1 && s[0] == '_')
    &&& is_ident_start(s[0])
    &&& forall|i: int| 1 <= i < s.len() ==> is_ident_continue(#[trigger] s[i])
}

fn char_is_ident_start(c: char) -> (b: bool)
    ensures
        b == is_ident_start(c),
{
    let u = c as u32;
    u == ('_' as u32) || (('a' as u32) <= u && u <= ('z' as u32)) || (('A' as u32) <= u && u
        <= ('Z' as u32))
}

fn char_is_ident_continue(c: char) -> (b: bool)
    ensures
        b == is_ident_continue(c),
{
    let u = c as u32;
    char_is_ident_start(c) || (('0' as u32) <= u && u <= ('9' as u32))
}

/// Decides [`is_identifier`] on a string slice.
pub fn check_identifier(s: &str) -> (b: bool)
    ensures
        b == is_identifier(s@),
{
    let n = s.unicode_len();
    if n == 0 {
        return false;
    }
    let first = s.get_char(0);
    if !char_is_ident_start(first) {
        return false;
    }
    if n == 1 && first == '_' {
        return false;
    }
    let mut i: usize = 1;
    while i < n
        invariant
            1 <= i <= n,
            n == s@.len(),
            forall|j: int| 1 <= j < i as int ==> is_ident_continue(#[trigger] s@[j]),
        decreases n - i,
    {
        let c = s.get_char(i);
        if !char_is_ident_continue(c) {
            return false;
        }
        i = i + 1;
    }
    true
}

} // verus!
