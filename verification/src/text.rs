//! Small executable helpers for moving between `&str`, `Vec<char>` and
//! `String`, so that the rest of the crate can reason over `Seq<char>`.

use vstd::prelude::*;
use vstd::string::*;

verus! {

/// Relies on std's `String::push`: appends the given character to the string.
pub assume_specification[ String::push ](s: &mut String, c: char)
    ensures
        final(s)@ == old(s)@.push(c),
;

/// Copies the characters of a string slice into a vector.
pub fn str_to_chars(s: &str) -> (r: Vec<char>)
    ensures
        r@ == s@,
{
    let n = s.unicode_len();
    let mut v: Vec<char> = Vec::new();
    let mut i: usize = 0;
    while i < n
        invariant
            n == s@.len(),
            i <= n,
            v@ == s@.take(i as int),
        decreases n - i,
    {
        let c = s.get_char(i);
        v.push(c);
        proof {
            assert(v@ =~= s@.take(i + 1));
        }
        i = i + 1;
    }
    proof {
        assert(v@ =~= s@);
    }
    v
}

/// Builds a string from a vector of characters.
pub fn chars_to_string(v: &Vec<char>) -> (r: String)
    ensures
        r@ == v@,
{
    let mut s = String::new();
    let mut i: usize = 0;
    while i < v.len()
        invariant
            i <= v@.len(),
            s@ == v@.take(i as int),
        decreases v@.len() - i,
    {
        s.push(v[i]);
        proof {
            assert(s@ =~= v@.take(i + 1));
        }
        i = i + 1;
    }
    proof {
        assert(s@ =~= v@);
    }
    s
}

} // verus!
