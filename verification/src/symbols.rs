//! The symbol deriver: validation of root identifiers and the derivation of
//! the fixed family of spellings (raw, fully upper-cased, class title) that
//! every generated artifact embeds.

use vstd::prelude::*;
use vstd::string::*;

verus! {

/// A lower-case ASCII letter.
pub open spec fn is_lower(c: char) -> bool {
    'a' <= c && c <= 'z'
}

/// An ASCII digit.
pub open spec fn is_digit(c: char) -> bool {
    '0' <= c && c <= '9'
}

/// A character allowed inside a root identifier: lower-case letter, digit or
/// underscore. Such characters are safe both as a file-name fragment and as
/// part of a source-language identifier.
pub open spec fn valid_root_char(c: char) -> bool {
    is_lower(c) || is_digit(c) || c == '_'
}

/// A valid root identifier: non-empty, starting with a lower-case letter or
/// an underscore, with every character identifier- and file-name-safe.
pub open spec fn valid_root(s: Seq<char>) -> bool {
    &&& s.len() > 0
    &&& (is_lower(s[0]) || s[0] == '_')
    &&& forall|i: int| 0 <= i < s.len() ==> valid_root_char(#[trigger] s[i])
}

/// The upper-case form of one character: lower-case ASCII letters are mapped
/// to the corresponding capital, every other character is left unchanged.
pub open spec fn upper_char(c: char) -> char {
    match c {
        'a' => 'A',
        'b' => 'B',
        'c' => 'C',
        'd' => 'D',
        'e' => 'E',
        'f' => 'F',
        'g' => 'G',
        'h' => 'H',
        'i' => 'I',
        'j' => 'J',
        'k' => 'K',
        'l' => 'L',
        'm' => 'M',
        'n' => 'N',
        'o' => 'O',
        'p' => 'P',
        'q' => 'Q',
        'r' => 'R',
        's' => 'S',
        't' => 'T',
        'u' => 'U',
        'v' => 'V',
        'w' => 'W',
        'x' => 'X',
        'y' => 'Y',
        'z' => 'Z',
        _ => c,
    }
}

/// The fully upper-cased spelling of an identifier.
pub open spec fn upper_seq(s: Seq<char>) -> Seq<char> {
    s.map_values(|c: char| upper_char(c))
}

/// The class-title spelling: only the first character is upper-cased.
pub open spec fn class_title_seq(s: Seq<char>) -> Seq<char> {
    if s.len() == 0 {
        s
    } else {
        seq![upper_char(s[0])] + s.skip(1)
    }
}

/// The fixed family of spellings derived from one root identifier.
pub struct DerivedSymbols {
    /// The root identifier verbatim, used in file names and include paths.
    pub raw: String,
    /// The identifier fully upper-cased, used in header guards.
    pub upper: String,
    /// The identifier with its first character upper-cased, used as the
    /// generated class name.
    pub class_title: String,
}

impl DerivedSymbols {
    /// The record holds exactly the three spellings derived from `root`.
    pub open spec fn wf(self, root: Seq<char>) -> bool {
        &&& self.raw@ == root
        &&& self.upper@ == upper_seq(root)
        &&& self.class_title@ == class_title_seq(root)
    }
}

/// Checks whether a string is a valid root identifier.
pub fn is_valid_root(s: &str) -> (r: bool)
    ensures
        r == valid_root(s@),
{
    let n = s.unicode_len();
    if n == 0 {
        return false;
    }
    let c0 = s.get_char(0);
    if !(('a' <= c0 && c0 <= 'z') || c0 == '_') {
        return false;
    }
    let mut i: usize = 0;
    while i < n
        invariant
            n == s@.len(),
            i <= n,
            forall|j: int| 0 <= j < i ==> valid_root_char(#[trigger] s@[j]),
        decreases n - i,
    {
        let c = s.get_char(i);
        if !(('a' <= c && c <= 'z') || ('0' <= c && c <= '9') || c == '_') {
            return false;
        }
        i = i + 1;
    }
    true
}

/// The upper-case form of one character, as executable code.
pub fn upper_char_exec(c: char) -> (r: char)
    ensures
        r == upper_char(c),
{
    match c {
        'a' => 'A',
        'b' => 'B',
        'c' => 'C',
        'd' => 'D',
        'e' => 'E',
        'f' => 'F',
        'g' => 'G',
        'h' => 'H',
        'i' => 'I',
        'j' => 'J',
        'k' => 'K',
        'l' => 'L',
        'm' => 'M',
        'n' => 'N',
        'o' => 'O',
        'p' => 'P',
        'q' => 'Q',
        'r' => 'R',
        's' => 'S',
        't' => 'T',
        'u' => 'U',
        'v' => 'V',
        'w' => 'W',
        'x' => 'X',
        'y' => 'Y',
        'z' => 'Z',
        _ => c,
    }
}

/// Upper-cases every character of a string.
pub fn to_upper(s: &str) -> (r: String)
    ensures
        r@ == upper_seq(s@),
{
    let n = s.unicode_len();
    let mut out = String::new();
    let mut i: usize = 0;
    while i < n
        invariant
            n == s@.len(),
            i <= n,
            out@ == upper_seq(s@.take(i as int)),
        decreases n - i,
    {
        let c = s.get_char(i);
        let u = upper_char_exec(c);
        out.push(u);
        proof {
            assert(out@ =~= upper_seq(s@.take(i + 1)));
        }
        i = i + 1;
    }
    proof {
        assert(out@ =~= upper_seq(s@));
    }
    out
}

/// Derives the full symbol family from a root identifier.
pub fn derive_symbols(root: &str) -> (r: DerivedSymbols)
    requires
        root@.len() > 0,
    ensures
        r.wf(root@),
{
    DerivedSymbols {
        raw: String::from_str(root),
        upper: to_upper(root),
        class_title: crate::codegen::get_classname_uppercase(root),
    }
}

/// Law: the class title upper-cases exactly the first character. Its head is
/// the upper-cased head of the identifier and its tail is the identifier's
/// tail, unchanged.
pub proof fn lemma_class_title_shape(s: Seq<char>)
    requires
        s.len() > 0,
    ensures
        class_title_seq(s).len() == s.len(),
        class_title_seq(s)[0] == upper_char(s[0]),
        class_title_seq(s).skip(1) == s.skip(1),
{
    assert(class_title_seq(s).skip(1) =~= s.skip(1));
}

/// Law: the upper spelling upper-cases every character, and nothing else.
pub proof fn lemma_upper_chars(s: Seq<char>)
    ensures
        upper_seq(s).len() == s.len(),
        forall|i: int| 0 <= i < s.len() ==> upper_seq(s)[i] == upper_char(s[i]),
{
}

} // verus!
