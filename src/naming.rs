//! Deriving an enumeration variant identifier from a registry glyph name.
//!
//! A registry name such as `flag8thDown` is first put in capitalized-word
//! (Pascal) form, which yields `Flag8ThDown`; the ordinal suffixes that this
//! capitalizes after a digit (`Th`, `Nd`) are then put back in lower case, and
//! an identifier that would begin with something other than a letter gets a
//! leading underscore.
use vstd::prelude::*;
use convert_case::{Case, Casing};
use crate::text::{alphabetic, chars_of, is_alphabetic, is_ascii_digit, is_ascii_letter, string_of};

verus! {

/// The capitalized-word form that `convert_case` gives `s`.
pub uninterp spec fn pascal_case(s: Seq<char>) -> Seq<char>;

/// Relies on `convert_case`'s `to_case(Case::Pascal)`: the result depends on
/// the characters of `s` alone.
#[verifier::external_body]
fn to_pascal_case(s: &str) -> (r: String)
    ensures
        r@ == pascal_case(s@),
{
    s.to_case(Case::Pascal)
}

/// Position `i` of `s` starts an ordinal suffix that capitalization got
/// wrong: a digit is followed by `Th` or `Nd` at `i`.
pub open spec fn ordinal_at(s: Seq<char>, i: int) -> bool {
    &&& 1 <= i && i + 1 < s.len()
    &&& is_ascii_digit(s[i - 1])
    &&& (s[i] == 'T' && s[i + 1] == 'h') || (s[i] == 'N' && s[i + 1] == 'd')
}

/// The lower-case form of the first letter of an ordinal suffix.
pub open spec fn ordinal_lower(c: char) -> char {
    if c == 'T' {
        't'
    } else if c == 'N' {
        'n'
    } else {
        c
    }
}

/// `s` with every ordinal suffix that follows a digit put back in lower case.
pub open spec fn fix_ordinals(s: Seq<char>) -> Seq<char> {
    Seq::new(s.len(), |i: int| if ordinal_at(s, i) { ordinal_lower(s[i]) } else { s[i] })
}

/// An identifier cannot start with `c`: an ASCII letter is fine, a digit is
/// not, and any other character must be alphabetic.
pub open spec fn needs_underscore(c: char) -> bool {
    if is_ascii_letter(c) {
        false
    } else if is_ascii_digit(c) {
        true
    } else {
        !alphabetic(c)
    }
}

/// The identifier made from the capitalized-word form `p` of a name.
pub open spec fn identifier_of(p: Seq<char>) -> Seq<char> {
    let f = fix_ordinals(p);
    if f.len() > 0 && needs_underscore(f[0]) {
        seq!['_'] + f
    } else {
        f
    }
}

/// The identifier that `variant_name` gives the registry name `name`.
pub open spec fn variant_name_of(name: Seq<char>) -> Seq<char> {
    identifier_of(pascal_case(name))
}

/// Finishes an identifier from the capitalized-word form `p` of a registry
/// name: fixes ordinal suffixes and prefixes `_` where `p` does not start
/// with a letter.
pub fn identifier_from_pascal(p: &str) -> (r: String)
    ensures
        r@ == identifier_of(p@),
{
    let s = chars_of(p);
    let n = s.len();
    let mut out: Vec<char> = Vec::new();
    let mut i: usize = 0;
    while i < n
        invariant
            n == s@.len(),
            s@ == p@,
            i <= n,
            out@ == fix_ordinals(s@).subrange(0, i as int),
        decreases n - i,
    {
        let c = s[i];
        let ordinal = 1 <= i && i + 1 < n && ('0' <= s[i - 1] && s[i - 1] <= '9') && ((c == 'T'
            && s[i + 1] == 'h') || (c == 'N' && s[i + 1] == 'd'));
        assert(ordinal == ordinal_at(s@, i as int));
        if ordinal {
            if c == 'T' {
                out.push('t');
            } else {
                out.push('n');
            }
        } else {
            out.push(c);
        }
        i = i + 1;
        assert(out@ =~= fix_ordinals(s@).subrange(0, i as int));
    }
    assert(out@ =~= fix_ordinals(p@));
    let underscore = n > 0 && !is_alphabetic(out[0]);
    assert(underscore == (n > 0 && needs_underscore(out@[0])));
    if underscore {
        let mut prefixed: Vec<char> = vec!['_'];
        prefixed.append(&mut out);
        assert(prefixed@ =~= seq!['_'] + fix_ordinals(p@));
        string_of(&prefixed)
    } else {
        string_of(&out)
    }
}

/// The enumeration variant identifier for the registry name `name`.
pub fn variant_name(name: &str) -> (r: String)
    ensures
        r@ == variant_name_of(name@),
{
    let pascal = to_pascal_case(name);
    identifier_from_pascal(&pascal)
}

/// A digit followed by `Th` or `Nd` in the capitalized form of a name comes
/// out with that suffix in lower case (`Flag8ThDown` gives `Flag8thDown`);
/// every other character is kept, no such suffix is left, and the identifier
/// ends with the corrected form, which it equals when the form starts with an
/// ASCII letter.
pub proof fn lemma_ordinal_suffixes_lowercase(p: Seq<char>)
    ensures
        fix_ordinals(p).len() == p.len(),
        forall|i: int|
            #![trigger ordinal_at(p, i)]
            ordinal_at(p, i) ==> {
                &&& fix_ordinals(p)[i] == if p[i] == 'T' { 't' } else { 'n' }
                &&& fix_ordinals(p)[i - 1] == p[i - 1]
                &&& fix_ordinals(p)[i + 1] == p[i + 1]
            },
        forall|i: int|
            0 <= i < p.len() && !ordinal_at(p, i) ==> #[trigger] fix_ordinals(p)[i] == p[i],
        forall|i: int| !ordinal_at(fix_ordinals(p), i),
        identifier_of(p) == fix_ordinals(p) || identifier_of(p) == seq!['_'] + fix_ordinals(p),
        p.len() > 0 && is_ascii_letter(p[0]) ==> identifier_of(p) == fix_ordinals(p),
{
    let f = fix_ordinals(p);
    if p.len() > 0 {
        assert(!ordinal_at(p, 0));
    }
    assert forall|i: int| ordinal_at(p, i) implies {
        &&& f[i] == if p[i] == 'T' { 't' } else { 'n' }
        &&& f[i - 1] == p[i - 1]
        &&& f[i + 1] == p[i + 1]
    } by {
        assert(!ordinal_at(p, i - 1));
        assert(!ordinal_at(p, i + 1));
    }
    assert forall|i: int| !ordinal_at(f, i) by {
        if ordinal_at(f, i) {
            assert(!ordinal_at(p, i - 1));
            assert(!ordinal_at(p, i + 1));
        }
    }
}

/// A name whose capitalized form starts with a digit gets an underscore in
/// front of that form (`4StringTabClef` gives `_4StringTabClef`).
pub proof fn lemma_leading_digit_underscore(p: Seq<char>)
    requires
        p.len() > 0,
        is_ascii_digit(p[0]),
    ensures
        identifier_of(p) == seq!['_'] + fix_ordinals(p),
        identifier_of(p)[0] == '_',
        identifier_of(p).len() == p.len() + 1,
        identifier_of(p)[1] == p[0],
{
    assert(!ordinal_at(p, 0));
}

} // verus!
