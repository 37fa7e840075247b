//! Character-level helpers shared by the generator and the data model.
use vstd::prelude::*;

verus! {

/// `c` is one of the ASCII digits `0` to `9`.
pub open spec fn is_ascii_digit(c: char) -> bool {
    '0' <= c && c <= '9'
}

/// `c` is an ASCII letter, `a` to `z` or `A` to `Z`.
pub open spec fn is_ascii_letter(c: char) -> bool {
    ('a' <= c && c <= 'z') || ('A' <= c && c <= 'Z')
}

/// `a` comes strictly before `b` in lexicographic order of code points, the
/// order of `str`'s `Ord`.
pub open spec fn lex_lt(a: Seq<char>, b: Seq<char>) -> bool
    decreases a.len(),
{
    if b.len() == 0 {
        false
    } else if a.len() == 0 {
        true
    } else if a[0] != b[0] {
        a[0] < b[0]
    } else {
        lex_lt(a.drop_first(), b.drop_first())
    }
}

/// Lexicographic order is asymmetric.
pub proof fn lemma_lex_asymmetric(a: Seq<char>, b: Seq<char>)
    ensures
        lex_lt(a, b) ==> !lex_lt(b, a),
    decreases a.len(),
{
    if a.len() > 0 && b.len() > 0 && a[0] == b[0] {
        lemma_lex_asymmetric(a.drop_first(), b.drop_first());
    }
}

/// Lexicographic order is total: of two different sequences one comes first.
pub proof fn lemma_lex_total(a: Seq<char>, b: Seq<char>)
    ensures
        a != b ==> lex_lt(a, b) || lex_lt(b, a),
    decreases a.len(),
{
    if a.len() > 0 && b.len() > 0 && a[0] == b[0] {
        lemma_lex_total(a.drop_first(), b.drop_first());
        if a.drop_first() == b.drop_first() {
            assert(a =~= seq![a[0]] + a.drop_first());
            assert(b =~= seq![b[0]] + b.drop_first());
        }
    } else if a.len() == 0 && b.len() == 0 {
        assert(a =~= b);
    }
}

/// `s` is in ascending lexicographic order, equal neighbours allowed.
pub open spec fn lex_sorted(s: Seq<Seq<char>>) -> bool {
    forall|i: int, j: int| 0 <= i < j < s.len() ==> !lex_lt(#[trigger] s[j], #[trigger] s[i])
}

/// Two sorted sequences that hold the same elements are the same sequence.
pub proof fn lemma_sorted_same_elements(s1: Seq<Seq<char>>, s2: Seq<Seq<char>>)
    requires
        lex_sorted(s1),
        lex_sorted(s2),
        s1.to_multiset() == s2.to_multiset(),
    ensures
        s1 == s2,
    decreases s1.len(),
{
    broadcast use vstd::seq_lib::group_to_multiset_ensures;

    if s1.len() == 0 {
        assert(s2.to_multiset().len() == 0);
        assert(s1 =~= s2);
    } else {
        vstd::seq_lib::to_multiset_len(s1);
        vstd::seq_lib::to_multiset_len(s2);
        assert(s2.len() == s1.len());
        let x = s1[0];
        let y = s2[0];
        assert(s1.to_multiset().count(x) > 0);
        assert(s2.contains(x));
        let k = choose|k: int| 0 <= k < s2.len() && s2[k] == x;
        assert(!lex_lt(x, y)) by {
            if k > 0 {
                assert(!lex_lt(s2[k], s2[0]));
            } else {
                lemma_lex_asymmetric(x, x);
            }
        }
        assert(s2.to_multiset().count(y) > 0);
        assert(s1.contains(y));
        let m = choose|m: int| 0 <= m < s1.len() && s1[m] == y;
        assert(!lex_lt(y, x)) by {
            if m > 0 {
                assert(!lex_lt(s1[m], s1[0]));
            } else {
                lemma_lex_asymmetric(y, y);
            }
        }
        lemma_lex_total(x, y);
        assert(x == y);
        let t1 = s1.drop_first();
        let t2 = s2.drop_first();
        assert(s1.remove(0) =~= t1);
        assert(s2.remove(0) =~= t2);
        assert(t1.to_multiset() == s1.to_multiset().remove(x));
        assert(t2.to_multiset() == s2.to_multiset().remove(y));
        assert(lex_sorted(t1)) by {
            assert forall|i: int, j: int| 0 <= i < j < t1.len() implies !lex_lt(
                #[trigger] t1[j],
                #[trigger] t1[i],
            ) by {
                assert(t1[j] == s1[j + 1] && t1[i] == s1[i + 1]);
            }
        }
        assert(lex_sorted(t2)) by {
            assert forall|i: int, j: int| 0 <= i < j < t2.len() implies !lex_lt(
                #[trigger] t2[j],
                #[trigger] t2[i],
            ) by {
                assert(t2[j] == s2[j + 1] && t2[i] == s2[i + 1]);
            }
        }
        lemma_sorted_same_elements(t1, t2);
        assert(s1 =~= seq![x] + t1);
        assert(s2 =~= seq![y] + t2);
    }
}

/// Two sequences of keyed items that hold the same items, each in strictly
/// ascending order of key, are the same sequence.
pub proof fn lemma_strictly_keyed_same_elements<A>(s1: Seq<(Seq<char>, A)>, s2: Seq<(Seq<char>, A)>)
    requires
        forall|i: int, j: int| 0 <= i < j < s1.len() ==> lex_lt(#[trigger] s1[i].0, #[trigger] s1[j].0),
        forall|i: int, j: int| 0 <= i < j < s2.len() ==> lex_lt(#[trigger] s2[i].0, #[trigger] s2[j].0),
        s1.to_multiset() == s2.to_multiset(),
    ensures
        s1 == s2,
    decreases s1.len(),
{
    broadcast use vstd::seq_lib::group_to_multiset_ensures;

    vstd::seq_lib::to_multiset_len(s1);
    vstd::seq_lib::to_multiset_len(s2);
    if s1.len() == 0 {
        assert(s1 =~= s2);
    } else {
        let x = s1[0];
        let y = s2[0];
        assert(s1.to_multiset().count(x) > 0);
        assert(s2.contains(x));
        let k = choose|k: int| 0 <= k < s2.len() && s2[k] == x;
        assert(s2.to_multiset().count(y) > 0);
        assert(s1.contains(y));
        let m = choose|m: int| 0 <= m < s1.len() && s1[m] == y;
        if k > 0 && m > 0 {
            assert(lex_lt(s2[0].0, s2[k].0));
            assert(lex_lt(s1[0].0, s1[m].0));
            lemma_lex_asymmetric(x.0, y.0);
        }
        assert(x == y);
        let t1 = s1.drop_first();
        let t2 = s2.drop_first();
        assert(s1.remove(0) =~= t1);
        assert(s2.remove(0) =~= t2);
        assert(t1.to_multiset() == s1.to_multiset().remove(x));
        assert(t2.to_multiset() == s2.to_multiset().remove(y));
        assert forall|i: int, j: int| 0 <= i < j < t1.len() implies lex_lt(
            #[trigger] t1[i].0,
            #[trigger] t1[j].0,
        ) by {
            assert(t1[i] == s1[i + 1] && t1[j] == s1[j + 1]);
        }
        assert forall|i: int, j: int| 0 <= i < j < t2.len() implies lex_lt(
            #[trigger] t2[i].0,
            #[trigger] t2[j].0,
        ) by {
            assert(t2[i] == s2[i + 1] && t2[j] == s2[j + 1]);
        }
        lemma_strictly_keyed_same_elements(t1, t2);
        assert(s1 =~= seq![x] + t1);
        assert(s2 =~= seq![y] + t2);
    }
}

/// The elements of `s`, taken as a set.
pub open spec fn seq_items<A>(s: Seq<A>) -> Set<A> {
    Set::new(|x: A| s.contains(x))
}

/// Mapping each element keeps two sequences that hold the same elements
/// holding the same mapped elements.
pub proof fn lemma_map_keeps_multiset<A, B>(s1: Seq<A>, s2: Seq<A>, f: spec_fn(A) -> B)
    requires
        s1.to_multiset() == s2.to_multiset(),
    ensures
        s1.map_values(f).to_multiset() == s2.map_values(f).to_multiset(),
    decreases s1.len(),
{
    broadcast use vstd::seq_lib::group_to_multiset_ensures;

    if s1.len() == 0 {
        assert(s2.to_multiset().len() == 0);
        assert(s2.len() == 0);
        assert(s1.map_values(f) =~= s2.map_values(f));
    } else {
        let a = s1.last();
        let t1 = s1.drop_last();
        assert(s1 =~= t1.push(a));
        assert(s1.to_multiset().count(a) > 0);
        assert(s2.contains(a));
        let j = choose|j: int| 0 <= j < s2.len() && s2[j] == a;
        let t2 = s2.remove(j);
        assert(t2.to_multiset() == s2.to_multiset().remove(a));
        assert(t1.to_multiset() == s1.to_multiset().remove(a));
        lemma_map_keeps_multiset(t1, t2, f);
        assert(s1.map_values(f) =~= t1.map_values(f).push(f(a)));
        assert(s2.map_values(f).remove(j) =~= t2.map_values(f));
        assert(s2.map_values(f)[j] == f(a));
        assert(s2.map_values(f).remove(j).to_multiset() == s2.map_values(f).to_multiset().remove(
            f(a),
        ));
        assert(s2.map_values(f).to_multiset().count(f(a)) > 0);
        assert(s2.map_values(f).to_multiset() =~= t2.map_values(f).to_multiset().insert(f(a)));
        assert(s1.map_values(f).to_multiset() =~= t1.map_values(f).to_multiset().insert(f(a)));
    }
}

/// Whether `c` has the Unicode `Alphabetic` property, as `char::is_alphabetic`
/// reports it.
pub uninterp spec fn alphabetic(c: char) -> bool;

/// Relies on `char::is_alphabetic`: the Unicode `Alphabetic` property, which
/// every ASCII letter has and no ASCII digit has.
#[verifier::external_body]
pub(crate) fn is_alphabetic(c: char) -> (r: bool)
    ensures
        r == alphabetic(c),
        is_ascii_letter(c) ==> r,
        is_ascii_digit(c) ==> !r,
{
    c.is_alphabetic()
}

/// Relies on `String::push`: appends one character.
#[verifier::external_body]
pub(crate) fn push_char(s: &mut String, c: char)
    ensures
        final(s)@ == old(s)@.push(c),
{
    s.push(c)
}

/// Whether `a` and `b` hold the same characters.
pub fn same_text(a: &str, b: &str) -> (r: bool)
    ensures
        r == (a@ == b@),
{
    let n = a.unicode_len();
    if n != b.unicode_len() {
        return false;
    }
    let mut i: usize = 0;
    while i < n
        invariant
            n == a@.len(),
            n == b@.len(),
            i <= n,
            a@.subrange(0, i as int) == b@.subrange(0, i as int),
        decreases n - i,
    {
        if a.get_char(i) != b.get_char(i) {
            assert(a@[i as int] != b@[i as int]);
            return false;
        }
        i = i + 1;
        assert(a@.subrange(0, i as int) =~= a@.subrange(0, i - 1).push(a@[i - 1]));
        assert(b@.subrange(0, i as int) =~= b@.subrange(0, i - 1).push(b@[i - 1]));
    }
    assert(a@ =~= a@.subrange(0, n as int));
    assert(b@ =~= b@.subrange(0, n as int));
    true
}

/// The characters of `s`, in order.
pub fn chars_of(s: &str) -> (r: Vec<char>)
    ensures
        r@ == s@,
{
    let n = s.unicode_len();
    let mut r: Vec<char> = Vec::new();
    let mut i: usize = 0;
    while i < n
        invariant
            n == s@.len(),
            i <= n,
            r@ == s@.subrange(0, i as int),
        decreases n - i,
    {
        r.push(s.get_char(i));
        i = i + 1;
    }
    assert(r@ =~= s@);
    r
}

/// The string made of the characters of `v`, in order.
pub fn string_of(v: &Vec<char>) -> (r: String)
    ensures
        r@ == v@,
{
    let mut r = String::new();
    let mut i: usize = 0;
    while i < v.len()
        invariant
            i <= v@.len(),
            r@ == v@.subrange(0, i as int),
        decreases v@.len() - i,
    {
        push_char(&mut r, v[i]);
        i = i + 1;
        assert(r@ =~= v@.subrange(0, i as int));
    }
    assert(r@ =~= v@);
    r
}

} // verus!
