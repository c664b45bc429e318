//! Verified string helpers: equality, separator splitting and trimming.
//!
//! Splitting is specified through joining: the returned pieces contain no
//! separator and joining them with the separator restores the input, which
//! determines the result uniquely.

use vstd::prelude::*;
use vstd::string::StrSliceExecFns;

verus! {

/// Character-for-character equality of two string slices.
pub fn str_eq(a: &str, b: &str) -> (r: bool)
    ensures
        r <==> a@ == b@,
{
    let alen = a.unicode_len();
    let blen = b.unicode_len();
    if alen != blen {
        return false;
    }
    let mut i: usize = 0;
    while i < alen
        invariant
            i <= alen,
            alen == a@.len(),
            alen == b@.len(),
            forall|j: int| 0 <= j < i ==> a@[j] == b@[j],
        decreases alen - i,
    {
        if a.get_char(i) != b.get_char(i) {
            return false;
        }
        i = i + 1;
    }
    proof {
        assert(a@ =~= b@);
    }
    true
}

/// Joins pieces with a separator character between consecutive pieces.
pub open spec fn spec_join(pieces: Seq<Seq<char>>, sep: char) -> Seq<char>
    decreases pieces.len(),
{
    if pieces.len() == 0 {
        Seq::empty()
    } else if pieces.len() == 1 {
        pieces[0]
    } else {
        spec_join(pieces.drop_last(), sep) + seq![sep] + pieces.last()
    }
}

/// `pieces` is the separator-split of `s`: joining restores `s`, no piece
/// contains the separator, and there is at least one piece.
pub open spec fn is_split_of(pieces: Seq<Seq<char>>, s: Seq<char>, sep: char) -> bool {
    &&& pieces.len() >= 1
    &&& spec_join(pieces, sep) == s
    &&& forall|i: int| 0 <= i < pieces.len() ==> !(#[trigger] pieces[i]).contains(sep)
}

/// Appending a piece extends the join by a separator and that piece.
proof fn lemma_join_push(pieces: Seq<Seq<char>>, p: Seq<char>, sep: char)
    ensures
        pieces.len() == 0 ==> spec_join(pieces.push(p), sep) == p,
        pieces.len() >= 1 ==> spec_join(pieces.push(p), sep) == spec_join(pieces, sep)
            + seq![sep] + p,
{
    assert(pieces.push(p).drop_last() =~= pieces);
    assert(pieces.push(p).last() == p);
    if pieces.len() == 0 {
        assert(pieces.push(p)[0] == p);
    }
}

/// Splitting is unambiguous: two separator-free piece lists joining to the
/// same string are the same list, so [`is_split_of`] determines the split
/// completely.
pub proof fn lemma_split_unique(a: Seq<Seq<char>>, b: Seq<Seq<char>>, s: Seq<char>, sep: char)
    requires
        is_split_of(a, s, sep),
        is_split_of(b, s, sep),
    ensures
        a == b,
    decreases a.len(),
{
    if a.len() == 1 && b.len() == 1 {
        assert(a[0] == s && b[0] == s);
        assert(a =~= b);
    } else if a.len() == 1 {
        let jb = spec_join(b.drop_last(), sep);
        assert(s == jb + seq![sep] + b.last());
        assert(s[jb.len() as int] == sep);
        assert(!a[0].contains(sep));
        assert(a[0][jb.len() as int] == sep);
        assert(false);
    } else if b.len() == 1 {
        let ja = spec_join(a.drop_last(), sep);
        assert(s == ja + seq![sep] + a.last());
        assert(s[ja.len() as int] == sep);
        assert(!b[0].contains(sep));
        assert(b[0][ja.len() as int] == sep);
        assert(false);
    } else {
        let ja = spec_join(a.drop_last(), sep);
        let jb = spec_join(b.drop_last(), sep);
        assert(s == ja + seq![sep] + a.last());
        assert(s == jb + seq![sep] + b.last());
        assert(ja.len() == jb.len()) by {
            assert(!a[a.len() - 1].contains(sep));
            assert(!b[b.len() - 1].contains(sep));
            if ja.len() < jb.len() {
                assert(s[jb.len() as int] == sep);
                assert(a.last()[jb.len() - ja.len() - 1] == sep);
                assert(false);
            }
            if jb.len() < ja.len() {
                assert(s[ja.len() as int] == sep);
                assert(b.last()[ja.len() - jb.len() - 1] == sep);
                assert(false);
            }
        }
        assert(a.last() =~= b.last()) by {
            assert forall|k: int| 0 <= k < a.last().len() implies a.last()[k] == b.last()[k] by {
                assert(a.last()[k] == s[ja.len() + 1 + k]);
                assert(b.last()[k] == s[jb.len() + 1 + k]);
            }
        }
        assert(ja =~= jb) by {
            assert forall|k: int| 0 <= k < ja.len() implies ja[k] == jb[k] by {
                assert(ja[k] == s[k]);
                assert(jb[k] == s[k]);
            }
        }
        assert(forall|i: int| 0 <= i < a.len() - 1 ==> a.drop_last()[i] == a[i]);
        assert(forall|i: int| 0 <= i < b.len() - 1 ==> b.drop_last()[i] == b[i]);
        assert(is_split_of(a.drop_last(), ja, sep));
        assert(is_split_of(b.drop_last(), ja, sep));
        lemma_split_unique(a.drop_last(), b.drop_last(), ja, sep);
        assert(a =~= b);
    }
}

/// `s` without its leading spaces.
pub open spec fn spec_trim_front(s: Seq<char>) -> Seq<char>
    decreases s.len(),
{
    if s.len() > 0 && s[0] == ' ' {
        spec_trim_front(s.subrange(1, s.len() as int))
    } else {
        s
    }
}

/// `s` without its trailing spaces.
pub open spec fn spec_trim_back(s: Seq<char>) -> Seq<char>
    decreases s.len(),
{
    if s.len() > 0 && s.last() == ' ' {
        spec_trim_back(s.drop_last())
    } else {
        s
    }
}

/// `s` without leading and trailing spaces.
pub open spec fn spec_trim(s: Seq<char>) -> Seq<char> {
    spec_trim_back(spec_trim_front(s))
}

/// Trimming the front keeps the tail that starts at the first non-space.
proof fn lemma_trim_front_is_subrange(s: Seq<char>, a: int)
    requires
        0 <= a <= s.len(),
        forall|j: int| 0 <= j < a ==> s[j] == ' ',
        a == s.len() || s[a] != ' ',
    ensures
        spec_trim_front(s) == s.subrange(a, s.len() as int),
    decreases a,
{
    if a == 0 {
        assert(s.subrange(0, s.len() as int) =~= s);
    } else {
        let t = s.subrange(1, s.len() as int);
        lemma_trim_front_is_subrange(t, a - 1);
        assert(t.subrange(a - 1, t.len() as int) =~= s.subrange(a, s.len() as int));
    }
}

/// Trimming the back keeps the head that ends at the last non-space.
proof fn lemma_trim_back_is_subrange(s: Seq<char>, b: int)
    requires
        0 <= b <= s.len(),
        forall|j: int| b <= j < s.len() ==> s[j] == ' ',
        b == 0 || s[b - 1] != ' ',
    ensures
        spec_trim_back(s) == s.subrange(0, b),
    decreases s.len(),
{
    if b == s.len() {
        assert(s.subrange(0, b) =~= s);
    } else {
        lemma_trim_back_is_subrange(s.drop_last(), b);
        assert(s.drop_last().subrange(0, b) =~= s.subrange(0, b));
    }
}

/// Removes leading and trailing spaces.
pub fn trim_spaces(s: &str) -> (r: String)
    ensures
        r@ == spec_trim(s@),
{
    let n = s.unicode_len();
    let mut a: usize = 0;
    while a < n && s.get_char(a) == ' '
        invariant
            a <= n,
            n == s@.len(),
            forall|j: int| 0 <= j < a ==> s@[j] == ' ',
        decreases n - a,
    {
        a = a + 1;
    }
    let mut b: usize = n;
    while b > a && s.get_char(b - 1) == ' '
        invariant
            a <= b <= n,
            n == s@.len(),
            forall|j: int| b <= j < n ==> s@[j] == ' ',
        decreases b,
    {
        b = b - 1;
    }
    let r = s.substring_char(a, b).to_owned();
    proof {
        lemma_trim_front_is_subrange(s@, a as int);
        let front = s@.subrange(a as int, n as int);
        lemma_trim_back_is_subrange(front, b - a);
        assert(front.subrange(0, b - a) =~= s@.subrange(a as int, b as int));
    }
    r
}

/// Splits a string at every occurrence of a separator character.
///
/// The result is the unique piece list whose join under `sep` is `s` and
/// whose pieces are separator-free; splitting an empty string gives one
/// empty piece.
pub fn split_on_char(s: &str, sep: char) -> (r: Vec<String>)
    ensures
        is_split_of(r.deep_view(), s@, sep),
{
    let n = s.unicode_len();
    let mut pieces: Vec<String> = Vec::new();
    let mut start: usize = 0;
    let mut i: usize = 0;
    while i < n
        invariant
            start <= i <= n,
            n == s@.len(),
            spec_join(pieces.deep_view().push(s@.subrange(start as int, i as int)), sep)
                =~= s@.subrange(0, i as int),
            forall|k: int|
                0 <= k < pieces.deep_view().len() ==> !(#[trigger] pieces.deep_view()[k]).contains(
                    sep,
                ),
            forall|j: int| start <= j < i ==> s@[j] != sep,
        decreases n - i,
    {
        let ghost pd = pieces.deep_view();
        let ghost partial = s@.subrange(start as int, i as int);
        let c = s.get_char(i);
        if c == sep {
            let piece = s.substring_char(start, i).to_owned();
            pieces.push(piece);
            proof {
                assert(pieces.deep_view() =~~= pd.push(partial));
                lemma_join_push(pd, partial, sep);
                lemma_join_push(pd.push(partial), Seq::empty(), sep);
                assert(pd.push(partial).push(Seq::empty()).drop_last() =~= pd.push(partial));
                assert(spec_join(pd.push(partial).push(Seq::empty()), sep) =~= s@.subrange(
                    0,
                    i + 1,
                ));
                assert forall|k: int|
                    0 <= k < pieces.deep_view().len() implies !(
                #[trigger] pieces.deep_view()[k]).contains(sep) by {
                    if k == pd.len() {
                        assert(pieces.deep_view()[k] =~= partial);
                        assert(forall|j: int|
                            0 <= j < partial.len() ==> partial[j] == s@[start + j] && s@[start + j]
                                != sep);
                    }
                }
            }
            i = i + 1;
            start = i;
            proof {
                assert(s@.subrange(start as int, i as int) =~= Seq::<char>::empty());
            }
        } else {
            i = i + 1;
            proof {
                lemma_join_push(pd, partial, sep);
                let partial2 = s@.subrange(start as int, i as int);
                lemma_join_push(pd, partial2, sep);
                assert(partial2 =~= partial.push(c));
                assert(spec_join(pd.push(partial2), sep) =~= s@.subrange(0, i as int));
            }
        }
    }
    let ghost pd = pieces.deep_view();
    let ghost partial = s@.subrange(start as int, n as int);
    let last = s.substring_char(start, n).to_owned();
    pieces.push(last);
    proof {
        assert(pieces.deep_view() =~~= pd.push(partial));
        assert(s@.subrange(0, n as int) =~= s@);
        assert(!partial.contains(sep)) by {
            assert(forall|j: int|
                0 <= j < partial.len() ==> #[trigger] partial[j] == s@[start + j] && s@[start + j]
                    != sep);
        }
        assert forall|k: int|
            0 <= k < pieces.deep_view().len() implies !(#[trigger] pieces.deep_view()[k]).contains(
            sep,
        ) by {
            if k < pd.len() {
                assert(pieces.deep_view()[k] == pd[k]);
            } else {
                assert(pieces.deep_view()[k] == partial);
            }
        }
    }
    pieces
}

} // verus!
