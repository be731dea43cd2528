//! Text helpers: equality of string slices, the order in which catalogs are
//! kept, and the byte length of UTF-8 text.

use vstd::prelude::*;
use vstd::string::StringSliceAdditionalSpecFns;
use vstd::utf8::*;

verus! {

/// Lexicographic order on character sequences, comparing code points.
/// For UTF-8 text this is the order in which Rust compares `str` values.
pub open spec fn char_lex_lt(a: Seq<char>, b: Seq<char>) -> bool
    decreases a.len(),
{
    if a.len() == 0 {
        b.len() > 0
    } else if b.len() == 0 {
        false
    } else if (a[0] as u32) < (b[0] as u32) {
        true
    } else if a[0] == b[0] {
        char_lex_lt(a.drop_first(), b.drop_first())
    } else {
        false
    }
}

/// The number of bytes in the UTF-8 encoding of `s`: what `len` gives for text.
pub open spec fn utf8_len(s: Seq<char>) -> nat {
    encode_utf8(s).len()
}

/// Every element comes strictly before every later one.
pub open spec fn strictly_sorted(s: Seq<Seq<char>>) -> bool {
    forall|i: int, j: int| 0 <= i < j < s.len() ==> char_lex_lt(#[trigger] s[i], #[trigger] s[j])
}

/// Each element comes strictly before the next one.
pub open spec fn neighbours_sorted(s: Seq<Seq<char>>) -> bool {
    forall|i: int| 0 <= i < s.len() - 1 ==> char_lex_lt(#[trigger] s[i], s[i + 1])
}

/// No value occurs twice.
pub open spec fn distinct(s: Seq<Seq<char>>) -> bool {
    forall|i: int, j: int| 0 <= i < j < s.len() ==> #[trigger] s[i] != #[trigger] s[j]
}

/// `prefix` is a prefix of `s`.
pub open spec fn has_prefix(s: Seq<char>, prefix: Seq<char>) -> bool {
    prefix.len() <= s.len() && s.subrange(0, prefix.len() as int) == prefix
}

/// `suffix` is a suffix of `s`.
pub open spec fn has_suffix(s: Seq<char>, suffix: Seq<char>) -> bool {
    suffix.len() <= s.len() && s.subrange(s.len() - suffix.len(), s.len() as int) == suffix
}

/// No sequence comes before itself.
pub proof fn lemma_lex_irreflexive(a: Seq<char>)
    ensures
        !char_lex_lt(a, a),
    decreases a.len(),
{
    if a.len() > 0 {
        lemma_lex_irreflexive(a.drop_first());
    }
}

/// The order is transitive.
pub proof fn lemma_lex_transitive(a: Seq<char>, b: Seq<char>, c: Seq<char>)
    requires
        char_lex_lt(a, b),
        char_lex_lt(b, c),
    ensures
        char_lex_lt(a, c),
    decreases a.len(),
{
    if a.len() > 0 && b.len() > 0 && c.len() > 0 && a[0] == b[0] && b[0] == c[0] {
        lemma_lex_transitive(a.drop_first(), b.drop_first(), c.drop_first());
    }
}

/// Checking each pair of neighbours is enough for the whole sequence to be sorted.
pub proof fn lemma_neighbours_sorted(s: Seq<Seq<char>>)
    requires
        neighbours_sorted(s),
    ensures
        strictly_sorted(s),
        distinct(s),
    decreases s.len(),
{
    if s.len() > 1 {
        let t = s.drop_last();
        assert forall|i: int| 0 <= i < t.len() - 1 implies char_lex_lt(#[trigger] t[i], t[i + 1]) by {
            assert(t[i] == s[i] && t[i + 1] == s[i + 1]);
        }
        lemma_neighbours_sorted(t);
        assert forall|i: int, j: int| 0 <= i < j < s.len() implies char_lex_lt(
            #[trigger] s[i],
            #[trigger] s[j],
        ) by {
            if j < s.len() - 1 {
                assert(t[i] == s[i] && t[j] == s[j]);
            } else if i < j - 1 {
                assert(t[i] == s[i] && t[j - 1] == s[j - 1]);
                assert(char_lex_lt(s[j - 1], s[j]));
                lemma_lex_transitive(s[i], s[j - 1], s[j]);
            }
        }
    }
    assert forall|i: int, j: int| 0 <= i < j < s.len() implies #[trigger] s[i] != #[trigger] s[j] by {
        lemma_lex_irreflexive(s[i]);
    }
}

/// A UTF-8 encoding takes at most four bytes per character.
pub proof fn lemma_utf8_len_bound(chars: Seq<char>)
    ensures
        encode_utf8(chars).len() <= 4 * chars.len(),
    decreases chars.len(),
{
    if chars.len() > 0 {
        lemma_utf8_len_bound(chars.drop_first());
    }
}

/// Equality of two string slices, by their characters.
pub fn str_equal(a: &str, b: &str) -> (r: bool)
    ensures
        r == (a@ == b@),
{
    let x = a.as_bytes();
    let y = b.as_bytes();
    proof {
        encode_utf8_decode_utf8(a@);
        encode_utf8_decode_utf8(b@);
    }
    if x.len() != y.len() {
        return false;
    }
    let mut i: usize = 0;
    while i < x.len()
        invariant
            x@ == a.spec_bytes(),
            y@ == b.spec_bytes(),
            x@.len() == y@.len(),
            i <= x@.len(),
            forall|k: int| 0 <= k < i ==> x@[k] == y@[k],
        decreases x@.len() - i,
    {
        if x[i] != y[i] {
            return false;
        }
        i = i + 1;
    }
    assert(x@ =~= y@);
    true
}

/// `s` occurs in `t` starting at position `k`.
pub open spec fn occurs_at(t: Seq<char>, k: int, s: Seq<char>) -> bool {
    0 <= k && k + s.len() <= t.len() && t.subrange(k, k + s.len()) == s
}

/// Where the word that starts at position `k` of `t` ends: at the next space,
/// or at the end of `t`.
pub open spec fn word_end(t: Seq<char>, k: int) -> int
    decreases t.len() - k,
{
    if k < 0 || k >= t.len() || t[k] == ' ' {
        k
    } else {
        word_end(t, k + 1)
    }
}

/// The word that starts at position `k` of `t`.
pub open spec fn word_at(t: Seq<char>, k: int) -> Seq<char> {
    t.subrange(k, word_end(t, k))
}

/// No position from `lo` up to `hi` holds `c`, checked one position at a time.
pub open spec fn absent_between(t: Seq<char>, c: char, lo: int, hi: int) -> bool
    decreases hi - lo,
{
    if lo >= hi {
        true
    } else {
        t[lo] != c && absent_between(t, c, lo + 1, hi)
    }
}

/// What `absent_between` checks position by position holds of every position.
pub proof fn lemma_absent_between(t: Seq<char>, c: char, lo: int, hi: int)
    requires
        absent_between(t, c, lo, hi),
    ensures
        forall|j: int| lo <= j < hi ==> t[j] != c,
    decreases hi - lo,
{
    if lo < hi {
        lemma_absent_between(t, c, lo + 1, hi);
    }
}

/// Ten characters that agree one by one make a prefix.
pub proof fn lemma_prefix_of_ten(s: Seq<char>, p: Seq<char>)
    requires
        p.len() == 10,
        s.len() >= 10,
        s[0] == p[0],
        s[1] == p[1],
        s[2] == p[2],
        s[3] == p[3],
        s[4] == p[4],
        s[5] == p[5],
        s[6] == p[6],
        s[7] == p[7],
        s[8] == p[8],
        s[9] == p[9],
    ensures
        has_prefix(s, p),
{
    assert forall|k: int| 0 <= k < 10 implies #[trigger] s.subrange(0, 10)[k] == p[k] by {
        assert(k == 0 || k == 1 || k == 2 || k == 3 || k == 4 || k == 5 || k == 6 || k == 7 || k == 8
            || k == 9);
    }
    assert(s.subrange(0, 10) =~= p);
}

/// Where the part of `t` that starts at position `k` ends: at the next `sep`,
/// or at the end of `t`.
pub open spec fn segment_end(t: Seq<char>, k: int, sep: char) -> int
    decreases t.len() - k,
{
    if k < 0 || k >= t.len() || t[k] == sep {
        k
    } else {
        segment_end(t, k + 1, sep)
    }
}

/// The first part of `t`, up to the first `sep`.
pub open spec fn first_segment(t: Seq<char>, sep: char) -> Seq<char> {
    t.subrange(0, segment_end(t, 0, sep))
}

/// `w` occurs somewhere in `t`.
pub open spec fn contains_text(t: Seq<char>, w: Seq<char>) -> bool {
    exists|k: int| #[trigger] occurs_at(t, k, w)
}

} // verus!
