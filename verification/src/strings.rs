//! Comparisons of strings char by char, over the chars that `str::chars`
//! hands out.

use vstd::prelude::*;
use crate::calculator::sort::chars_lt;
use vstd::std_specs::iter::IteratorSpec;

verus! {

broadcast use {vstd::string::axiom_spec_iter, vstd::string::next_postcondition};

/// The chars of `s`, in order.
pub(crate) fn chars_of(s: &str) -> (r: Vec<char>)
    ensures
        r@ == s@,
{
    let mut chars = s.chars();
    let mut r: Vec<char> = Vec::new();
    loop
        invariant
            r@ + chars.remaining() == s@,
            chars.decrease() is Some,
        ensures
            r@ == s@,
        decreases chars.decrease()->0,
    {
        match chars.next() {
            Some(c) => {
                r.push(c);
            },
            None => {
                break;
            },
        }
    }
    r
}

/// Whether `a` and `b` hold the same chars.
pub(crate) fn str_equal(a: &str, b: &str) -> (r: bool)
    ensures
        r == (a@ == b@),
{
    a.to_owned() == b.to_owned()
}

/// Whether `s` ends with the chars of `suffix`.
pub(crate) fn str_ends_with(s: &str, suffix: &str) -> (r: bool)
    ensures
        r == (suffix@.len() <= s@.len() && s@.subrange(s@.len() - suffix@.len(), s@.len() as int)
            == suffix@),
{
    let text = chars_of(s);
    let tail = chars_of(suffix);
    if tail.len() > text.len() {
        return false;
    }
    assert(text@.len() == text.len());
    let offset = text.len() - tail.len();
    let mut k: usize = 0;
    while k < tail.len()
        invariant
            text@ == s@,
            tail@ == suffix@,
            offset + tail@.len() == text@.len(),
            text@.len() <= usize::MAX,
            k <= tail@.len(),
            forall|j: int| 0 <= j < k ==> text@[offset + j] == tail@[j],
        decreases tail@.len() - k,
    {
        if text[offset + k] != tail[k] {
            assert(s@.subrange(offset as int, s@.len() as int)[k as int] != suffix@[k as int]);
            return false;
        }
        k = k + 1;
    }
    assert(s@.subrange(offset as int, s@.len() as int) =~= suffix@);
    true
}

/// Dropping a common prefix of `i` chars does not change which of `a` and
/// `b` comes first.
proof fn lemma_chars_lt_skip(a: Seq<char>, b: Seq<char>, i: int)
    requires
        0 <= i <= a.len(),
        i <= b.len(),
        forall|j: int| 0 <= j < i ==> a[j] == b[j],
    ensures
        chars_lt(a, b) == chars_lt(a.skip(i), b.skip(i)),
    decreases i,
{
    if i > 0 {
        lemma_chars_lt_skip(a.drop_first(), b.drop_first(), i - 1);
        assert(a.drop_first().skip(i - 1) =~= a.skip(i));
        assert(b.drop_first().skip(i - 1) =~= b.skip(i));
    } else {
        assert(a.skip(0) =~= a);
        assert(b.skip(0) =~= b);
    }
}

/// Whether `a` comes before `b` in the lexicographic order of their chars.
pub(crate) fn str_less(a: &str, b: &str) -> (r: bool)
    ensures
        r == chars_lt(a@, b@),
{
    let x = chars_of(a);
    let y = chars_of(b);
    let mut i: usize = 0;
    while i < x.len() && i < y.len()
        invariant
            x@ == a@,
            y@ == b@,
            i <= x@.len(),
            i <= y@.len(),
            forall|j: int| 0 <= j < i ==> x@[j] == y@[j],
        decreases x@.len() - i,
    {
        if x[i] != y[i] {
            proof {
                lemma_chars_lt_skip(x@, y@, i as int);
                assert(x@.skip(i as int)[0] == x@[i as int]);
                assert(y@.skip(i as int)[0] == y@[i as int]);
            }
            return x[i] < y[i];
        }
        i = i + 1;
    }
    proof {
        lemma_chars_lt_skip(x@, y@, i as int);
    }
    i == x.len() && i < y.len()
}

} // verus!
