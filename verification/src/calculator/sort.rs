//! Ordering entries by name, as the calculator lays out its tables.

use crate::calculator::serialization::{Building, BuildingModule, Product, ProductCategory, Recipe};
use crate::strings::str_less;
use vstd::multiset::Multiset;
use vstd::prelude::*;

verus! {

broadcast use vstd::seq_lib::group_to_multiset_ensures;

/// `a` comes before `b` in the lexicographic order of their chars (a
/// proper prefix comes first).
pub open spec fn chars_lt(a: Seq<char>, b: Seq<char>) -> bool
    decreases a.len(),
{
    if a.len() == 0 {
        b.len() > 0
    } else if b.len() == 0 {
        false
    } else if a[0] != b[0] {
        (a[0] as int) < (b[0] as int)
    } else {
        chars_lt(a.drop_first(), b.drop_first())
    }
}

/// No string comes before itself.
pub proof fn lemma_chars_lt_irreflexive(a: Seq<char>)
    ensures
        !chars_lt(a, a),
    decreases a.len(),
{
    if a.len() > 0 {
        lemma_chars_lt_irreflexive(a.drop_first());
    }
}

/// The order of names is transitive.
pub proof fn lemma_chars_lt_transitive(a: Seq<char>, b: Seq<char>, c: Seq<char>)
    requires
        chars_lt(a, b),
        chars_lt(b, c),
    ensures
        chars_lt(a, c),
    decreases a.len(),
{
    if a.len() > 0 && b.len() > 0 && c.len() > 0 && a[0] == b[0] && b[0] == c[0] {
        lemma_chars_lt_transitive(a.drop_first(), b.drop_first(), c.drop_first());
    }
}

/// Of two different names, one comes first.
pub proof fn lemma_chars_lt_total(a: Seq<char>, b: Seq<char>)
    ensures
        a == b || chars_lt(a, b) || chars_lt(b, a),
    decreases a.len(),
{
    if a.len() > 0 && b.len() > 0 {
        if a[0] == b[0] {
            lemma_chars_lt_total(a.drop_first(), b.drop_first());
            if a.drop_first() == b.drop_first() {
                assert(a =~= seq![a[0]] + a.drop_first());
                assert(b =~= seq![b[0]] + b.drop_first());
            }
        } else {
            assert((a[0] as int) != (b[0] as int));
        }
    } else if a.len() == 0 && b.len() == 0 {
        assert(a =~= b);
    }
}

/// An entry that has a name.
pub trait Named {
    spec fn spec_name(&self) -> Seq<char>;

    fn name(&self) -> (r: &str)
        ensures
            r@ == self.spec_name(),
    ;
}

impl Named for Product {
    open spec fn spec_name(&self) -> Seq<char> {
        self.name@
    }

    fn name(&self) -> (r: &str) {
        self.name.as_str()
    }
}

impl Named for Recipe {
    open spec fn spec_name(&self) -> Seq<char> {
        self.name@
    }

    fn name(&self) -> (r: &str) {
        self.name.as_str()
    }
}

impl Named for BuildingModule {
    open spec fn spec_name(&self) -> Seq<char> {
        self.name@
    }

    fn name(&self) -> (r: &str) {
        self.name.as_str()
    }
}

impl Named for Building {
    open spec fn spec_name(&self) -> Seq<char> {
        self.name@
    }

    fn name(&self) -> (r: &str) {
        self.name.as_str()
    }
}

impl<M> Named for ProductCategory<M> {
    open spec fn spec_name(&self) -> Seq<char> {
        self.name@
    }

    fn name(&self) -> (r: &str) {
        self.name.as_str()
    }
}

/// No entry of `s` comes after a later one by name.
pub open spec fn sorted_by_name<T: Named>(s: Seq<(String, T)>) -> bool {
    forall|i: int, j: int|
        0 <= i < j < s.len() ==> !chars_lt((#[trigger] s[j]).1.spec_name(), (#[trigger] s[i]).1.spec_name())
}

/// The position of the first entry of `entries` with the least name.
fn position_of_least<T: Named>(entries: &Vec<(String, T)>) -> (r: usize)
    requires
        entries@.len() > 0,
    ensures
        r < entries@.len(),
        forall|j: int|
            0 <= j < entries@.len() ==> !chars_lt(
                (#[trigger] entries@[j]).1.spec_name(),
                entries@[r as int].1.spec_name(),
            ),
{
    let mut least: usize = 0;
    let mut k: usize = 1;
    proof {
        lemma_chars_lt_irreflexive(entries@[0].1.spec_name());
    }
    while k < entries.len()
        invariant
            1 <= k <= entries@.len(),
            least < k,
            forall|j: int|
                0 <= j < k ==> !chars_lt(
                    (#[trigger] entries@[j]).1.spec_name(),
                    entries@[least as int].1.spec_name(),
                ),
        decreases entries@.len() - k,
    {
        if str_less(entries[k].1.name(), entries[least].1.name()) {
            let ghost old_least = least;
            proof {
                assert forall|j: int| 0 <= j < k + 1 implies !chars_lt(
                    (#[trigger] entries@[j]).1.spec_name(),
                    entries@[k as int].1.spec_name(),
                ) by {
                    if j == k {
                        lemma_chars_lt_irreflexive(entries@[k as int].1.spec_name());
                    } else if chars_lt(entries@[j].1.spec_name(), entries@[k as int].1.spec_name()) {
                        lemma_chars_lt_transitive(
                            entries@[j].1.spec_name(),
                            entries@[k as int].1.spec_name(),
                            entries@[old_least as int].1.spec_name(),
                        );
                    }
                }
            }
            least = k;
        }
        k = k + 1;
    }
    least
}

/// Orders `data` by name. Entries with equal names may come in any order.
pub fn sort_by_name<T: Named>(data: Vec<(String, T)>) -> (r: Vec<(String, T)>)
    ensures
        r@.to_multiset() == data@.to_multiset(),
        sorted_by_name(r@),
{
    let ghost original = data@;
    let mut rest = data;
    let mut out: Vec<(String, T)> = Vec::new();
    while rest.len() > 0
        invariant
            out@.to_multiset().add(rest@.to_multiset()) == original.to_multiset(),
            sorted_by_name(out@),
            forall|i: int, j: int|
                0 <= i < out@.len() && 0 <= j < rest@.len() ==> !chars_lt(
                    (#[trigger] rest@[j]).1.spec_name(),
                    (#[trigger] out@[i]).1.spec_name(),
                ),
        decreases rest@.len(),
    {
        let least = position_of_least(&rest);
        let ghost before_rest = rest@;
        let ghost before_out = out@;
        let entry = rest.remove(least);
        out.push(entry);
        proof {
            assert(rest@ == before_rest.remove(least as int));
            assert(out@ == before_out.push(before_rest[least as int]));
            let moved = before_rest[least as int];
            assert(before_rest.contains(moved));
            assert(before_rest.to_multiset().count(moved) > 0);
            assert(rest@.to_multiset() =~= before_rest.to_multiset().remove(moved));
            assert(out@.to_multiset() =~= before_out.to_multiset().insert(moved));
            assert(out@.to_multiset().add(rest@.to_multiset()) =~= before_out.to_multiset().add(
                before_rest.to_multiset(),
            ));
            assert forall|i: int, j: int| 0 <= i < j < out@.len() implies !chars_lt(
                (#[trigger] out@[j]).1.spec_name(),
                (#[trigger] out@[i]).1.spec_name(),
            ) by {
                if j == out@.len() - 1 {
                    assert(out@[j] == before_rest[least as int]);
                    assert(out@[i] == before_out[i]);
                }
            }
            assert forall|i: int, j: int| 0 <= i < out@.len() && 0 <= j < rest@.len() implies !chars_lt(
                (#[trigger] rest@[j]).1.spec_name(),
                (#[trigger] out@[i]).1.spec_name(),
            ) by {
                let jj = if j < least {
                    j
                } else {
                    j + 1
                };
                assert(rest@[j] == before_rest[jj]);
                if i == out@.len() - 1 {
                    assert(out@[i] == before_rest[least as int]);
                } else {
                    assert(out@[i] == before_out[i]);
                }
            }
        }
    }
    proof {
        assert(rest@.to_multiset() =~= Multiset::empty());
        assert(out@.to_multiset().add(Multiset::empty()) =~= out@.to_multiset());
    }
    out
}

} // verus!
