//! Iterators over typed index collections. The plain iterators (`IntoIter`,
//! `Iter`, `IterMut`) hand out items; `Indexable` adds the typed position of
//! the next item, and `Indexed` pairs every item with its typed index.

use crate::typed_index::{TypedIndex, UntypedOffset};
use std::collections::VecDeque;
use std::marker::PhantomData;
use vstd::prelude::*;

verus! {

/// A double-ended iterator whose items stand for values of a sequence, taken
/// from its front by `next` and from its back by `next_back`.
pub trait IndexableIterator: Sized {
    type Item;

    /// What an item stands for: the value itself, or the value behind a
    /// reference.
    type Value;

    /// The values still to come, front first.
    spec fn values(&self) -> Seq<Self::Value>;

    /// The value that an item stands for.
    spec fn value_of(item: Self::Item) -> Self::Value;

    /// Takes the front value, or returns `None` when none is left.
    fn next(&mut self) -> (ret: Option<Self::Item>)
        ensures
            match ret {
                Some(item) => {
                    &&& old(self).values().len() > 0
                    &&& Self::value_of(item) == old(self).values()[0]
                    &&& final(self).values() == old(self).values().drop_first()
                },
                None => {
                    &&& old(self).values().len() == 0
                    &&& final(self).values() == old(self).values()
                },
            },
    ;

    /// Takes the back value, or returns `None` when none is left.
    fn next_back(&mut self) -> (ret: Option<Self::Item>)
        ensures
            match ret {
                Some(item) => {
                    &&& old(self).values().len() > 0
                    &&& Self::value_of(item) == old(self).values().last()
                    &&& final(self).values() == old(self).values().drop_last()
                },
                None => {
                    &&& old(self).values().len() == 0
                    &&& final(self).values() == old(self).values()
                },
            },
    ;

    /// How many values are left.
    fn len(&self) -> (r: usize)
        ensures
            r == self.values().len(),
    ;
}

/// An iterator that can take its front and its back value together with
/// the typed index of that value.
pub trait IndexableDoubleEndedIterator: IndexableIterator {
    type Index: TypedIndex;

    /// The position just past the back value.
    spec fn end_position(&self) -> nat;

    /// Every position up to `end_position` is held by the index type, and
    /// no value lies before position zero.
    spec fn indexable(&self) -> bool;

    /// Takes the front value with its typed index, or returns `None` when
    /// none is left.
    fn indexed_next(&mut self) -> (ret: Option<(Self::Index, Self::Item)>)
        requires
            old(self).indexable(),
        ensures
            final(self).indexable(),
            final(self).end_position() == old(self).end_position(),
            match ret {
                Some((index, item)) => {
                    &&& old(self).values().len() > 0
                    &&& index.position() + old(self).values().len() == old(self).end_position()
                    &&& Self::value_of(item) == old(self).values()[0]
                    &&& final(self).values() == old(self).values().drop_first()
                },
                None => {
                    &&& old(self).values().len() == 0
                    &&& final(self).values() == old(self).values()
                },
            },
    ;

    /// Takes the back value with its typed index, or returns `None` when
    /// none is left.
    fn indexed_next_back(&mut self) -> (ret: Option<(Self::Index, Self::Item)>)
        requires
            old(self).indexable(),
        ensures
            final(self).indexable(),
            match ret {
                Some((index, item)) => {
                    &&& old(self).values().len() > 0
                    &&& index.position() + 1 == old(self).end_position()
                    &&& Self::value_of(item) == old(self).values().last()
                    &&& final(self).values() == old(self).values().drop_last()
                    &&& final(self).end_position() == index.position()
                },
                None => {
                    &&& old(self).values().len() == 0
                    &&& final(self).values() == old(self).values()
                    &&& final(self).end_position() == old(self).end_position()
                },
            },
    ;
}

/// Turns the position of an enumerated item into a typed index.
pub fn map_index<X: TypedIndex, T>(item: (usize, T)) -> (r: (X, T))
    requires
        X::holds(item.0 as nat),
    ensures
        r.0.position() == item.0,
        r.1 == item.1,
{
    let (position, t) = item;
    (X::from_usize(position), t)
}

/// The values of `items` in a queue, front first.
pub fn into_queue<T>(items: Vec<T>) -> (r: VecDeque<T>)
    ensures
        r@ == items@,
{
    let mut items = items;
    let ghost original = items@;
    let mut queue: VecDeque<T> = VecDeque::new();
    while items.len() > 0
        invariant
            items@ + queue@ == original,
        decreases items@.len(),
    {
        let ghost before = items@;
        let last = items.pop().unwrap();
        queue.push_front(last);
        assert(items@ + queue@ =~= before.drop_last() + (seq![last] + (original.subrange(
            before.len() as int,
            original.len() as int,
        ))));
        assert(items@ + queue@ =~= original);
    }
    assert(queue@ =~= original);
    queue
}

/// An iterator that owns the values of a typed index vector. It counts the
/// values taken from the front, so that it can name the typed index of each.
pub struct IntoIter<X, T> {
    items: VecDeque<T>,
    taken: usize,
    marker: PhantomData<X>,
}

impl<X, T> IntoIter<X, T> {
    #[verifier::type_invariant]
    spec fn count_fits(self) -> bool {
        self.taken as nat + self.items@.len() <= usize::MAX
    }
}

impl<X: TypedIndex, T> IntoIter<X, T> {
    /// How many values were taken from the front so far.
    pub closed spec fn taken(&self) -> nat {
        self.taken as nat
    }

    /// Every position this iterator can still name is held by `X`.
    pub open spec fn wf(&self) -> bool {
        X::holds(self.taken() + self.values().len())
    }

    /// Takes over the values of `items`, front first.
    pub(crate) fn from_vec(items: Vec<T>) -> (r: Self)
        requires
            X::holds(items@.len()),
        ensures
            r.values() == items@,
            r.taken() == 0,
            r.wf(),
    {
        proof {
            assert(items@.len() == items.len());
        }
        let queue = into_queue(items);
        IntoIter { items: queue, taken: 0, marker: PhantomData }
    }

    /// Takes the value `n` places from the back, dropping it and the `n`
    /// values behind it; `None` when fewer than `n + 1` values are left.
    pub fn nth_back(&mut self, n: usize) -> (ret: Option<T>)
        ensures
            n < old(self).values().len() ==> {
                &&& ret == Some(old(self).values()[old(self).values().len() - 1 - n])
                &&& final(self).values() == old(self).values().subrange(
                    0,
                    old(self).values().len() - 1 - n,
                )
            },
            n >= old(self).values().len() ==> ret is None && final(self).values().len() == 0,
            final(self).taken() == old(self).taken(),
    {
        let mut skipped: usize = 0;
        while skipped < n
            invariant
                skipped <= n,
                self.taken() == old(self).taken(),
                skipped <= old(self).values().len() ==> self.values() == old(self).values().subrange(
                    0,
                    old(self).values().len() - skipped,
                ),
                skipped > old(self).values().len() ==> self.values().len() == 0,
            decreases n - skipped,
        {
            let _ = self.next_back();
            skipped = skipped + 1;
        }
        self.next_back()
    }
}

impl<X: TypedIndex, T> IndexableIterator for IntoIter<X, T> {
    type Item = T;

    type Value = T;

    closed spec fn values(&self) -> Seq<T> {
        self.items@
    }

    open spec fn value_of(item: T) -> T {
        item
    }

    fn next(&mut self) -> (ret: Option<T>)
        ensures
            ret is Some ==> final(self).taken() == old(self).taken() + 1,
            ret is None ==> final(self).taken() == old(self).taken(),
    {
        proof {
            use_type_invariant(&*self);
        }
        let mut items = VecDeque::new();
        std::mem::swap(&mut items, &mut self.items);
        let ret = items.pop_front();
        if ret.is_some() {
            self.taken = self.taken + 1;
        }
        self.items = items;
        ret
    }

    fn next_back(&mut self) -> (ret: Option<T>)
        ensures
            final(self).taken() == old(self).taken(),
    {
        proof {
            use_type_invariant(&*self);
        }
        let mut items = VecDeque::new();
        std::mem::swap(&mut items, &mut self.items);
        let ret = items.pop_back();
        self.items = items;
        ret
    }

    fn len(&self) -> (r: usize) {
        self.items.len()
    }
}

impl<X: TypedIndex, T> IndexableDoubleEndedIterator for IntoIter<X, T> {
    type Index = X;

    /// Counted from the first value the iterator was made with.
    open spec fn end_position(&self) -> nat {
        self.taken() + self.values().len()
    }

    open spec fn indexable(&self) -> bool {
        self.wf()
    }

    fn indexed_next(&mut self) -> (ret: Option<(X, T)>)
        ensures
            match ret {
                Some(_) => final(self).taken() == old(self).taken() + 1,
                None => final(self).taken() == old(self).taken(),
            },
    {
        let position = self.taken;
        match self.next() {
            Some(item) => {
                proof {
                    X::lemma_holds_below(old(self).taken() + old(self).values().len(), position as nat);
                }
                Some(map_index((position, item)))
            },
            None => None,
        }
    }

    fn indexed_next_back(&mut self) -> (ret: Option<(X, T)>)
        ensures
            final(self).taken() == old(self).taken(),
    {
        match self.next_back() {
            Some(item) => {
                proof {
                    use_type_invariant(&*self);
                }
                let position = self.taken + self.items.len();
                proof {
                    X::lemma_holds_below(old(self).taken() + old(self).values().len(), position as nat);
                }
                Some(map_index((position, item)))
            },
            None => None,
        }
    }
}

/// An iterator over shared references to the values of a slice.
pub struct Iter<'a, T> {
    slice: &'a [T],
}

impl<'a, T> Iter<'a, T> {
    pub fn new(slice: &'a [T]) -> (r: Self)
        ensures
            r.values() == slice@,
    {
        Iter { slice }
    }
}

impl<'a, T> IndexableIterator for Iter<'a, T> {
    type Item = &'a T;

    type Value = T;

    closed spec fn values(&self) -> Seq<T> {
        self.slice@
    }

    open spec fn value_of(item: &'a T) -> T {
        *item
    }

    fn next(&mut self) -> (ret: Option<&'a T>) {
        if self.slice.len() == 0 {
            return None;
        }
        let (first, rest) = self.slice.split_at(1);
        self.slice = rest;
        Some(&first[0])
    }

    fn next_back(&mut self) -> (ret: Option<&'a T>) {
        let n = self.slice.len();
        if n == 0 {
            return None;
        }
        let (rest, last) = self.slice.split_at(n - 1);
        self.slice = rest;
        Some(&last[0])
    }

    fn len(&self) -> (r: usize) {
        self.slice.len()
    }
}

/// An iterator over mutable references to the values of a slice. What the
/// contracts say of an item is the value behind it when it is handed out.
pub struct IterMut<'a, T> {
    /// The values not handed out yet; what they hold when the borrow ends
    /// is what the borrowed slice holds then at their places.
    pub slice: &'a mut [T],
}

impl<'a, T> IterMut<'a, T> {
    pub fn new(slice: &'a mut [T]) -> (r: Self)
        ensures
            r.values() == old(slice)@,
            final(slice)@ == final(r.slice)@,
    {
        IterMut { slice }
    }
}

impl<'a, T> IndexableIterator for IterMut<'a, T> {
    type Item = &'a mut T;

    type Value = T;

    open spec fn values(&self) -> Seq<T> {
        self.slice@
    }

    open spec fn value_of(item: &'a mut T) -> T {
        *item
    }

    /// What is written through the item ends up in front of what the rest
    /// of the slice ends up holding.
    fn next(&mut self) -> (ret: Option<&'a mut T>)
        ensures
            match ret {
                Some(item) => final(old(self).slice)@ == seq![*final(item)] + final(final(self).slice)@,
                None => final(old(self).slice)@ == final(final(self).slice)@,
            },
    {
        let mut taken: &'a mut [T] = &mut [];
        std::mem::swap(&mut taken, &mut self.slice);
        if taken.len() == 0 {
            self.slice = taken;
            return None;
        }
        let (first, rest) = taken.split_at_mut(1);
        self.slice = rest;
        first.first_mut()
    }

    /// What is written through the item ends up behind what the rest of
    /// the slice ends up holding.
    fn next_back(&mut self) -> (ret: Option<&'a mut T>)
        ensures
            match ret {
                Some(item) => final(old(self).slice)@ == final(final(self).slice)@ + seq![*final(item)],
                None => final(old(self).slice)@ == final(final(self).slice)@,
            },
    {
        let mut taken: &'a mut [T] = &mut [];
        std::mem::swap(&mut taken, &mut self.slice);
        let n = taken.len();
        if n == 0 {
            self.slice = taken;
            return None;
        }
        let (rest, last) = taken.split_at_mut(n - 1);
        self.slice = rest;
        last.first_mut()
    }

    fn len(&self) -> (r: usize) {
        self.slice.len()
    }
}

/// An iterator that knows the typed index of its next item. `source` is the
/// sequence the iterator walks, and `first` the position of its first value.
pub struct Indexable<X, I: IndexableIterator> {
    inner: I,
    index: X,
    source: Ghost<Seq<I::Value>>,
    first: Ghost<nat>,
}

/// An iterator that pairs each item with its typed index.
pub struct Indexed<X, I: IndexableIterator> {
    inner: I,
    index: X,
    source: Ghost<Seq<I::Value>>,
    first: Ghost<nat>,
}

/// An iterator that pairs each front item with a typed index counted up
/// from the index it was made with, and each back item with the typed index
/// that the inner iterator gives it.
pub struct Indexed2<X, T> {
    inner: T,
    index: X,
}

/// The values still to come are the window of `source` that starts at
/// `position - first`, and every position up to the end of it is held.
pub open spec fn walks<X: TypedIndex, V>(
    values: Seq<V>,
    position: nat,
    source: Seq<V>,
    first: nat,
) -> bool {
    &&& first <= position
    &&& position - first + values.len() <= source.len()
    &&& values == source.subrange(position - first, position - first + values.len())
    &&& X::holds(position + values.len())
}

impl<X: TypedIndex, I: IndexableIterator> Indexable<X, I> {
    pub closed spec fn values(&self) -> Seq<I::Value> {
        self.inner.values()
    }

    /// The position of the next value from the front.
    pub closed spec fn next_position(&self) -> nat {
        self.index.position()
    }

    /// The whole sequence this iterator walks.
    pub closed spec fn source(&self) -> Seq<I::Value> {
        self.source@
    }

    /// The position of `source()[0]`.
    pub closed spec fn first(&self) -> nat {
        self.first@
    }

    pub open spec fn wf(&self) -> bool {
        walks::<X, I::Value>(self.values(), self.next_position(), self.source(), self.first())
    }

    /// Starts at typed position `index`.
    pub fn new(inner: I, index: X) -> (r: Self)
        requires
            X::holds(index.position() + inner.values().len()),
        ensures
            r.wf(),
            r.values() == inner.values(),
            r.source() == inner.values(),
            r.next_position() == index.position(),
            r.first() == index.position(),
    {
        let ghost values = inner.values();
        assert(values.subrange(0, values.len() as int) =~= values);
        Indexable { inner, index, source: Ghost(values), first: Ghost(index.position()) }
    }

    /// Starts at position zero.
    pub fn new_from_zero(inner: I) -> (r: Self)
        requires
            X::holds(inner.values().len()),
        ensures
            r.wf(),
            r.values() == inner.values(),
            r.source() == inner.values(),
            r.next_position() == 0,
            r.first() == 0,
    {
        proof {
            X::lemma_holds_below(inner.values().len(), 0);
        }
        Self::new(inner, X::from_usize(0))
    }

    /// From here on, pairs every item with its typed index.
    pub fn index(self) -> (r: Indexed<X, I>)
        ensures
            r.values() == self.values(),
            r.next_position() == self.next_position(),
            r.source() == self.source(),
            r.first() == self.first(),
    {
        let Indexable { inner, index, source, first } = self;
        Indexed { inner, index, source, first }
    }

    /// Takes the front item and moves the index one place on.
    pub fn next(&mut self) -> (ret: Option<I::Item>)
        requires
            old(self).wf(),
        ensures
            final(self).wf(),
            final(self).source() == old(self).source(),
            final(self).first() == old(self).first(),
            match ret {
                Some(item) => {
                    &&& old(self).values().len() > 0
                    &&& I::value_of(item) == old(self).values()[0]
                    &&& final(self).values() == old(self).values().drop_first()
                    &&& final(self).next_position() == old(self).next_position() + 1
                },
                None => {
                    &&& old(self).values().len() == 0
                    &&& final(self).values() == old(self).values()
                    &&& final(self).next_position() == old(self).next_position()
                },
            },
    {
        let item = self.inner.next();
        match item {
            Some(item) => {
                proof {
                    X::lemma_holds_below(
                        old(self).next_position() + old(self).values().len(),
                        old(self).next_position() + 1,
                    );
                }
                self.index = self.index.add_offset(UntypedOffset(1));
                proof {
                    let off = old(self).next_position() - old(self).first();
                    let n = old(self).values().len();
                    assert(self.values() =~= self.source().subrange(off + 1, off + n));
                }
                Some(item)
            },
            None => None,
        }
    }

    /// Takes the back item; the index of the front stays.
    pub fn next_back(&mut self) -> (ret: Option<I::Item>)
        requires
            old(self).wf(),
        ensures
            final(self).wf(),
            final(self).source() == old(self).source(),
            final(self).first() == old(self).first(),
            final(self).next_position() == old(self).next_position(),
            match ret {
                Some(item) => {
                    &&& old(self).values().len() > 0
                    &&& I::value_of(item) == old(self).values().last()
                    &&& final(self).values() == old(self).values().drop_last()
                },
                None => {
                    &&& old(self).values().len() == 0
                    &&& final(self).values() == old(self).values()
                },
            },
    {
        let item = self.inner.next_back();
        proof {
            if item is Some {
                let off = old(self).next_position() - old(self).first();
                let n = old(self).values().len();
                assert(self.values() =~= self.source().subrange(off, off + n - 1));
                X::lemma_holds_below(old(self).next_position() + n, (self.next_position() + n - 1) as nat);
            }
        }
        item
    }

    pub fn len(&self) -> (r: usize)
        ensures
            r == self.values().len(),
    {
        self.inner.len()
    }
}

/// Numbering continues where taking stopped: whatever was taken from an
/// `Indexable` before it became the `Indexed` `after` (by `index()`), each
/// value still to come is numbered with its position in the walked
/// sequence, the next one with `next_position()`, and all those numbers
/// are held by `X`.
pub proof fn lemma_index_continues<X: TypedIndex, I: IndexableIterator>(
    before: Indexable<X, I>,
    after: Indexed<X, I>,
    k: int,
)
    requires
        before.wf(),
        after.values() == before.values(),
        after.next_position() == before.next_position(),
        after.source() == before.source(),
        after.first() == before.first(),
        0 <= k < after.values().len(),
    ensures
        after.wf(),
        X::holds(after.next_position() + k as nat),
        before.first() <= before.next_position(),
        after.values()[k] == after.source()[after.next_position() - after.first() + k],
{
    X::lemma_holds_below(before.next_position() + before.values().len(), (before.next_position() + k) as nat);
}

/// Numbering continues after taking: an iterator over all of `s` that
/// started at position 0 (as `iter`, `iter_mut` and `into_iter` of a
/// collection do) and had `k` values taken from its front (each `next`
/// moves `next_position()` on by one) numbers, once it is `after` by
/// `index()`, its values `s[k]`, `s[k + 1]`, ... with `k`, `k + 1`, ...,
/// and all those numbers are held by `X`.
pub proof fn lemma_index_after_front_takes<X: TypedIndex, I: IndexableIterator>(
    s: Seq<I::Value>,
    before: Indexable<X, I>,
    after: Indexed<X, I>,
    k: nat,
)
    requires
        before.wf(),
        before.source() == s,
        before.first() == 0,
        before.next_position() == k,
        before.values().len() + k == s.len(),
        after.values() == before.values(),
        after.next_position() == before.next_position(),
        after.source() == before.source(),
        after.first() == before.first(),
    ensures
        after.wf(),
        after.next_position() == k,
        after.values() == s.skip(k as int),
        forall|j: int|
            0 <= j < after.values().len() ==> #[trigger] after.values()[j] == s[k + j] && X::holds(
                (k + j) as nat,
            ),
{
    assert(after.values() =~= s.skip(k as int));
    assert forall|j: int| 0 <= j < after.values().len() implies #[trigger] after.values()[j] == s[k
        + j] && X::holds((k + j) as nat) by {
        assert(s.skip(k as int)[j] == s[k + j]);
        X::lemma_holds_below(k + before.values().len(), (k + j) as nat);
    }
}

impl<X: TypedIndex, T: IndexableDoubleEndedIterator<Index = X>> Indexed2<X, T> {
    /// The iterator that hands out the items.
    pub closed spec fn inner(&self) -> T {
        self.inner
    }

    /// The index the next front item gets.
    pub closed spec fn next_position(&self) -> nat {
        self.index.position()
    }

    pub open spec fn values(&self) -> Seq<T::Value> {
        self.inner().values()
    }

    /// The position the inner iterator gives just past its back value.
    pub open spec fn end_position(&self) -> nat {
        self.inner().end_position()
    }

    /// The inner iterator can name its positions, and the front count can
    /// go on for every value left.
    pub open spec fn wf(&self) -> bool {
        &&& self.inner().indexable()
        &&& X::holds(self.next_position() + self.values().len())
    }

    /// Counts front items from `index`.
    pub fn new(inner: T, index: X) -> (r: Self)
        ensures
            r.inner() == inner,
            r.next_position() == index.position(),
    {
        Indexed2 { inner, index }
    }

    /// Counts front items from zero.
    pub fn new_from_zero(inner: T) -> (r: Self)
        ensures
            r.inner() == inner,
            r.next_position() == 0,
    {
        proof {
            X::lemma_holds_zero();
        }
        Self::new(inner, X::from_usize(0))
    }

    /// Takes the front item, paired with the count of front items so far
    /// added to the index this iterator was made with.
    pub fn next(&mut self) -> (ret: Option<(X, T::Item)>)
        requires
            old(self).wf(),
        ensures
            final(self).wf(),
            final(self).end_position() == old(self).end_position(),
            match ret {
                Some((index, item)) => {
                    &&& old(self).values().len() > 0
                    &&& index.position() == old(self).next_position()
                    &&& T::value_of(item) == old(self).values()[0]
                    &&& final(self).values() == old(self).values().drop_first()
                    &&& final(self).next_position() == old(self).next_position() + 1
                },
                None => {
                    &&& old(self).values().len() == 0
                    &&& final(self).values() == old(self).values()
                    &&& final(self).next_position() == old(self).next_position()
                },
            },
    {
        match self.inner.indexed_next() {
            Some((_, item)) => {
                let index = self.index;
                proof {
                    X::lemma_holds_below(
                        old(self).next_position() + old(self).values().len(),
                        old(self).next_position() + 1,
                    );
                    X::lemma_holds_fits(old(self).next_position() + 1);
                }
                self.index = X::from_usize(index.into_usize() + 1);
                Some((index, item))
            },
            None => None,
        }
    }

    /// Takes the back item, paired with the typed index that the inner
    /// iterator gives it.
    pub fn next_back(&mut self) -> (ret: Option<(X, T::Item)>)
        requires
            old(self).wf(),
        ensures
            final(self).wf(),
            final(self).next_position() == old(self).next_position(),
            match ret {
                Some((index, item)) => {
                    &&& old(self).values().len() > 0
                    &&& index.position() + 1 == old(self).end_position()
                    &&& T::value_of(item) == old(self).values().last()
                    &&& final(self).values() == old(self).values().drop_last()
                    &&& final(self).end_position() == index.position()
                },
                None => {
                    &&& old(self).values().len() == 0
                    &&& final(self).values() == old(self).values()
                    &&& final(self).end_position() == old(self).end_position()
                },
            },
    {
        let ret = self.inner.indexed_next_back();
        proof {
            if old(self).values().len() > 0 {
                X::lemma_holds_below(
                    old(self).next_position() + old(self).values().len(),
                    (old(self).next_position() + old(self).values().len() - 1) as nat,
                );
            }
        }
        ret
    }

    /// How many values are left.
    pub fn len(&self) -> (r: usize)
        ensures
            r == self.values().len(),
    {
        self.inner.len()
    }
}

impl<X: TypedIndex, I: IndexableIterator> Indexed<X, I> {
    pub closed spec fn values(&self) -> Seq<I::Value> {
        self.inner.values()
    }

    /// The position of the next value from the front.
    pub closed spec fn next_position(&self) -> nat {
        self.index.position()
    }

    /// The whole sequence this iterator walks.
    pub closed spec fn source(&self) -> Seq<I::Value> {
        self.source@
    }

    /// The position of `source()[0]`.
    pub closed spec fn first(&self) -> nat {
        self.first@
    }

    pub open spec fn wf(&self) -> bool {
        walks::<X, I::Value>(self.values(), self.next_position(), self.source(), self.first())
    }

    /// Starts at typed position `index`.
    pub fn new(inner: I, index: X) -> (r: Self)
        requires
            X::holds(index.position() + inner.values().len()),
        ensures
            r.wf(),
            r.values() == inner.values(),
            r.source() == inner.values(),
            r.next_position() == index.position(),
            r.first() == index.position(),
    {
        let ghost values = inner.values();
        assert(values.subrange(0, values.len() as int) =~= values);
        Indexed { inner, index, source: Ghost(values), first: Ghost(index.position()) }
    }

    /// Starts at position zero.
    pub fn new_from_zero(inner: I) -> (r: Self)
        requires
            X::holds(inner.values().len()),
        ensures
            r.wf(),
            r.values() == inner.values(),
            r.source() == inner.values(),
            r.next_position() == 0,
            r.first() == 0,
    {
        proof {
            X::lemma_holds_below(inner.values().len(), 0);
        }
        Self::new(inner, X::from_usize(0))
    }

    /// Takes the front item with its typed index: the index is the item's
    /// position, so the item stands for `source()[index - first()]`.
    pub fn next(&mut self) -> (ret: Option<(X, I::Item)>)
        requires
            old(self).wf(),
        ensures
            final(self).wf(),
            final(self).source() == old(self).source(),
            final(self).first() == old(self).first(),
            match ret {
                Some((index, item)) => {
                    &&& old(self).values().len() > 0
                    &&& index.position() == old(self).next_position()
                    &&& I::value_of(item) == old(self).values()[0]
                    &&& I::value_of(item) == old(self).source()[index.position() - old(self).first()]
                    &&& final(self).values() == old(self).values().drop_first()
                    &&& final(self).next_position() == old(self).next_position() + 1
                },
                None => {
                    &&& old(self).values().len() == 0
                    &&& final(self).values() == old(self).values()
                    &&& final(self).next_position() == old(self).next_position()
                },
            },
    {
        let item = self.inner.next();
        match item {
            Some(item) => {
                let index = self.index;
                proof {
                    X::lemma_holds_below(
                        old(self).next_position() + old(self).values().len(),
                        old(self).next_position() + 1,
                    );
                }
                self.index = self.index.add_offset(UntypedOffset(1));
                proof {
                    let off = old(self).next_position() - old(self).first();
                    let n = old(self).values().len();
                    assert(old(self).values()[0] == old(self).source()[off]);
                    assert(self.values() =~= self.source().subrange(off + 1, off + n));
                }
                Some((index, item))
            },
            None => None,
        }
    }

    /// Takes the back item with its typed index, which is the position of
    /// the last value still to come.
    pub fn next_back(&mut self) -> (ret: Option<(X, I::Item)>)
        requires
            old(self).wf(),
        ensures
            final(self).wf(),
            final(self).source() == old(self).source(),
            final(self).first() == old(self).first(),
            final(self).next_position() == old(self).next_position(),
            match ret {
                Some((index, item)) => {
                    &&& old(self).values().len() > 0
                    &&& index.position() == old(self).next_position() + old(self).values().len() - 1
                    &&& I::value_of(item) == old(self).values().last()
                    &&& I::value_of(item) == old(self).source()[index.position() - old(self).first()]
                    &&& final(self).values() == old(self).values().drop_last()
                },
                None => {
                    &&& old(self).values().len() == 0
                    &&& final(self).values() == old(self).values()
                },
            },
    {
        let item = self.inner.next_back();
        match item {
            Some(item) => {
                let rest = self.inner.len();
                proof {
                    let n = old(self).values().len();
                    X::lemma_holds_below(old(self).next_position() + n, (self.next_position() + rest) as nat);
                }
                let index = self.index.add_offset(UntypedOffset(rest));
                proof {
                    let off = old(self).next_position() - old(self).first();
                    let n = old(self).values().len();
                    assert(old(self).values().last() == old(self).source()[off + n - 1]);
                    assert(self.values() =~= self.source().subrange(off, off + n - 1));
                    X::lemma_holds_below(old(self).next_position() + n, (self.next_position() + n - 1) as nat);
                }
                Some((index, item))
            },
            None => None,
        }
    }

    pub fn len(&self) -> (r: usize)
        ensures
            r == self.values().len(),
    {
        self.inner.len()
    }
}

} // verus!
