//! Collections indexed by a typed index: a growable vector, a boxed slice of
//! fixed length, and borrowed views of either.

use crate::iter::{Indexable, IndexableIterator, IntoIter, Iter, IterMut};
use crate::typed_index::TypedIndex;
use std::marker::PhantomData;
use vstd::prelude::*;

verus! {

/// A collection `C` of values that is indexed by `X` instead of `usize`.
pub struct TypedIndexCollection<X, C> {
    marker: PhantomData<X>,
    inner: C,
}

/// A growable vector indexed by `X`.
pub type TypedIndexVec<X, T> = TypedIndexCollection<X, Vec<T>>;

/// A boxed slice indexed by `X`; its length never changes.
pub type TypedIndexBoxedSlice<X, T> = TypedIndexCollection<X, Box<[T]>>;

impl<X, C: View> View for TypedIndexCollection<X, C> {
    type V = C::V;

    closed spec fn view(&self) -> C::V {
        self.inner@
    }
}

impl<X, C: View> TypedIndexCollection<X, C> {
    /// Wraps `inner`; its values keep their positions.
    pub fn new(inner: C) -> (r: Self)
        ensures
            r@ == inner@,
    {
        TypedIndexCollection { marker: PhantomData, inner }
    }

    pub(crate) fn into_inner(self) -> (r: C)
        ensures
            r@ == self@,
    {
        self.inner
    }
}

/// After `push(value)` on `before` gave `after` and the index `pushed`,
/// `get(pushed)` reads `value`, and every index that `before` held reads
/// what it read before.
pub proof fn lemma_push_then_get<X: TypedIndex, T>(
    before: TypedIndexVec<X, T>,
    after: TypedIndexVec<X, T>,
    value: T,
    pushed: X,
    other: X,
)
    requires
        after@ == before@.push(value),
        pushed.position() == before@.len(),
    ensures
        pushed.position() < after@.len(),
        after@[pushed.position() as int] == value,
        other.position() < before@.len() ==> other.position() < after@.len()
            && after@[other.position() as int] == before@[other.position() as int],
{
}

/// After `set(index, value)` on `before` gave `after`, `get(index)` reads
/// `value`, every other index reads what it read before, and the length
/// stays.
pub proof fn lemma_set_then_get<X: TypedIndex, T>(
    before: TypedIndexVec<X, T>,
    after: TypedIndexVec<X, T>,
    index: X,
    value: T,
    other: X,
)
    requires
        index.position() < before@.len(),
        after@ == before@.update(index.position() as int, value),
    ensures
        after@.len() == before@.len(),
        after@[index.position() as int] == value,
        other.position() < before@.len() && other.position() != index.position()
            ==> after@[other.position() as int] == before@[other.position() as int],
{
}

/// `Vec::into_boxed_slice`, which keeps the values and their order.
#[verifier::external_body]
fn vec_into_boxed_slice<T>(v: Vec<T>) -> (r: Box<[T]>)
    ensures
        r@ == v@,
{
    v.into_boxed_slice()
}

/// Room for `n` values of `T` takes at most `isize::MAX` bytes, as an
/// allocation must; asking for more makes `Vec` panic.
pub open spec fn room_for<T>(n: nat) -> bool {
    n * vstd::layout::size_of::<T>() <= isize::MAX
}

/// `Vec::capacity`: how many values the vector can hold without
/// reallocating, which is never less than its length.
#[verifier::external_body]
fn vec_capacity<T>(v: &Vec<T>) -> (r: usize)
    ensures
        r >= v@.len(),
{
    v.capacity()
}

/// `Vec::reserve_exact`, which keeps the values; it panics when the new
/// capacity overflows `usize` or exceeds `isize::MAX` bytes, which the
/// `requires` leaves out.
#[verifier::external_body]
fn vec_reserve_exact<T>(v: &mut Vec<T>, additional: usize)
    requires
        old(v)@.len() + additional <= usize::MAX,
        room_for::<T>(old(v)@.len() + additional as nat),
    ensures
        final(v)@ == old(v)@,
{
    v.reserve_exact(additional)
}

/// `Vec::shrink_to_fit`, which keeps the values.
#[verifier::external_body]
fn vec_shrink_to_fit<T>(v: &mut Vec<T>)
    ensures
        final(v)@ == old(v)@,
{
    v.shrink_to_fit()
}

/// `Vec::shrink_to`, which keeps the values.
#[verifier::external_body]
fn vec_shrink_to<T>(v: &mut Vec<T>, min_capacity: usize)
    ensures
        final(v)@ == old(v)@,
{
    v.shrink_to(min_capacity)
}

impl<X, T> Default for TypedIndexVec<X, T> {
    fn default() -> (r: Self)
        ensures
            r@ == Seq::<T>::empty(),
    {
        TypedIndexCollection { marker: PhantomData, inner: Vec::new() }
    }
}

impl<X: TypedIndex, T> TypedIndexVec<X, T> {
    /// An empty vector with room for `capacity` values.
    pub fn with_capacity(capacity: usize) -> (r: Self)
        requires
            room_for::<T>(capacity as nat),
        ensures
            r@ == Seq::<T>::empty(),
    {
        TypedIndexCollection { marker: PhantomData, inner: Vec::with_capacity(capacity) }
    }

    /// The index that the next pushed value will get; it must be held by `X`.
    pub fn next_index(&self) -> (r: X)
        requires
            X::holds(self@.len()),
        ensures
            r.position() == self@.len(),
    {
        X::from_usize(self.inner.len())
    }

    /// Appends `value` and returns its index; the index must be held by `X`.
    pub fn push(&mut self, value: T) -> (r: X)
        requires
            X::holds(old(self)@.len()),
        ensures
            final(self)@ == old(self)@.push(value),
            r.position() == old(self)@.len(),
    {
        let index = self.next_index();
        self.inner.push(value);
        index
    }

    /// The same values in a boxed slice.
    pub fn into_boxed_slice(self) -> (r: TypedIndexBoxedSlice<X, T>)
        ensures
            r@ == self@,
    {
        TypedIndexCollection { marker: PhantomData, inner: vec_into_boxed_slice(self.inner) }
    }

    /// Iterates over shared references, front to back; every position up to
    /// the length must be held by `X`.
    pub fn iter(&self) -> (r: Indexable<X, Iter<'_, T>>)
        requires
            X::holds(self@.len()),
        ensures
            r.wf(),
            r.values() == self@,
            r.source() == self@,
            r.next_position() == 0,
            r.first() == 0,
    {
        Indexable::new_from_zero(Iter::new(self.inner.as_slice()))
    }

    /// Iterates over mutable references, front to back.
    pub fn iter_mut(&mut self) -> (r: Indexable<X, IterMut<'_, T>>)
        requires
            X::holds(old(self)@.len()),
        ensures
            r.wf(),
            r.values() == old(self)@,
            r.source() == old(self)@,
            r.next_position() == 0,
            r.first() == 0,
    {
        Indexable::new_from_zero(IterMut::new(self.inner.as_mut_slice()))
    }

    /// Takes the values, front to back.
    pub fn into_iter(self) -> (r: Indexable<X, IntoIter<X, T>>)
        requires
            X::holds(self@.len()),
        ensures
            r.wf(),
            r.values() == self@,
            r.source() == self@,
            r.next_position() == 0,
            r.first() == 0,
    {
        Indexable::new_from_zero(IntoIter::new(self))
    }

    /// A borrowed view of all values, starting at index zero.
    pub fn as_slice(&self) -> (r: TypedIndexSlice<'_, X, T>)
        ensures
            r.wf() == X::holds(self@.len()),
            r.values() == self@,
            r.start() == 0,
    {
        TypedIndexSlice::new_from_zero(self.inner.as_slice())
    }

    /// A mutable view of all values, starting at index zero.
    pub fn as_mut_slice(&mut self) -> (r: TypedIndexSliceMut<'_, X, T>)
        ensures
            r.wf() == X::holds(old(self)@.len()),
            r.values() == old(self)@,
            r.start() == 0,
            final(self)@ == final(r.inner)@,
    {
        TypedIndexSliceMut::new_from_zero(self.inner.as_mut_slice())
    }

    /// The value at `index`, which must lie inside the vector.
    pub fn get(&self, index: X) -> (r: &T)
        requires
            index.position() < self@.len(),
        ensures
            *r == self@[index.position() as int],
    {
        &self.inner[index.into_usize()]
    }

    /// Replaces the value at `index`, which must lie inside the vector.
    pub fn set(&mut self, index: X, value: T)
        requires
            index.position() < old(self)@.len(),
        ensures
            final(self)@ == old(self)@.update(index.position() as int, value),
    {
        let i = index.into_usize();
        self.inner.set(i, value);
    }

    pub fn len(&self) -> (r: usize)
        ensures
            r == self@.len(),
    {
        self.inner.len()
    }

    pub fn is_empty(&self) -> (r: bool)
        ensures
            r == (self@.len() == 0),
    {
        self.inner.len() == 0
    }

    /// Makes room for `additional` more values; the values stay.
    pub fn reserve(&mut self, additional: usize)
        requires
            old(self)@.len() + additional <= usize::MAX,
            room_for::<T>(old(self)@.len() + additional as nat),
        ensures
            final(self)@ == old(self)@,
    {
        self.inner.reserve(additional);
    }

    /// How many values the vector can hold without reallocating; never
    /// less than its length.
    pub fn capacity(&self) -> (r: usize)
        ensures
            r >= self@.len(),
    {
        vec_capacity(&self.inner)
    }

    /// Makes room for exactly `additional` more values; the values stay.
    /// The new capacity must fit in `usize` and in `isize::MAX` bytes.
    pub fn reserve_exact(&mut self, additional: usize)
        requires
            old(self)@.len() + additional <= usize::MAX,
            room_for::<T>(old(self)@.len() + additional as nat),
        ensures
            final(self)@ == old(self)@,
    {
        vec_reserve_exact(&mut self.inner, additional);
    }

    /// Tries to make room for `additional` more values; whether or not the
    /// allocation succeeds, the values stay.
    pub fn try_reserve(&mut self, additional: usize) -> (r: Result<(), std::collections::TryReserveError>)
        ensures
            final(self)@ == old(self)@,
    {
        self.inner.try_reserve(additional)
    }

    /// Gives back as much unused room as the allocator allows; the values
    /// stay.
    pub fn shrink_to_fit(&mut self)
        ensures
            final(self)@ == old(self)@,
    {
        vec_shrink_to_fit(&mut self.inner);
    }

    /// Gives back unused room down to `min_capacity`; the values stay.
    pub fn shrink_to(&mut self, min_capacity: usize)
        ensures
            final(self)@ == old(self)@,
    {
        vec_shrink_to(&mut self.inner, min_capacity);
    }
}

impl<X: TypedIndex, T> TypedIndexBoxedSlice<X, T> {
    /// The same values in a vector.
    pub fn into_vec(self) -> (r: TypedIndexVec<X, T>)
        ensures
            r@ == self@,
    {
        TypedIndexCollection { marker: PhantomData, inner: self.inner.into_vec() }
    }

    /// Iterates over shared references, front to back.
    pub fn iter(&self) -> (r: Indexable<X, Iter<'_, T>>)
        requires
            X::holds(self@.len()),
        ensures
            r.wf(),
            r.values() == self@,
            r.source() == self@,
            r.next_position() == 0,
            r.first() == 0,
    {
        Indexable::new_from_zero(Iter::new(&self.inner))
    }

    /// Iterates over mutable references, front to back.
    pub fn iter_mut(&mut self) -> (r: Indexable<X, IterMut<'_, T>>)
        requires
            X::holds(old(self)@.len()),
        ensures
            r.wf(),
            r.values() == old(self)@,
            r.source() == old(self)@,
            r.next_position() == 0,
            r.first() == 0,
    {
        Indexable::new_from_zero(IterMut::new(&mut self.inner))
    }

    /// Takes the values, front to back.
    pub fn into_iter(self) -> (r: Indexable<X, IntoIter<X, T>>)
        requires
            X::holds(self@.len()),
        ensures
            r.wf(),
            r.values() == self@,
            r.source() == self@,
            r.next_position() == 0,
            r.first() == 0,
    {
        self.into_vec().into_iter()
    }

    /// A borrowed view of all values, starting at index zero.
    pub fn as_slice(&self) -> (r: TypedIndexSlice<'_, X, T>)
        ensures
            r.wf() == X::holds(self@.len()),
            r.values() == self@,
            r.start() == 0,
    {
        TypedIndexSlice::new_from_zero(&self.inner)
    }

    /// A mutable view of all values, starting at index zero.
    pub fn as_mut_slice(&mut self) -> (r: TypedIndexSliceMut<'_, X, T>)
        ensures
            r.wf() == X::holds(old(self)@.len()),
            r.values() == old(self)@,
            r.start() == 0,
            final(self)@ == final(r.inner)@,
    {
        TypedIndexSliceMut::new_from_zero(&mut self.inner)
    }

    /// The value at `index`, which must lie inside the slice.
    pub fn get(&self, index: X) -> (r: &T)
        requires
            index.position() < self@.len(),
        ensures
            *r == self@[index.position() as int],
    {
        &self.inner[index.into_usize()]
    }

    pub fn len(&self) -> (r: usize)
        ensures
            r == self@.len(),
    {
        self.inner.len()
    }

    pub fn is_empty(&self) -> (r: bool)
        ensures
            r == (self@.len() == 0),
    {
        self.inner.len() == 0
    }
}

impl<X: TypedIndex, T> IntoIter<X, T> {
    /// Takes over the values of `vec`, front first.
    pub fn new(vec: TypedIndexVec<X, T>) -> (r: Self)
        requires
            X::holds(vec@.len()),
        ensures
            r.values() == vec@,
            r.taken() == 0,
            r.wf(),
    {
        Self::from_vec(vec.into_inner())
    }
}

/// A borrowed run of values whose first value has typed index `start()`.
pub struct TypedIndexSlice<'a, X, T> {
    inner: &'a [T],
    index: X,
}

impl<'a, X: TypedIndex, T> TypedIndexSlice<'a, X, T> {
    pub closed spec fn values(&self) -> Seq<T> {
        self.inner@
    }

    /// The typed position of the first value.
    pub closed spec fn start(&self) -> nat {
        self.index.position()
    }

    /// Every position up to the end of the slice is held by `X`.
    pub open spec fn wf(&self) -> bool {
        X::holds(self.start() + self.values().len())
    }

    pub(crate) fn new_from_zero(inner: &'a [T]) -> (r: Self)
        ensures
            r.wf() == X::holds(inner@.len()),
            r.values() == inner@,
            r.start() == 0,
    {
        proof {
            X::lemma_holds_zero();
        }
        TypedIndexSlice { inner, index: X::from_usize(0) }
    }

    /// Iterates over the values, the first one at index `start()`.
    pub fn iter(self) -> (r: Indexable<X, Iter<'a, T>>)
        requires
            self.wf(),
        ensures
            r.wf(),
            r.values() == self.values(),
            r.source() == self.values(),
            r.next_position() == self.start(),
            r.first() == self.start(),
    {
        Indexable::new(Iter::new(self.inner), self.index)
    }

    /// The value at position `index` of the slice, counted from its own start.
    pub fn get(&self, index: X) -> (r: &'a T)
        requires
            index.position() < self.values().len(),
        ensures
            *r == self.values()[index.position() as int],
    {
        &self.inner[index.into_usize()]
    }
}

/// A mutable run of values whose first value has typed index `start()`.
pub struct TypedIndexSliceMut<'a, X, T> {
    /// The borrowed values; what they hold when the borrow ends is what
    /// the collection they were borrowed from holds then.
    pub inner: &'a mut [T],
    /// The typed index of the first value.
    pub index: X,
}

impl<'a, X: TypedIndex, T> TypedIndexSliceMut<'a, X, T> {
    /// The values the slice holds now.
    pub open spec fn values(&self) -> Seq<T> {
        self.inner@
    }

    /// The typed position of the first value.
    pub open spec fn start(&self) -> nat {
        self.index.position()
    }

    /// Every position up to the end of the slice is held by `X`.
    pub open spec fn wf(&self) -> bool {
        X::holds(self.start() + self.values().len())
    }

    pub(crate) fn new_from_zero(inner: &'a mut [T]) -> (r: Self)
        ensures
            r.wf() == X::holds(old(inner)@.len()),
            r.values() == old(inner)@,
            r.start() == 0,
            final(r.inner)@ == final(inner)@,
    {
        proof {
            X::lemma_holds_zero();
        }
        TypedIndexSliceMut { inner, index: X::from_usize(0) }
    }

    /// Iterates over shared references to the values.
    pub fn iter(self) -> (r: Indexable<X, Iter<'a, T>>)
        requires
            self.wf(),
        ensures
            r.wf(),
            r.values() == self.values(),
            r.source() == self.values(),
            r.next_position() == self.start(),
            r.first() == self.start(),
    {
        let TypedIndexSliceMut { inner, index } = self;
        let shared: &'a [T] = inner;
        Indexable::new(Iter::new(shared), index)
    }

    /// Iterates over mutable references to the values.
    pub fn iter_mut(self) -> (r: Indexable<X, IterMut<'a, T>>)
        requires
            self.wf(),
        ensures
            r.wf(),
            r.values() == self.values(),
            r.source() == self.values(),
            r.next_position() == self.start(),
            r.first() == self.start(),
    {
        let TypedIndexSliceMut { inner, index } = self;
        Indexable::new(IterMut::new(inner), index)
    }

    /// The value at position `index` of the slice, counted from its own start.
    pub fn get(&self, index: X) -> (r: &T)
        requires
            index.position() < self.values().len(),
        ensures
            *r == self.values()[index.position() as int],
    {
        &self.inner[index.into_usize()]
    }

    /// Replaces the value at position `index`, counted from the slice's start.
    pub fn set(&mut self, index: X, value: T)
        requires
            index.position() < old(self).values().len(),
        ensures
            final(self).values() == old(self).values().update(index.position() as int, value),
            final(self).start() == old(self).start(),
            final(final(self).inner)@ == final(old(self).inner)@,
    {
        let i = index.into_usize();
        self.inner[i] = value;
    }
}

} // verus!
