//! The `TypedIndex` trait: a position in a collection that carries its own
//! type, so that an index of one table cannot be used in another.

use crate::index_types::{IndexU16, IndexU32, IndexU8, IndexUsize};
use vstd::prelude::*;

verus! {

/// An untyped distance between two positions, for moving a typed index
/// forward without converting it to a number by hand.
#[derive(Debug, Clone, Copy)]
pub struct UntypedOffset(pub usize);

/// A position in a collection. An implementation decides which positions
/// it can hold (`holds`); every position below a held one is held too.
pub trait TypedIndex: Copy + Sized {
    /// The position this index stands for.
    spec fn position(self) -> nat;

    /// Whether this index type can stand for position `n`.
    spec fn holds(n: nat) -> bool;

    /// Positions that can be held are closed downwards.
    proof fn lemma_holds_below(n: nat, m: nat)
        requires
            Self::holds(n),
            m <= n,
        ensures
            Self::holds(m),
    ;

    /// Every position that can be held fits in a `usize`.
    proof fn lemma_holds_fits(n: nat)
        requires
            Self::holds(n),
        ensures
            n <= usize::MAX,
    ;

    /// The first position can always be held.
    proof fn lemma_holds_zero()
        ensures
            Self::holds(0),
    ;

    /// An index is told by its position: two indices at the same position
    /// are the same index.
    proof fn lemma_position_injective(a: Self, b: Self)
        requires
            a.position() == b.position(),
        ensures
            a == b,
    ;

    /// The index for position `value`.
    fn from_usize(value: usize) -> (r: Self)
        requires
            Self::holds(value as nat),
        ensures
            r.position() == value,
    ;

    /// The position of this index as a `usize`.
    fn into_usize(self) -> (r: usize)
        ensures
            r == self.position(),
            Self::holds(r as nat),
    ;

    /// Whether `value` can be held, decided at run time.
    fn holds_usize(value: usize) -> (r: bool)
        ensures
            r == Self::holds(value as nat),
    ;

    /// The index `offset` positions further; the result must be held.
    fn add_offset(self, offset: UntypedOffset) -> (r: Self)
        requires
            Self::holds(self.position() + offset.0 as nat),
        ensures
            r.position() == self.position() + offset.0,
    {
        proof {
            Self::lemma_holds_fits(self.position() + offset.0 as nat);
        }
        let here = self.into_usize();
        Self::from_usize(here + offset.0)
    }
}

impl TypedIndex for IndexU8 {
    open spec fn position(self) -> nat {
        self.spec_get()
    }

    open spec fn holds(n: nat) -> bool {
        IndexU8::holds(n)
    }

    proof fn lemma_holds_below(n: nat, m: nat) {
    }

    proof fn lemma_holds_fits(n: nat) {
    }

    proof fn lemma_holds_zero() {
    }

    proof fn lemma_position_injective(a: Self, b: Self) {
        a.lemma_spec_get_injective(b);
    }

    fn from_usize(value: usize) -> (r: Self) {
        IndexU8::from_usize(value)
    }

    fn into_usize(self) -> (r: usize) {
        let _ = self.get();
        IndexU8::into_usize(self)
    }

    fn holds_usize(value: usize) -> (r: bool) {
        value < 0xffusize
    }
}

impl TypedIndex for IndexU16 {
    open spec fn position(self) -> nat {
        self.spec_get()
    }

    open spec fn holds(n: nat) -> bool {
        IndexU16::holds(n)
    }

    proof fn lemma_holds_below(n: nat, m: nat) {
    }

    proof fn lemma_holds_fits(n: nat) {
    }

    proof fn lemma_holds_zero() {
    }

    proof fn lemma_position_injective(a: Self, b: Self) {
        a.lemma_spec_get_injective(b);
    }

    fn from_usize(value: usize) -> (r: Self) {
        IndexU16::from_usize(value)
    }

    fn into_usize(self) -> (r: usize) {
        let _ = self.get();
        IndexU16::into_usize(self)
    }

    fn holds_usize(value: usize) -> (r: bool) {
        value < 0xffffusize
    }
}

impl TypedIndex for IndexU32 {
    open spec fn position(self) -> nat {
        self.spec_get()
    }

    open spec fn holds(n: nat) -> bool {
        IndexU32::holds(n)
    }

    proof fn lemma_holds_below(n: nat, m: nat) {
    }

    proof fn lemma_holds_fits(n: nat) {
    }

    proof fn lemma_holds_zero() {
    }

    proof fn lemma_position_injective(a: Self, b: Self) {
        a.lemma_spec_get_injective(b);
    }

    fn from_usize(value: usize) -> (r: Self) {
        IndexU32::from_usize(value)
    }

    fn into_usize(self) -> (r: usize) {
        let _ = self.get();
        IndexU32::into_usize(self)
    }

    fn holds_usize(value: usize) -> (r: bool) {
        (value as u64) < 0xffff_ffffu64
    }
}

impl TypedIndex for IndexUsize {
    open spec fn position(self) -> nat {
        self.spec_get()
    }

    open spec fn holds(n: nat) -> bool {
        IndexUsize::holds(n)
    }

    proof fn lemma_holds_below(n: nat, m: nat) {
    }

    proof fn lemma_holds_fits(n: nat) {
    }

    proof fn lemma_holds_zero() {
    }

    proof fn lemma_position_injective(a: Self, b: Self) {
        a.lemma_spec_get_injective(b);
    }

    fn from_usize(value: usize) -> (r: Self) {
        IndexUsize::from_usize(value)
    }

    fn into_usize(self) -> (r: usize) {
        let _ = self.get();
        IndexUsize::into_usize(self)
    }

    fn holds_usize(value: usize) -> (r: bool) {
        value < usize::MAX
    }
}

} // verus!
