//! Compact index types: an unsigned integer that never holds its type's
//! maximum, so that the maximum stays free as a niche.

use vstd::prelude::*;

verus! {

/// An index stored in a `u16`; `u16::MAX` is never a valid index.
#[derive(Debug, Eq, PartialEq, Ord, PartialOrd, Copy, Clone, Hash)]
pub struct IndexU16 {
    value: u16,
}

impl IndexU16 {
    #[verifier::type_invariant]
    spec fn not_max(self) -> bool {
        self.value < u16::MAX
    }

    /// The index as a number.
    pub closed spec fn spec_get(self) -> nat {
        self.value as nat
    }

    /// Two indices with the same number are the same index.
    pub proof fn lemma_spec_get_injective(self, other: Self)
        requires
            self.spec_get() == other.spec_get(),
        ensures
            self == other,
    {
    }

    /// Whether `n` can be held by this index type.
    pub open spec fn holds(n: nat) -> bool {
        n < u16::MAX
    }

    /// Makes an index; `value` must not be `u16::MAX` ("index too large").
    pub fn new(value: u16) -> (r: Self)
        requires
            Self::holds(value as nat),
        ensures
            r.spec_get() == value,
    {
        IndexU16 { value }
    }

    pub fn get(self) -> (r: u16)
        ensures
            r == self.spec_get(),
            Self::holds(r as nat),
    {
        proof {
            use_type_invariant(self);
        }
        self.value
    }

    /// Makes an index from a `usize`, which must be held by the type.
    pub fn from_usize(value: usize) -> (r: Self)
        requires
            Self::holds(value as nat),
        ensures
            r.spec_get() == value,
    {
        IndexU16 { value: value as u16 }
    }

    pub fn into_usize(self) -> (r: usize)
        ensures
            r == self.spec_get(),
    {
        proof {
            use_type_invariant(self);
        }
        self.value as usize
    }

    /// The index `self + rhs`; the sum must be held by the type.
    pub fn add(self, rhs: Self) -> (r: Self)
        requires
            Self::holds(self.spec_get() + rhs.spec_get()),
        ensures
            r.spec_get() == self.spec_get() + rhs.spec_get(),
    {
        IndexU16 { value: self.value + rhs.value }
    }

    /// The index `self - rhs`; `rhs` must not exceed `self`.
    pub fn sub(self, rhs: Self) -> (r: Self)
        requires
            rhs.spec_get() <= self.spec_get(),
        ensures
            r.spec_get() == self.spec_get() - rhs.spec_get(),
    {
        proof {
            use_type_invariant(self);
        }
        IndexU16 { value: self.value - rhs.value }
    }
}

/// An index stored in a `u32`; `u32::MAX` is never a valid index.
#[derive(Debug, Eq, PartialEq, Ord, PartialOrd, Copy, Clone, Hash)]
pub struct IndexU32 {
    value: u32,
}

impl IndexU32 {
    #[verifier::type_invariant]
    spec fn not_max(self) -> bool {
        self.value < u32::MAX
    }

    /// The index as a number.
    pub closed spec fn spec_get(self) -> nat {
        self.value as nat
    }

    /// Two indices with the same number are the same index.
    pub proof fn lemma_spec_get_injective(self, other: Self)
        requires
            self.spec_get() == other.spec_get(),
        ensures
            self == other,
    {
    }

    /// Whether `n` can be held by this index type.
    pub open spec fn holds(n: nat) -> bool {
        n < u32::MAX
    }

    /// Makes an index; `value` must not be `u32::MAX` ("index too large").
    pub fn new(value: u32) -> (r: Self)
        requires
            Self::holds(value as nat),
        ensures
            r.spec_get() == value,
    {
        IndexU32 { value }
    }

    pub fn get(self) -> (r: u32)
        ensures
            r == self.spec_get(),
            Self::holds(r as nat),
    {
        proof {
            use_type_invariant(self);
        }
        self.value
    }

    /// Makes an index from a `usize`, which must be held by the type.
    pub fn from_usize(value: usize) -> (r: Self)
        requires
            Self::holds(value as nat),
        ensures
            r.spec_get() == value,
    {
        IndexU32 { value: value as u32 }
    }

    pub fn into_usize(self) -> (r: usize)
        ensures
            r == self.spec_get(),
    {
        proof {
            use_type_invariant(self);
        }
        self.value as usize
    }

    /// The index `self + rhs`; the sum must be held by the type.
    pub fn add(self, rhs: Self) -> (r: Self)
        requires
            Self::holds(self.spec_get() + rhs.spec_get()),
        ensures
            r.spec_get() == self.spec_get() + rhs.spec_get(),
    {
        IndexU32 { value: self.value + rhs.value }
    }

    /// The index `self - rhs`; `rhs` must not exceed `self`.
    pub fn sub(self, rhs: Self) -> (r: Self)
        requires
            rhs.spec_get() <= self.spec_get(),
        ensures
            r.spec_get() == self.spec_get() - rhs.spec_get(),
    {
        proof {
            use_type_invariant(self);
        }
        IndexU32 { value: self.value - rhs.value }
    }
}

/// An index stored in a `u8`; `u8::MAX` is never a valid index.
#[derive(Debug, Eq, PartialEq, Ord, PartialOrd, Copy, Clone, Hash)]
pub struct IndexU8 {
    value: u8,
}

impl IndexU8 {
    #[verifier::type_invariant]
    spec fn not_max(self) -> bool {
        self.value < u8::MAX
    }

    /// The index as a number.
    pub closed spec fn spec_get(self) -> nat {
        self.value as nat
    }

    /// Two indices with the same number are the same index.
    pub proof fn lemma_spec_get_injective(self, other: Self)
        requires
            self.spec_get() == other.spec_get(),
        ensures
            self == other,
    {
    }

    /// Whether `n` can be held by this index type.
    pub open spec fn holds(n: nat) -> bool {
        n < u8::MAX
    }

    /// Makes an index; `value` must not be `u8::MAX` ("index too large").
    pub fn new(value: u8) -> (r: Self)
        requires
            Self::holds(value as nat),
        ensures
            r.spec_get() == value,
    {
        IndexU8 { value }
    }

    pub fn get(self) -> (r: u8)
        ensures
            r == self.spec_get(),
            Self::holds(r as nat),
    {
        proof {
            use_type_invariant(self);
        }
        self.value
    }

    /// Makes an index from a `usize`, which must be held by the type.
    pub fn from_usize(value: usize) -> (r: Self)
        requires
            Self::holds(value as nat),
        ensures
            r.spec_get() == value,
    {
        IndexU8 { value: value as u8 }
    }

    pub fn into_usize(self) -> (r: usize)
        ensures
            r == self.spec_get(),
    {
        proof {
            use_type_invariant(self);
        }
        self.value as usize
    }

    /// The index `self + rhs`; the sum must be held by the type.
    pub fn add(self, rhs: Self) -> (r: Self)
        requires
            Self::holds(self.spec_get() + rhs.spec_get()),
        ensures
            r.spec_get() == self.spec_get() + rhs.spec_get(),
    {
        IndexU8 { value: self.value + rhs.value }
    }

    /// The index `self - rhs`; `rhs` must not exceed `self`.
    pub fn sub(self, rhs: Self) -> (r: Self)
        requires
            rhs.spec_get() <= self.spec_get(),
        ensures
            r.spec_get() == self.spec_get() - rhs.spec_get(),
    {
        proof {
            use_type_invariant(self);
        }
        IndexU8 { value: self.value - rhs.value }
    }
}

/// An index stored in a `u64`; `u64::MAX` is never a valid index.
#[derive(Debug, Eq, PartialEq, Ord, PartialOrd, Copy, Clone, Hash)]
pub struct IndexU64 {
    value: u64,
}

impl IndexU64 {
    #[verifier::type_invariant]
    spec fn not_max(self) -> bool {
        self.value < u64::MAX
    }

    /// The index as a number.
    pub closed spec fn spec_get(self) -> nat {
        self.value as nat
    }

    /// Two indices with the same number are the same index.
    pub proof fn lemma_spec_get_injective(self, other: Self)
        requires
            self.spec_get() == other.spec_get(),
        ensures
            self == other,
    {
    }

    /// Whether `n` can be held by this index type.
    pub open spec fn holds(n: nat) -> bool {
        n < u64::MAX
    }

    /// Makes an index; `value` must not be `u64::MAX` ("index too large").
    pub fn new(value: u64) -> (r: Self)
        requires
            Self::holds(value as nat),
        ensures
            r.spec_get() == value,
    {
        IndexU64 { value }
    }

    pub fn get(self) -> (r: u64)
        ensures
            r == self.spec_get(),
            Self::holds(r as nat),
    {
        proof {
            use_type_invariant(self);
        }
        self.value
    }

    /// Makes an index from a `usize`, which must be held by the type.
    pub fn from_usize(value: usize) -> (r: Self)
        requires
            Self::holds(value as nat),
        ensures
            r.spec_get() == value,
    {
        IndexU64 { value: value as u64 }
    }

    /// The index as a `usize`; it must fit ("index too large").
    pub fn into_usize(self) -> (r: usize)
        requires
            self.spec_get() <= usize::MAX,
        ensures
            r == self.spec_get(),
    {
        proof {
            use_type_invariant(self);
        }
        self.value as usize
    }

    /// The index `self + rhs`; the sum must be held by the type.
    pub fn add(self, rhs: Self) -> (r: Self)
        requires
            Self::holds(self.spec_get() + rhs.spec_get()),
        ensures
            r.spec_get() == self.spec_get() + rhs.spec_get(),
    {
        IndexU64 { value: self.value + rhs.value }
    }

    /// The index `self - rhs`; `rhs` must not exceed `self`.
    pub fn sub(self, rhs: Self) -> (r: Self)
        requires
            rhs.spec_get() <= self.spec_get(),
        ensures
            r.spec_get() == self.spec_get() - rhs.spec_get(),
    {
        proof {
            use_type_invariant(self);
        }
        IndexU64 { value: self.value - rhs.value }
    }
}

/// An index stored in a `usize`; `usize::MAX` is never a valid index.
#[derive(Debug, Eq, PartialEq, Ord, PartialOrd, Copy, Clone, Hash)]
pub struct IndexUsize {
    value: usize,
}

impl IndexUsize {
    #[verifier::type_invariant]
    spec fn not_max(self) -> bool {
        self.value < usize::MAX
    }

    /// The index as a number.
    pub closed spec fn spec_get(self) -> nat {
        self.value as nat
    }

    /// Two indices with the same number are the same index.
    pub proof fn lemma_spec_get_injective(self, other: Self)
        requires
            self.spec_get() == other.spec_get(),
        ensures
            self == other,
    {
    }

    /// Whether `n` can be held by this index type.
    pub open spec fn holds(n: nat) -> bool {
        n < usize::MAX
    }

    /// Makes an index; `value` must not be `usize::MAX` ("index too large").
    pub fn new(value: usize) -> (r: Self)
        requires
            Self::holds(value as nat),
        ensures
            r.spec_get() == value,
    {
        IndexUsize { value }
    }

    pub fn get(self) -> (r: usize)
        ensures
            r == self.spec_get(),
            Self::holds(r as nat),
    {
        proof {
            use_type_invariant(self);
        }
        self.value
    }

    /// Makes an index from a `usize`, which must be held by the type.
    pub fn from_usize(value: usize) -> (r: Self)
        requires
            Self::holds(value as nat),
        ensures
            r.spec_get() == value,
    {
        IndexUsize { value: value as usize }
    }

    pub fn into_usize(self) -> (r: usize)
        ensures
            r == self.spec_get(),
    {
        proof {
            use_type_invariant(self);
        }
        self.value as usize
    }

    /// The index `self + rhs`; the sum must be held by the type.
    pub fn add(self, rhs: Self) -> (r: Self)
        requires
            Self::holds(self.spec_get() + rhs.spec_get()),
        ensures
            r.spec_get() == self.spec_get() + rhs.spec_get(),
    {
        IndexUsize { value: self.value + rhs.value }
    }

    /// The index `self - rhs`; `rhs` must not exceed `self`.
    pub fn sub(self, rhs: Self) -> (r: Self)
        requires
            rhs.spec_get() <= self.spec_get(),
        ensures
            r.spec_get() == self.spec_get() - rhs.spec_get(),
    {
        proof {
            use_type_invariant(self);
        }
        IndexUsize { value: self.value - rhs.value }
    }
}

} // verus!
