//! The three size-reporting capabilities, and the laws that every
//! implementer is held to.
//!
//! All measures are counts of bits or of bytes. In contracts they are
//! mathematical naturals (`nat`); the executable observers return them as
//! `usize`, which every implementer must show is wide enough.

use vstd::prelude::*;

verus! {

/// A type whose in-memory footprint is fixed and known ahead of time,
/// and will never change.
pub trait ConstantSize {
    /// Size of a value of the implementing type, in bits.
    spec fn spec_size_in_bits() -> nat;

    /// Size of a value of the implementing type, in bytes.
    spec fn spec_size_in_bytes() -> nat;

    /// Every implementer proves that the two measures agree (a byte is
    /// eight bits) and that the bit count fits the machine word, so that
    /// the executable observers below can exist.
    proof fn lemma_size_consistent()
        ensures
            Self::spec_size_in_bits() == Self::spec_size_in_bytes() * 8,
            Self::spec_size_in_bits() <= usize::MAX,
    ;

    /// Size of a value of the implementing type, in bits.
    fn size_in_bits() -> (r: usize)
        ensures
            r == Self::spec_size_in_bits(),
    ;

    /// Size of a value of the implementing type, in bytes.
    fn size_in_bytes() -> (r: usize)
        ensures
            r == Self::spec_size_in_bytes(),
    ;
}

/// A value whose footprint may grow or shrink at run time.
///
/// "Allocated" is the memory currently reserved for the value; "used" is
/// the logically populated portion of that reservation. What exactly
/// counts as used is the implementer's choice, documented on its impl,
/// but it never exceeds what is allocated.
pub trait MaybeMutSize {
    /// The states in which the size observers may be consulted
    /// (an implementer's well-formedness condition).
    spec fn size_wf(&self) -> bool;

    /// Memory currently allocated, in bits.
    spec fn spec_size_allocated_in_bits(&self) -> nat;

    /// Memory currently allocated, in bytes.
    spec fn spec_size_allocated_in_bytes(&self) -> nat;

    /// Of the memory currently allocated, the portion being used, in bits.
    spec fn spec_size_used_in_bits(&self) -> nat;

    /// Of the memory currently allocated, the portion being used, in bytes.
    spec fn spec_size_used_in_bytes(&self) -> nat;

    /// Every implementer proves that bit and byte measures agree, that the
    /// used portion lies within the allocation, and that the largest
    /// measure fits the machine word.
    proof fn lemma_size_consistent(&self)
        requires
            self.size_wf(),
        ensures
            self.spec_size_allocated_in_bits() == self.spec_size_allocated_in_bytes() * 8,
            self.spec_size_used_in_bits() == self.spec_size_used_in_bytes() * 8,
            self.spec_size_used_in_bits() <= self.spec_size_allocated_in_bits(),
            self.spec_size_allocated_in_bits() <= usize::MAX,
    ;

    /// Memory currently allocated, in bits.
    fn size_allocated_in_bits(&self) -> (r: usize)
        requires
            self.size_wf(),
        ensures
            r == self.spec_size_allocated_in_bits(),
    ;

    /// Memory currently allocated, in bytes.
    fn size_allocated_in_bytes(&self) -> (r: usize)
        requires
            self.size_wf(),
        ensures
            r == self.spec_size_allocated_in_bytes(),
    ;

    /// Of the memory currently allocated, the portion being used, in bits.
    fn size_used_in_bits(&self) -> (r: usize)
        requires
            self.size_wf(),
        ensures
            r == self.spec_size_used_in_bits(),
    ;

    /// Of the memory currently allocated, the portion being used, in bytes.
    fn size_used_in_bytes(&self) -> (r: usize)
        requires
            self.size_wf(),
        ensures
            r == self.spec_size_used_in_bytes(),
    ;
}

/// A homogeneous sequence container of fixed-size items, reporting the
/// same four measures as [`MaybeMutSize`] together with the size of a
/// single item.
///
/// Only the bit form of the item size is declared; its byte form, where
/// one is meaningful, is derived arithmetically rather than stated as a
/// second constant.
pub trait MaybeMutSizeCollection {
    /// Size of a single item of the collection, in bits.
    spec fn spec_item_size_in_bits() -> nat;

    /// Number of items the container has currently reserved room for.
    spec fn spec_capacity(&self) -> nat;

    /// The states in which the size observers may be consulted
    /// (an implementer's well-formedness condition).
    spec fn size_wf(&self) -> bool;

    /// Memory currently allocated, in bits.
    spec fn spec_size_allocated_in_bits(&self) -> nat;

    /// Memory currently allocated, in bytes.
    spec fn spec_size_allocated_in_bytes(&self) -> nat;

    /// Of the memory currently allocated, the portion being used, in bits.
    spec fn spec_size_used_in_bits(&self) -> nat;

    /// Of the memory currently allocated, the portion being used, in bytes.
    spec fn spec_size_used_in_bytes(&self) -> nat;

    /// Every implementer proves, besides the laws shared with
    /// [`MaybeMutSize`], that the allocation derives from the reserved
    /// capacity times the per-item size.
    proof fn lemma_size_consistent(&self)
        requires
            self.size_wf(),
        ensures
            self.spec_size_allocated_in_bits() == self.spec_capacity()
                * Self::spec_item_size_in_bits(),
            self.spec_size_allocated_in_bits() == self.spec_size_allocated_in_bytes() * 8,
            self.spec_size_used_in_bits() == self.spec_size_used_in_bytes() * 8,
            self.spec_size_used_in_bits() <= self.spec_size_allocated_in_bits(),
            self.spec_size_allocated_in_bits() <= usize::MAX,
    ;

    /// Size of a single item of the collection, in bits.
    fn item_size_in_bits() -> (r: usize)
        ensures
            r == Self::spec_item_size_in_bits(),
    ;

    /// Memory currently allocated, in bits.
    fn size_allocated_in_bits(&self) -> (r: usize)
        requires
            self.size_wf(),
        ensures
            r == self.spec_size_allocated_in_bits(),
    ;

    /// Memory currently allocated, in bytes.
    fn size_allocated_in_bytes(&self) -> (r: usize)
        requires
            self.size_wf(),
        ensures
            r == self.spec_size_allocated_in_bytes(),
    ;

    /// Of the memory currently allocated, the portion being used, in bits.
    fn size_used_in_bits(&self) -> (r: usize)
        requires
            self.size_wf(),
        ensures
            r == self.spec_size_used_in_bits(),
    ;

    /// Of the memory currently allocated, the portion being used, in bytes.
    fn size_used_in_bytes(&self) -> (r: usize)
        requires
            self.size_wf(),
        ensures
            r == self.spec_size_used_in_bytes(),
    ;
}

/// Law: for any type of fixed size, the bit measure is exactly eight
/// times the byte measure.
pub proof fn lemma_constant_size_bits_are_bytes_times_eight<T: ConstantSize>()
    ensures
        T::spec_size_in_bits() == T::spec_size_in_bytes() * 8,
{
    T::lemma_size_consistent();
}

/// Law: for any well-formed value of mutable size, the bit measures are
/// exactly eight times the byte measures, for the allocated and for the
/// used portion alike.
pub proof fn lemma_mut_size_bits_are_bytes_times_eight<T: MaybeMutSize>(v: &T)
    requires
        v.size_wf(),
    ensures
        v.spec_size_allocated_in_bits() == v.spec_size_allocated_in_bytes() * 8,
        v.spec_size_used_in_bits() == v.spec_size_used_in_bytes() * 8,
{
    v.lemma_size_consistent();
}

/// Law: for any well-formed collection of capacity `C` whose items have
/// fixed bit-size `S`, the allocated bit measure is exactly `C * S`.
pub proof fn lemma_collection_allocation_from_capacity<T: MaybeMutSizeCollection>(c: &T)
    requires
        c.size_wf(),
    ensures
        c.spec_size_allocated_in_bits() == c.spec_capacity() * T::spec_item_size_in_bits(),
{
    c.lemma_size_consistent();
}

/// Law: a well-formed collection with no reserved room at all (capacity
/// zero) reports an allocation of zero bits and zero bytes.
pub proof fn lemma_empty_collection_allocates_nothing<T: MaybeMutSizeCollection>(c: &T)
    requires
        c.size_wf(),
        c.spec_capacity() == 0,
    ensures
        c.spec_size_allocated_in_bits() == 0,
        c.spec_size_allocated_in_bytes() == 0,
{
    c.lemma_size_consistent();
}

/// Law: the size observers are idempotent. Each observer's contract pins
/// its result to a function of the observed value alone, so any two calls
/// on an unmodified value return identical results; the premises below
/// are exactly the observers' postconditions for two such calls.
pub proof fn lemma_mut_size_observers_idempotent<T: MaybeMutSize>(
    v: &T,
    alloc_bits_1: usize,
    alloc_bits_2: usize,
    alloc_bytes_1: usize,
    alloc_bytes_2: usize,
    used_bits_1: usize,
    used_bits_2: usize,
    used_bytes_1: usize,
    used_bytes_2: usize,
)
    requires
        alloc_bits_1 == v.spec_size_allocated_in_bits(),
        alloc_bits_2 == v.spec_size_allocated_in_bits(),
        alloc_bytes_1 == v.spec_size_allocated_in_bytes(),
        alloc_bytes_2 == v.spec_size_allocated_in_bytes(),
        used_bits_1 == v.spec_size_used_in_bits(),
        used_bits_2 == v.spec_size_used_in_bits(),
        used_bytes_1 == v.spec_size_used_in_bytes(),
        used_bytes_2 == v.spec_size_used_in_bytes(),
    ensures
        alloc_bits_1 == alloc_bits_2,
        alloc_bytes_1 == alloc_bytes_2,
        used_bits_1 == used_bits_2,
        used_bytes_1 == used_bytes_2,
{
}

/// Law: the collection observers are idempotent, for the same reason as
/// those of [`MaybeMutSize`].
pub proof fn lemma_collection_observers_idempotent<T: MaybeMutSizeCollection>(
    c: &T,
    alloc_bits_1: usize,
    alloc_bits_2: usize,
    alloc_bytes_1: usize,
    alloc_bytes_2: usize,
    used_bits_1: usize,
    used_bits_2: usize,
    used_bytes_1: usize,
    used_bytes_2: usize,
)
    requires
        alloc_bits_1 == c.spec_size_allocated_in_bits(),
        alloc_bits_2 == c.spec_size_allocated_in_bits(),
        alloc_bytes_1 == c.spec_size_allocated_in_bytes(),
        alloc_bytes_2 == c.spec_size_allocated_in_bytes(),
        used_bits_1 == c.spec_size_used_in_bits(),
        used_bits_2 == c.spec_size_used_in_bits(),
        used_bytes_1 == c.spec_size_used_in_bytes(),
        used_bytes_2 == c.spec_size_used_in_bytes(),
    ensures
        alloc_bits_1 == alloc_bits_2,
        alloc_bytes_1 == alloc_bytes_2,
        used_bits_1 == used_bits_2,
        used_bytes_1 == used_bytes_2,
{
}

} // verus!
