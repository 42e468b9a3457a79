//! A sequence container with an explicit reservation, generic over any
//! fixed-size item type.
//!
//! The container tracks its reserved capacity as part of its own state,
//! so that the size observers are functions of the value they observe,
//! and derives every measure from that capacity, the number of items
//! held, and the item type's fixed size.

use crate::size::ConstantSize;
use crate::size::MaybeMutSize;
use crate::size::MaybeMutSizeCollection;
use vstd::prelude::*;

verus! {

/// A growable sequence of items of fixed size, with an explicitly
/// reserved capacity that its items never exceed.
pub struct SequenceContainer<T> {
    items: Vec<T>,
    cap: usize,
}

impl<T> View for SequenceContainer<T> {
    type V = Seq<T>;

    closed spec fn view(&self) -> Seq<T> {
        self.items@
    }
}

impl<T: ConstantSize> SequenceContainer<T> {
    /// The items fit the reservation, and the whole reservation, measured
    /// in bits, fits the machine word.
    pub open spec fn wf(&self) -> bool {
        &&& self@.len() <= self.spec_capacity()
        &&& self.spec_capacity() * T::spec_size_in_bits() <= usize::MAX
    }

    /// An empty container with no reserved room.
    pub fn new() -> (c: Self)
        ensures
            c.wf(),
            c@ == Seq::<T>::empty(),
            c.spec_capacity() == 0,
    {
        SequenceContainer { items: Vec::new(), cap: 0 }
    }

    /// An empty container with room reserved for `capacity` items. The
    /// reservation must be measurable: `capacity` times the item's bit
    /// size has to fit the machine word.
    pub fn with_capacity(capacity: usize) -> (c: Self)
        requires
            capacity * T::spec_size_in_bits() <= usize::MAX,
        ensures
            c.wf(),
            c@ == Seq::<T>::empty(),
            c.spec_capacity() == capacity,
    {
        SequenceContainer { items: Vec::with_capacity(capacity), cap: capacity }
    }

    /// Appends one item, within the reservation.
    pub fn push(&mut self, value: T)
        requires
            old(self).wf(),
            old(self)@.len() < old(self).spec_capacity(),
        ensures
            final(self).wf(),
            final(self)@ == old(self)@.push(value),
            final(self).spec_capacity() == old(self).spec_capacity(),
    {
        self.items.push(value);
    }

    /// Removes and returns the last item, or `None` from an empty
    /// container. The reservation is kept.
    pub fn pop(&mut self) -> (r: Option<T>)
        requires
            old(self).wf(),
        ensures
            final(self).wf(),
            final(self).spec_capacity() == old(self).spec_capacity(),
            old(self)@.len() > 0 ==> r == Some(old(self)@.last()) && final(self)@ == old(
                self,
            )@.drop_last(),
            old(self)@.len() == 0 ==> r is None && final(self)@ == old(self)@,
    {
        self.items.pop()
    }

    /// The number of items held.
    pub fn len(&self) -> (r: usize)
        ensures
            r == self@.len(),
    {
        self.items.len()
    }

    /// The number of items the container has reserved room for.
    pub fn capacity(&self) -> (r: usize)
        ensures
            r == self.spec_capacity(),
    {
        self.cap
    }

    /// The item held at position `i`.
    pub fn get(&self, i: usize) -> (r: &T)
        requires
            i < self@.len(),
        ensures
            *r == self@[i as int],
    {
        &self.items[i]
    }
}

impl<T: ConstantSize> MaybeMutSizeCollection for SequenceContainer<T> {
    open spec fn spec_item_size_in_bits() -> nat {
        T::spec_size_in_bits()
    }

    closed spec fn spec_capacity(&self) -> nat {
        self.cap as nat
    }

    open spec fn size_wf(&self) -> bool {
        self.wf()
    }

    open spec fn spec_size_allocated_in_bits(&self) -> nat {
        self.spec_capacity() * T::spec_size_in_bits()
    }

    open spec fn spec_size_allocated_in_bytes(&self) -> nat {
        self.spec_capacity() * T::spec_size_in_bytes()
    }

    open spec fn spec_size_used_in_bits(&self) -> nat {
        self@.len() * T::spec_size_in_bits()
    }

    open spec fn spec_size_used_in_bytes(&self) -> nat {
        self@.len() * T::spec_size_in_bytes()
    }

    proof fn lemma_size_consistent(&self) {
        T::lemma_size_consistent();
        let bits = T::spec_size_in_bits();
        let bytes = T::spec_size_in_bytes();
        let cap = self.spec_capacity();
        let len = self@.len();
        assert(cap * bits == (cap * bytes) * 8) by (nonlinear_arith)
            requires
                bits == bytes * 8,
        ;
        assert(len * bits == (len * bytes) * 8) by (nonlinear_arith)
            requires
                bits == bytes * 8,
        ;
        assert(len * bits <= cap * bits) by (nonlinear_arith)
            requires
                len <= cap,
        ;
    }

    fn item_size_in_bits() -> usize {
        T::size_in_bits()
    }

    fn size_allocated_in_bits(&self) -> usize {
        self.cap * T::size_in_bits()
    }

    fn size_allocated_in_bytes(&self) -> usize {
        proof {
            T::lemma_size_consistent();
            let bits = T::spec_size_in_bits();
            let bytes = T::spec_size_in_bytes();
            let cap = self.cap as nat;
            assert(cap * bytes <= cap * bits) by (nonlinear_arith)
                requires
                    bytes <= bits,
            ;
        }
        self.cap * T::size_in_bytes()
    }

    fn size_used_in_bits(&self) -> usize {
        proof {
            let bits = T::spec_size_in_bits();
            let cap = self.cap as nat;
            let len = self@.len();
            assert(len * bits <= cap * bits) by (nonlinear_arith)
                requires
                    len <= cap,
            ;
        }
        self.items.len() * T::size_in_bits()
    }

    fn size_used_in_bytes(&self) -> usize {
        proof {
            T::lemma_size_consistent();
            let bits = T::spec_size_in_bits();
            let bytes = T::spec_size_in_bytes();
            let cap = self.cap as nat;
            let len = self@.len();
            assert(len * bytes <= cap * bits) by (nonlinear_arith)
                requires
                    len <= cap,
                    bytes <= bits,
            ;
        }
        self.items.len() * T::size_in_bytes()
    }
}

/// The container reports the same measures seen as a single value of
/// mutable size as it does seen as a collection: "used" is the portion
/// its items occupy, "allocated" the whole reservation.
impl<T: ConstantSize> MaybeMutSize for SequenceContainer<T> {
    open spec fn size_wf(&self) -> bool {
        self.wf()
    }

    open spec fn spec_size_allocated_in_bits(&self) -> nat {
        <Self as MaybeMutSizeCollection>::spec_size_allocated_in_bits(self)
    }

    open spec fn spec_size_allocated_in_bytes(&self) -> nat {
        <Self as MaybeMutSizeCollection>::spec_size_allocated_in_bytes(self)
    }

    open spec fn spec_size_used_in_bits(&self) -> nat {
        <Self as MaybeMutSizeCollection>::spec_size_used_in_bits(self)
    }

    open spec fn spec_size_used_in_bytes(&self) -> nat {
        <Self as MaybeMutSizeCollection>::spec_size_used_in_bytes(self)
    }

    proof fn lemma_size_consistent(&self) {
        <Self as MaybeMutSizeCollection>::lemma_size_consistent(self);
    }

    fn size_allocated_in_bits(&self) -> usize {
        <Self as MaybeMutSizeCollection>::size_allocated_in_bits(self)
    }

    fn size_allocated_in_bytes(&self) -> usize {
        <Self as MaybeMutSizeCollection>::size_allocated_in_bytes(self)
    }

    fn size_used_in_bits(&self) -> usize {
        <Self as MaybeMutSizeCollection>::size_used_in_bits(self)
    }

    fn size_used_in_bytes(&self) -> usize {
        <Self as MaybeMutSizeCollection>::size_used_in_bytes(self)
    }
}

} // verus!
