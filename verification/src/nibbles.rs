//! A container of 4-bit items, packed two to a byte.
//!
//! Item sizes smaller than a byte cannot come from a fixed-size element
//! type, whose bit measure is always eight times its byte measure; this
//! container therefore implements the collection capability directly.
//! Its "used" measure is the populated extent rounded up to whole storage
//! bytes: the byte holding the latest nibble counts as used in full.

use crate::size::MaybeMutSizeCollection;
use vstd::prelude::*;

verus! {

/// The value of one of the two nibbles packed in a byte: the low four
/// bits, or the high four.
pub open spec fn nibble_in_byte(b: u8, high: bool) -> u8 {
    if high {
        b >> 4
    } else {
        b & 0x0f
    }
}

/// A sequence of 4-bit values, packed two to a byte, low nibble first.
pub struct NibbleContainer {
    bytes: Vec<u8>,
    used: usize,
}

impl View for NibbleContainer {
    type V = Seq<u8>;

    /// The populated nibbles, in order; each is below 16.
    closed spec fn view(&self) -> Seq<u8> {
        Seq::new(self.used as nat, |i: int| nibble_in_byte(self.bytes@[i / 2], i % 2 == 1))
    }
}

impl NibbleContainer {
    /// The populated nibbles fit the reservation, and the whole
    /// reservation, measured in bits, fits the machine word.
    pub open spec fn wf(&self) -> bool {
        &&& self@.len() <= self.spec_capacity()
        &&& self.spec_capacity() * 4 <= usize::MAX
    }

    /// An empty container with room for at least `capacity` nibbles.
    /// Whole bytes are reserved, so an odd request is rounded up.
    pub fn with_capacity(capacity: usize) -> (c: Self)
        requires
            4 * capacity + 4 <= usize::MAX,
        ensures
            c.wf(),
            c@ == Seq::<u8>::empty(),
            c.spec_capacity() == capacity + (capacity % 2),
    {
        let nbytes: usize = capacity / 2 + capacity % 2;
        let mut bytes: Vec<u8> = Vec::with_capacity(nbytes);
        let mut i: usize = 0;
        while i < nbytes
            invariant
                bytes@.len() == i,
                i <= nbytes,
            decreases nbytes - i,
        {
            bytes.push(0);
            i = i + 1;
        }
        let c = NibbleContainer { bytes, used: 0 };
        proof {
            assert(c@ =~= Seq::<u8>::empty());
        }
        c
    }

    /// Appends one nibble, within the reservation.
    pub fn push(&mut self, value: u8)
        requires
            old(self).wf(),
            value < 16,
            old(self)@.len() < old(self).spec_capacity(),
        ensures
            final(self).wf(),
            final(self)@ == old(self)@.push(value),
            final(self).spec_capacity() == old(self).spec_capacity(),
    {
        let i: usize = self.used;
        let b: u8 = self.bytes[i / 2];
        let nb: u8 = if i % 2 == 0 {
            (b & 0xf0) | value
        } else {
            (b & 0x0f) | (value << 4)
        };
        self.bytes[i / 2] = nb;
        self.used = i + 1;
        proof {
            let v: u8 = value;
            assert(((b & 0xf0) | v) & 0x0f == v && ((b & 0xf0) | v) >> 4 == b >> 4)
                by (bit_vector)
                requires
                    v < 16,
            ;
            assert(((b & 0x0f) | (v << 4)) & 0x0f == b & 0x0f && ((b & 0x0f) | (v << 4)) >> 4 == v)
                by (bit_vector)
                requires
                    v < 16,
            ;
            assert forall|j: int| 0 <= j < i implies final(self)@[j] == old(self)@[j] by {
                if j / 2 == i as int / 2 {
                    assert(i % 2 == 1 && j == i - 1);
                }
            }
            assert(final(self)@ =~= old(self)@.push(value));
        }
    }

    /// Removes and returns the latest nibble, or `None` from an empty
    /// container. The reservation is kept.
    pub fn pop(&mut self) -> (r: Option<u8>)
        requires
            old(self).wf(),
        ensures
            final(self).wf(),
            final(self).spec_capacity() == old(self).spec_capacity(),
            old(self)@.len() > 0 ==> r == Some(old(self)@.last()) && final(self)@ == old(
                self,
            )@.drop_last(),
            old(self)@.len() == 0 ==> r is None && final(self)@ == old(self)@,
    {
        if self.used == 0 {
            None
        } else {
            let last: u8 = self.get(self.used - 1);
            self.used = self.used - 1;
            proof {
                assert(final(self)@ =~= old(self)@.drop_last());
            }
            Some(last)
        }
    }

    /// The nibble held at position `i`.
    pub fn get(&self, i: usize) -> (r: u8)
        requires
            self.wf(),
            i < self@.len(),
        ensures
            r == self@[i as int],
    {
        let b: u8 = self.bytes[i / 2];
        if i % 2 == 0 {
            b & 0x0f
        } else {
            b >> 4
        }
    }

    /// The number of nibbles populated.
    pub fn len(&self) -> (r: usize)
        ensures
            r == self@.len(),
    {
        self.used
    }

    /// The number of nibbles the container has reserved room for.
    pub fn capacity(&self) -> (r: usize)
        requires
            self.wf(),
        ensures
            r == self.spec_capacity(),
    {
        self.bytes.len() * 2
    }
}

impl MaybeMutSizeCollection for NibbleContainer {
    open spec fn spec_item_size_in_bits() -> nat {
        4
    }

    closed spec fn spec_capacity(&self) -> nat {
        self.bytes@.len() * 2
    }

    open spec fn size_wf(&self) -> bool {
        self.wf()
    }

    open spec fn spec_size_allocated_in_bits(&self) -> nat {
        self.spec_capacity() * 4
    }

    open spec fn spec_size_allocated_in_bytes(&self) -> nat {
        self.spec_capacity() / 2
    }

    open spec fn spec_size_used_in_bits(&self) -> nat {
        ((self@.len() + 1) / 2) * 8
    }

    open spec fn spec_size_used_in_bytes(&self) -> nat {
        (self@.len() + 1) / 2
    }

    proof fn lemma_size_consistent(&self) {
        let nbytes = self.bytes@.len();
        let used = self@.len();
        assert(self.spec_capacity() == nbytes * 2);
        assert(used <= nbytes * 2);
        assert((used + 1) / 2 <= nbytes);
    }

    fn item_size_in_bits() -> usize {
        4
    }

    fn size_allocated_in_bits(&self) -> usize {
        self.bytes.len() * 8
    }

    fn size_allocated_in_bytes(&self) -> usize {
        self.bytes.len()
    }

    fn size_used_in_bits(&self) -> usize {
        ((self.used + 1) / 2) * 8
    }

    fn size_used_in_bytes(&self) -> usize {
        (self.used + 1) / 2
    }
}

} // verus!
