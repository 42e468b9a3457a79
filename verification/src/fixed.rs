//! Fixed-size measures for the primitive unsigned integer types of
//! explicit width.

use crate::size::ConstantSize;
use vstd::prelude::*;

verus! {

impl ConstantSize for u8 {
    open spec fn spec_size_in_bits() -> nat {
        8
    }

    open spec fn spec_size_in_bytes() -> nat {
        1
    }

    proof fn lemma_size_consistent() {
    }

    fn size_in_bits() -> usize {
        8
    }

    fn size_in_bytes() -> usize {
        1
    }
}

impl ConstantSize for u16 {
    open spec fn spec_size_in_bits() -> nat {
        16
    }

    open spec fn spec_size_in_bytes() -> nat {
        2
    }

    proof fn lemma_size_consistent() {
    }

    fn size_in_bits() -> usize {
        16
    }

    fn size_in_bytes() -> usize {
        2
    }
}

impl ConstantSize for u32 {
    open spec fn spec_size_in_bits() -> nat {
        32
    }

    open spec fn spec_size_in_bytes() -> nat {
        4
    }

    proof fn lemma_size_consistent() {
    }

    fn size_in_bits() -> usize {
        32
    }

    fn size_in_bytes() -> usize {
        4
    }
}

impl ConstantSize for u64 {
    open spec fn spec_size_in_bits() -> nat {
        64
    }

    open spec fn spec_size_in_bytes() -> nat {
        8
    }

    proof fn lemma_size_consistent() {
    }

    fn size_in_bits() -> usize {
        64
    }

    fn size_in_bytes() -> usize {
        8
    }
}

} // verus!
