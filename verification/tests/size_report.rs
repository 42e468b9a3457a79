use size_report::container::SequenceContainer;
use size_report::nibbles::NibbleContainer;
use size_report::size::ConstantSize;
use size_report::size::MaybeMutSize;
use size_report::size::MaybeMutSizeCollection;

#[test]
fn it_works() {}

#[test]
fn constant_sizes_of_unsigned_primitives() {
    assert_eq!(<u8 as ConstantSize>::size_in_bits(), 8);
    assert_eq!(<u8 as ConstantSize>::size_in_bytes(), 1);
    assert_eq!(<u16 as ConstantSize>::size_in_bits(), 16);
    assert_eq!(<u16 as ConstantSize>::size_in_bytes(), 2);
    assert_eq!(<u32 as ConstantSize>::size_in_bits(), 32);
    assert_eq!(<u32 as ConstantSize>::size_in_bytes(), 4);
    assert_eq!(<u64 as ConstantSize>::size_in_bits(), 64);
    assert_eq!(<u64 as ConstantSize>::size_in_bytes(), 8);
}

#[test]
fn constant_size_bits_are_bytes_times_eight() {
    assert_eq!(
        <u8 as ConstantSize>::size_in_bits(),
        <u8 as ConstantSize>::size_in_bytes() * 8
    );
    assert_eq!(
        <u16 as ConstantSize>::size_in_bits(),
        <u16 as ConstantSize>::size_in_bytes() * 8
    );
    assert_eq!(
        <u32 as ConstantSize>::size_in_bits(),
        <u32 as ConstantSize>::size_in_bytes() * 8
    );
    assert_eq!(
        <u64 as ConstantSize>::size_in_bits(),
        <u64 as ConstantSize>::size_in_bytes() * 8
    );
}

#[test]
fn mut_size_bits_are_bytes_times_eight() {
    let mut c: SequenceContainer<u16> = SequenceContainer::with_capacity(5);
    c.push(7);
    c.push(9);
    c.push(11);
    let alloc_bits = MaybeMutSize::size_allocated_in_bits(&c);
    let alloc_bytes = MaybeMutSize::size_allocated_in_bytes(&c);
    let used_bits = MaybeMutSize::size_used_in_bits(&c);
    let used_bytes = MaybeMutSize::size_used_in_bytes(&c);
    assert_eq!(alloc_bits, alloc_bytes * 8);
    assert_eq!(used_bits, used_bytes * 8);
    assert_eq!(alloc_bits, 80);
    assert_eq!(alloc_bytes, 10);
    assert_eq!(used_bits, 48);
    assert_eq!(used_bytes, 6);
}

#[test]
fn collection_allocation_is_capacity_times_item_size() {
    let c: SequenceContainer<u32> = SequenceContainer::with_capacity(3);
    assert_eq!(
        <SequenceContainer<u32> as MaybeMutSizeCollection>::item_size_in_bits(),
        32
    );
    assert_eq!(MaybeMutSizeCollection::size_allocated_in_bits(&c), 3 * 32);
    assert_eq!(MaybeMutSizeCollection::size_allocated_in_bytes(&c), 12);
}

#[test]
fn collection_used_grows_with_pushes() {
    let mut c: SequenceContainer<u64> = SequenceContainer::with_capacity(4);
    assert_eq!(MaybeMutSizeCollection::size_used_in_bits(&c), 0);
    assert_eq!(MaybeMutSizeCollection::size_used_in_bytes(&c), 0);
    c.push(1);
    c.push(2);
    assert_eq!(MaybeMutSizeCollection::size_used_in_bits(&c), 128);
    assert_eq!(MaybeMutSizeCollection::size_used_in_bytes(&c), 16);
    assert_eq!(MaybeMutSizeCollection::size_allocated_in_bits(&c), 256);
    assert_eq!(MaybeMutSizeCollection::size_allocated_in_bytes(&c), 32);
}

#[test]
fn observers_are_idempotent_on_unmodified_values() {
    let mut c: SequenceContainer<u8> = SequenceContainer::with_capacity(9);
    c.push(42);
    assert_eq!(
        MaybeMutSize::size_allocated_in_bits(&c),
        MaybeMutSize::size_allocated_in_bits(&c)
    );
    assert_eq!(
        MaybeMutSize::size_allocated_in_bytes(&c),
        MaybeMutSize::size_allocated_in_bytes(&c)
    );
    assert_eq!(
        MaybeMutSize::size_used_in_bits(&c),
        MaybeMutSize::size_used_in_bits(&c)
    );
    assert_eq!(
        MaybeMutSize::size_used_in_bytes(&c),
        MaybeMutSize::size_used_in_bytes(&c)
    );
    let mut n = NibbleContainer::with_capacity(4);
    n.push(15);
    assert_eq!(n.size_allocated_in_bits(), n.size_allocated_in_bits());
    assert_eq!(n.size_used_in_bytes(), n.size_used_in_bytes());
}

#[test]
fn empty_container_allocates_nothing() {
    let c: SequenceContainer<u64> = SequenceContainer::with_capacity(0);
    assert_eq!(MaybeMutSizeCollection::size_allocated_in_bits(&c), 0);
    assert_eq!(MaybeMutSizeCollection::size_allocated_in_bytes(&c), 0);
    let d: SequenceContainer<u8> = SequenceContainer::new();
    assert_eq!(MaybeMutSizeCollection::size_allocated_in_bits(&d), 0);
    let n = NibbleContainer::with_capacity(0);
    assert_eq!(n.size_allocated_in_bits(), 0);
    assert_eq!(n.size_allocated_in_bytes(), 0);
}

#[test]
fn ten_four_bit_items_allocate_forty_bits() {
    let n = NibbleContainer::with_capacity(10);
    assert_eq!(<NibbleContainer as MaybeMutSizeCollection>::item_size_in_bits(), 4);
    assert_eq!(n.capacity(), 10);
    assert_eq!(n.size_allocated_in_bits(), 40);
    assert_eq!(n.size_allocated_in_bytes(), 5);
}

#[test]
fn odd_nibble_capacity_rounds_up_to_whole_bytes() {
    let n = NibbleContainer::with_capacity(5);
    assert_eq!(n.capacity(), 6);
    assert_eq!(n.size_allocated_in_bits(), 24);
    assert_eq!(n.size_allocated_in_bytes(), 3);
}

#[test]
fn nibbles_round_trip_through_packed_storage() {
    let mut n = NibbleContainer::with_capacity(6);
    n.push(0xa);
    n.push(0x3);
    n.push(0xf);
    n.push(0x0);
    n.push(0x7);
    assert_eq!(n.len(), 5);
    assert_eq!(n.get(0), 0xa);
    assert_eq!(n.get(1), 0x3);
    assert_eq!(n.get(2), 0xf);
    assert_eq!(n.get(3), 0x0);
    assert_eq!(n.get(4), 0x7);
    assert_eq!(n.pop(), Some(0x7));
    assert_eq!(n.pop(), Some(0x0));
    assert_eq!(n.len(), 3);
    assert_eq!(n.get(2), 0xf);
}

#[test]
fn nibble_used_measures_count_whole_bytes() {
    let mut n = NibbleContainer::with_capacity(8);
    assert_eq!(n.size_used_in_bits(), 0);
    assert_eq!(n.size_used_in_bytes(), 0);
    n.push(1);
    assert_eq!(n.size_used_in_bits(), 8);
    assert_eq!(n.size_used_in_bytes(), 1);
    n.push(2);
    assert_eq!(n.size_used_in_bits(), 8);
    assert_eq!(n.size_used_in_bytes(), 1);
    n.push(3);
    assert_eq!(n.size_used_in_bits(), 16);
    assert_eq!(n.size_used_in_bytes(), 2);
    assert_eq!(n.size_used_in_bits(), n.size_used_in_bytes() * 8);
}

#[test]
fn sequence_container_holds_its_items() {
    let mut c: SequenceContainer<u32> = SequenceContainer::with_capacity(3);
    assert_eq!(c.capacity(), 3);
    assert_eq!(c.len(), 0);
    c.push(10);
    c.push(20);
    c.push(30);
    assert_eq!(c.len(), 3);
    assert_eq!(*c.get(0), 10);
    assert_eq!(*c.get(1), 20);
    assert_eq!(*c.get(2), 30);
    assert_eq!(c.pop(), Some(30));
    assert_eq!(c.pop(), Some(20));
    assert_eq!(c.pop(), Some(10));
    assert_eq!(c.pop(), None);
    assert_eq!(c.capacity(), 3);
}
