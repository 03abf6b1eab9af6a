use micro16::bitset32::BitSet32;

#[test]
fn get_reads_single_bits() {
    let bits = BitSet32::new(0b1010);
    assert!(!bits.get(0));
    assert!(bits.get(1));
    assert!(!bits.get(2));
    assert!(bits.get(3));
    assert!(!bits.get(4));
    assert!(!bits.get(31));
}

#[test]
fn get_reads_the_top_bit() {
    let bits = BitSet32::new(0x8000_0000);
    assert!(bits.get(31));
    assert!(!bits.get(30));
    assert!(!bits.get(0));
}

#[test]
fn get_agrees_with_division_by_powers_of_two() {
    let val: u32 = 0xdead_beef;
    let bits = BitSet32::new(val);
    for i in 0..32usize {
        assert_eq!(bits.get(i), (val / (1u32 << i)) % 2 == 1, "bit {}", i);
    }
}

#[test]
fn get_many_moves_the_range_down() {
    let bits = BitSet32::new(0xabcd_1234);
    assert_eq!(bits.get_many(0, 4), 0x4);
    assert_eq!(bits.get_many(4, 8), 0x3);
    assert_eq!(bits.get_many(8, 12), 0x2);
    assert_eq!(bits.get_many(0, 16), 0x1234);
    assert_eq!(bits.get_many(16, 32), 0xabcd);
    assert_eq!(bits.get_many(28, 32), 0xa);
    assert_eq!(bits.get_many(12, 20), 0xd1);
}

#[test]
fn get_many_of_the_whole_word_is_the_word() {
    assert_eq!(BitSet32::new(0xabcd_1234).get_many(0, 32), 0xabcd_1234);
    assert_eq!(BitSet32::new(u32::MAX).get_many(0, 32), u32::MAX);
    assert_eq!(BitSet32::new(0).get_many(0, 32), 0);
}

#[test]
fn get_many_of_an_empty_range_is_zero() {
    let bits = BitSet32::new(u32::MAX);
    assert_eq!(bits.get_many(0, 0), 0);
    assert_eq!(bits.get_many(5, 5), 0);
    assert_eq!(bits.get_many(31, 31), 0);
    assert_eq!(bits.get_many(32, 32), 0);
}

#[test]
fn get_many_of_a_reversed_range_is_zero() {
    let bits = BitSet32::new(u32::MAX);
    assert_eq!(bits.get_many(7, 3), 0);
    assert_eq!(bits.get_many(40, 32), 0);
}

#[test]
fn get_many_of_one_bit_agrees_with_get() {
    let val: u32 = 0x1357_9bdf;
    let bits = BitSet32::new(val);
    for i in 0..32usize {
        assert_eq!(bits.get_many(i, i + 1) == 1, bits.get(i), "bit {}", i);
    }
}

#[test]
fn get_many_agrees_with_quotient_and_remainder() {
    let val: u32 = 0xc0ff_ee42;
    let bits = BitSet32::new(val);
    for start in 0..32usize {
        for end in (start + 1)..=32usize {
            let expected = ((val as u64) >> start) % (1u64 << (end - start));
            assert_eq!(bits.get_many(start, end) as u64, expected, "[{}, {})", start, end);
        }
    }
}

#[test]
fn and_or_xor_combine_bitwise() {
    let a = BitSet32::new(0b1100);
    let b = BitSet32::new(0b1010);
    assert_eq!(a.and(b).get_many(0, 32), 0b1000);
    assert_eq!(a.or(b).get_many(0, 32), 0b1110);
    assert_eq!(a.xor(b).get_many(0, 32), 0b0110);
}

#[test]
fn and_or_xor_on_full_words() {
    let a = BitSet32::new(0xffff_0000);
    let b = BitSet32::new(0x0ff0_0ff0);
    assert_eq!(a.and(b).get_many(0, 32), 0x0ff0_0000);
    assert_eq!(a.or(b).get_many(0, 32), 0xffff_0ff0);
    assert_eq!(a.xor(b).get_many(0, 32), 0xf00f_0ff0);
}
