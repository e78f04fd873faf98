use iron_nes::bitset::{BiasedBitSet, BitSet};

#[test]
fn test_bitset_sanity() {
    let bs = BitSet::new(0b11011001);
    assert_eq!(0b11011001, bs.cast());
}

#[test]
fn test_bitset_getset() {
    let mut bs = BitSet::new(0b11011001);
    bs.set(3, 0);
    bs.set(5, 1);
    assert_eq!(0b11110001, bs.cast());

    [1, 1, 1, 1, 0, 0, 0, 1]
        .iter()
        .rev()
        .enumerate()
        .for_each(|(i, v)| assert_eq!((*v != 0), bs.get(i as u8)));
}

#[test]
fn test_biased_bitset_getset() {
    let mut bs = BiasedBitSet::default();
    bs.bias(3, 0);
    bs.bias(5, 1);
    bs.store(0b11011001);
    assert_eq!(0b11110001, bs.cast());
    bs.set(3, 0);
    bs.set(5, 1);
    assert_eq!(0b11110001, bs.cast());
}

#[test]
fn biased_bits_hold_against_later_stores() {
    let mut bs = BiasedBitSet::default();
    bs.bias(3, 0);
    bs.bias(5, 1);
    bs.store(0xff);
    assert_eq!(0b11110111, bs.cast());
    bs.store(0x00);
    assert_eq!(0b00100000, bs.cast());
    bs.set(3, 1);
    assert!(!bs.get(3));
    bs.set(5, 0);
    assert!(bs.get(5));
}

#[test]
fn bias_applies_to_the_stored_value_at_once() {
    let mut bs = BiasedBitSet::default();
    bs.store(0xff);
    bs.bias(6, 0);
    assert_eq!(0xbf, bs.cast());
    assert!(!bs.get(6));
}

#[test]
fn bitset_default_is_zero() {
    let mut bs = BitSet::default();
    assert_eq!(0, bs.cast());
    bs.set(7, 3);
    assert_eq!(0x80, bs.cast());
    assert!(bs.get(7));
    assert!(!bs.get(6));
}

#[test]
fn bias_history_constrains_every_store() {
    let mut bs = BiasedBitSet::default();
    bs.bias(0, 1);
    bs.bias(7, 0);
    bs.bias(7, 1);
    bs.bias(2, 0);
    for v in [0x00u8, 0xff, 0x5a, 0xa5] {
        bs.store(v);
        assert_eq!((v & !0b1000_0100) | 0b1000_0001, bs.cast());
    }
}
