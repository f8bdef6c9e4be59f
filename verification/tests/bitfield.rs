//! The bitfield primitive on concrete words: framing, field contents,
//! truncation of over-width values, idempotence and inversion.

use wm8731::bitmask::BitMask;

#[test]
fn set_and_unset_single_bits() {
    let mut word: u16 = 0;
    BitMask::new(&mut word).set(0);
    assert_eq!(word, 0b1);

    BitMask::new(&mut word).set(15);
    assert_eq!(word, 0b1000_0000_0000_0001);

    BitMask::new(&mut word).unset(0);
    assert_eq!(word, 0b1000_0000_0000_0000);
}

#[test]
fn set_then_unset_restores_a_clear_bit() {
    let mut word: u16 = 0b1010_0101;
    let before: u16 = word;

    let mut bm = BitMask::new(&mut word);
    bm.set(1);
    bm.unset(1);
    assert_eq!(word, before);
}

#[test]
fn set_and_unset_are_idempotent() {
    let mut word: u16 = 0b0011;

    let mut bm = BitMask::new(&mut word);
    bm.set(4);
    bm.set(4);
    assert_eq!(word, 0b1_0011);

    let mut bm = BitMask::new(&mut word);
    bm.unset(0);
    bm.unset(0);
    assert_eq!(word, 0b1_0010);
}

#[test]
fn apply_replaces_only_its_field() {
    // All ones around the field: the bits outside [4, 8) stay put.
    let mut word: u16 = 0xFFFF;
    BitMask::new(&mut word).apply(4, 4, 0b0000);
    assert_eq!(word, 0xFF0F);

    // All zeros around the field: only [4, 8) is written.
    let mut word: u16 = 0;
    BitMask::new(&mut word).apply(4, 4, 0b1010);
    assert_eq!(word, 0b1010_0000);

    // A second apply on the same field replaces the first.
    BitMask::new(&mut word).apply(4, 4, 0b0101);
    assert_eq!(word, 0b0101_0000);
}

#[test]
fn apply_truncates_over_width_values() {
    // A value wider than the field keeps only its low bits.
    let mut word: u16 = 0;
    BitMask::new(&mut word).apply(0, 2, 0b111);
    assert_eq!(word, 0b11);

    let mut word: u16 = 0;
    BitMask::new(&mut word).apply(3, 1, 0b10);
    assert_eq!(word, 0);
}
