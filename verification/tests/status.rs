use bog::bytes::{displace, high, low, stack, word};
use bog::{Flag, Pins, Status};

/// The flags that the register holds, each with its bit.
const FLAGS: [(Flag, u8); 6] =
    [(Flag::C, 0x01), (Flag::Z, 0x02), (Flag::I, 0x04), (Flag::D, 0x08), (Flag::V, 0x40), (Flag::N, 0x80)];

#[test]
fn status_at_power_up() {
    let status = Status::default();
    assert_eq!(status.bits(), 0x24);
    assert!(status.contains(Flag::I));
    assert!(status.contains(Flag::U));
    assert!(!status.contains(Flag::C));
}

#[test]
fn empty_status_holds_no_flag() {
    let status = Status::empty();
    assert_eq!(status.bits(), 0x20);
    for (flag, _) in FLAGS {
        assert!(!status.contains(flag));
    }
    assert!(status.contains(Flag::U));
    assert!(!status.contains(Flag::B));
}

#[test]
fn every_byte_is_a_status() {
    for bits in 0..=255u8 {
        assert_eq!(Status::from_bits(bits).unwrap().bits(), (bits & 0xcf) | 0x20);
        assert_eq!(Status::from_bits_truncate(bits).bits(), (bits & 0xcf) | 0x20);
    }
}

#[test]
fn each_flag_has_its_bit() {
    for (flag, mask) in FLAGS {
        let mut status = Status::empty();
        status.insert(flag);
        assert_eq!(status.bits(), 0x20 | mask);
        for (other, _) in FLAGS {
            assert_eq!(status.contains(other), other == flag);
        }
        let mut status = Status::from_bits_truncate(0xff);
        status.remove(flag);
        assert_eq!(status.bits(), 0xef & !mask);
        status.set(flag, true);
        assert_eq!(status.bits(), 0xef);
        status.set(flag, false);
        assert_eq!(status.bits(), 0xef & !mask);
        assert_eq!(Status::empty().with(flag, true).bits(), 0x20 | mask);
        assert_eq!(Status::from_bits_truncate(0xff).with(flag, false).bits(), 0xef & !mask);
    }
}

#[test]
fn status_constants_name_the_flags() {
    assert_eq!(Status::C, Flag::C);
    assert_eq!(Status::Z, Flag::Z);
    assert_eq!(Status::I, Flag::I);
    assert_eq!(Status::D, Flag::D);
    assert_eq!(Status::B, Flag::B);
    assert_eq!(Status::U, Flag::U);
    assert_eq!(Status::V, Flag::V);
    assert_eq!(Status::N, Flag::N);
}

#[test]
fn unused_flag_cannot_be_cleared_and_break_cannot_be_set() {
    for bits in [0x00u8, 0x20, 0x10, 0x30, 0xcf, 0xff] {
        let mut status = Status::from_bits_truncate(bits);
        assert!(status.contains(Flag::U));
        assert!(!status.contains(Flag::B));
        status.remove(Flag::U);
        status.insert(Flag::B);
        status.set(Flag::U, false);
        status.set(Flag::B, true);
        assert!(status.contains(Flag::U));
        assert!(!status.contains(Flag::B));
        assert_eq!(status.bits(), (bits & 0xcf) | 0x20);
        assert_eq!(status.with(Flag::U, false).with(Flag::B, true).bits(), (bits & 0xcf) | 0x20);
    }
}

#[test]
fn pushed_byte_has_break_as_asked() {
    assert_eq!(Status::from_bits_truncate(0xc3).pushed(true), 0xf3);
    assert_eq!(Status::from_bits_truncate(0xc3).pushed(false), 0xe3);
    assert_eq!(Status::from_bits_truncate(0x00).pushed(true), 0x30);
    assert_eq!(Status::from_bits_truncate(0xff).pushed(false), 0xef);
    assert_eq!(Status::default().pushed(true), 0x34);
}

#[test]
fn pulled_status_drops_break_and_unused() {
    assert_eq!(Status::from_bits_truncate(0x20).pulled(0xff).bits(), 0xef);
    assert_eq!(Status::from_bits_truncate(0x30).pulled(0x00).bits(), 0x20);
    assert_eq!(Status::from_bits_truncate(0x00).pulled(0xb5).bits(), 0xa5);
    assert_eq!(Status::from_bits_truncate(0xcf).pulled(0x30).bits(), 0x20);
}

#[test]
fn pins_at_power_up() {
    let pins = Pins::default();
    assert_eq!((pins.address, pins.data, pins.rw, pins.irq, pins.nmi, pins.rst), (0, 0, true, false, false, false));
}

#[test]
fn words_and_their_bytes() {
    assert_eq!(word(0x34, 0x12), 0x1234);
    assert_eq!(word(0xff, 0x00), 0x00ff);
    assert_eq!(word(0x00, 0xff), 0xff00);
    assert_eq!(low(0x1234), 0x34);
    assert_eq!(high(0x1234), 0x12);
    assert_eq!(low(0xffff), 0xff);
    assert_eq!(high(0x00ff), 0x00);
    for value in [0x0000u16, 0x00ff, 0x0100, 0x7fff, 0x8000, 0xabcd, 0xffff] {
        assert_eq!(word(low(value), high(value)), value);
    }
}

#[test]
fn stack_addresses_are_in_page_one() {
    assert_eq!(stack(0x00), 0x0100);
    assert_eq!(stack(0xfd), 0x01fd);
    assert_eq!(stack(0xff), 0x01ff);
}

#[test]
fn displacement_is_signed_and_wraps() {
    assert_eq!(displace(0x10f2, 0x20), 0x1112);
    assert_eq!(displace(0x0202, 0xfc), 0x01fe);
    assert_eq!(displace(0x0200, 0x7f), 0x027f);
    assert_eq!(displace(0x0200, 0x80), 0x0180);
    assert_eq!(displace(0x0200, 0xff), 0x01ff);
    assert_eq!(displace(0xfff0, 0x20), 0x0010);
    assert_eq!(displace(0x0010, 0x80), 0xff90);
    assert_eq!(displace(0x1234, 0x00), 0x1234);
}
