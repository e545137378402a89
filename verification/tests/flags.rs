use bot_accounts::flags::{UserFlags, BOT, MASK, WIDTH};

#[test]
fn bot_flag_is_the_lowest_bit() {
    assert_eq!(BOT, 1);
    assert_eq!(WIDTH, 32);
    assert_eq!(MASK, 0xffff_ffff);
    assert_eq!(UserFlags::bot().bits(), 1);
    assert!(UserFlags::bot().is_bot());
    assert!(!UserFlags::empty().is_bot());
    assert_eq!(UserFlags::empty().bits(), 0);
}

#[test]
fn from_bits_truncate_keeps_unknown_bits() {
    let flags = UserFlags::from_bits_truncate(0x8000_0002);
    assert_eq!(flags.bits(), 0x8000_0002);
    assert!(!flags.is_bot());
    let all = UserFlags::from_bits_truncate(u32::MAX);
    assert_eq!(all.bits(), u32::MAX);
    assert!(all.is_bot());
}

#[test]
fn round_trip_through_u32() {
    for bits in [0u32, 1, 2, 3, 0x8000_0001, u32::MAX] {
        let flags = UserFlags::from_bits_truncate(bits);
        assert_eq!(flags.encode_u32(), bits);
        assert_eq!(UserFlags::decode_u32(flags.encode_u32()), flags);
    }
}

#[test]
fn round_trip_through_i64() {
    for bits in [0u32, 1, 2, 3, 0x8000_0001, u32::MAX] {
        let flags = UserFlags::from_bits_truncate(bits);
        assert_eq!(flags.encode_i64(), i64::from(bits));
        assert_eq!(UserFlags::decode_i64(flags.encode_i64()), flags);
    }
}

#[test]
fn bot_bit_survives_the_round_trip_with_the_others() {
    let mut flags = UserFlags::from_bits_truncate(0x4000_0010);
    flags.insert(UserFlags::bot());
    assert_eq!(flags.bits(), 0x4000_0011);
    let back = UserFlags::decode_i64(flags.encode_i64());
    assert!(back.is_bot());
    assert_eq!(back.bits(), 0x4000_0011);
    let again = UserFlags::decode_i64(back.encode_i64());
    assert_eq!(again, back);
    assert_eq!(UserFlags::decode_u32(flags.encode_u32()).bits(), 0x4000_0011);
}

#[test]
fn encode_i64_never_sets_a_high_bit() {
    assert_eq!(UserFlags::from_bits_truncate(u32::MAX).encode_i64(), 4_294_967_295);
    assert_eq!(UserFlags::from_bits_truncate(0x8000_0000).encode_i64(), 2_147_483_648);
}

#[test]
fn decode_i64_drops_the_bits_above_the_width() {
    assert_eq!(UserFlags::decode_i64(0x1_0000_0001).bits(), 1);
    assert_eq!(UserFlags::decode_i64(-1).bits(), u32::MAX);
    assert_eq!(UserFlags::decode_i64(i64::MIN).bits(), 0);
    assert_eq!(UserFlags::decode_i64(i64::MAX).bits(), u32::MAX);
    assert_eq!(UserFlags::decode_i64(0x7fff_fff0_0000_0002).bits(), 2);
    assert!(UserFlags::decode_i64(0x10_0000_0001).is_bot());
    assert!(!UserFlags::decode_i64(0x1_0000_0000).is_bot());
}

#[test]
fn decode_tolerates_every_pattern() {
    for raw in [0i64, 1, -1, 0xffff_ffff, 0x1_0000_0000, i64::MIN, i64::MAX, -2] {
        let flags = UserFlags::decode_i64(raw);
        assert_eq!(i64::from(flags.bits()), raw & MASK);
        assert_eq!(flags.encode_i64(), raw & MASK);
    }
}

#[test]
fn insert_remove_and_contains() {
    let mut flags = UserFlags::empty();
    assert!(flags.contains(UserFlags::empty()));
    assert!(!flags.contains(UserFlags::bot()));
    flags.insert(UserFlags::from_bits_truncate(0b110));
    assert_eq!(flags.bits(), 0b110);
    flags.insert(UserFlags::bot());
    assert_eq!(flags.bits(), 0b111);
    assert!(flags.contains(UserFlags::bot()));
    assert!(flags.contains(UserFlags::from_bits_truncate(0b101)));
    assert!(!flags.contains(UserFlags::from_bits_truncate(0b1001)));
    flags.remove(UserFlags::from_bits_truncate(0b011));
    assert_eq!(flags.bits(), 0b100);
    assert!(!flags.is_bot());
    flags.remove(UserFlags::from_bits_truncate(0b1000));
    assert_eq!(flags.bits(), 0b100);
}
