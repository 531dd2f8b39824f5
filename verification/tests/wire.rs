use perf_events::bits::{popcount, test_bit, with_bit};
use perf_events::wire::{
    push_u16, push_u32, push_u64, read_u16, read_u32, read_u64, ByteOrder,
};

#[test]
fn read_integers_little_endian() {
    let bytes = [0x01, 0x02, 0x03, 0x04, 0x05, 0x06, 0x07, 0x08, 0x09];
    assert_eq!(read_u16(ByteOrder::Little, &bytes, 0), Some(0x0201));
    assert_eq!(read_u32(ByteOrder::Little, &bytes, 0), Some(0x0403_0201));
    assert_eq!(read_u64(ByteOrder::Little, &bytes, 0), Some(0x0807_0605_0403_0201));
    assert_eq!(read_u64(ByteOrder::Little, &bytes, 1), Some(0x0908_0706_0504_0302));
    assert_eq!(read_u16(ByteOrder::Little, &bytes, 7), Some(0x0908));
}

#[test]
fn read_integers_big_endian() {
    let bytes = [0x01, 0x02, 0x03, 0x04, 0x05, 0x06, 0x07, 0x08, 0x09];
    assert_eq!(read_u16(ByteOrder::Big, &bytes, 0), Some(0x0102));
    assert_eq!(read_u32(ByteOrder::Big, &bytes, 0), Some(0x0102_0304));
    assert_eq!(read_u64(ByteOrder::Big, &bytes, 0), Some(0x0102_0304_0506_0708));
    assert_eq!(read_u32(ByteOrder::Big, &bytes, 5), Some(0x0607_0809));
}

#[test]
fn read_past_the_end_is_none() {
    let bytes = [0u8; 9];
    assert_eq!(read_u16(ByteOrder::Little, &bytes, 8), None);
    assert_eq!(read_u32(ByteOrder::Little, &bytes, 6), None);
    assert_eq!(read_u64(ByteOrder::Little, &bytes, 2), None);
    assert_eq!(read_u64(ByteOrder::Big, &bytes, usize::MAX), None);
    assert_eq!(read_u16(ByteOrder::Big, &[], 0), None);
    assert_eq!(read_u64(ByteOrder::Little, &bytes, 1), Some(0));
}

#[test]
fn written_integers_agree_with_std() {
    for x in [0u64, 1, 0xff, 0x100, 0xdead_beef, 0x0123_4567_89ab_cdef, u64::MAX] {
        let mut le = Vec::new();
        push_u64(ByteOrder::Little, &mut le, x);
        assert_eq!(le, x.to_le_bytes());
        let mut be = vec![7u8];
        push_u64(ByteOrder::Big, &mut be, x);
        assert_eq!(&be[1..], &x.to_be_bytes());
        assert_eq!(be[0], 7);
        let y = x as u32;
        let mut le = Vec::new();
        push_u32(ByteOrder::Little, &mut le, y);
        assert_eq!(le, y.to_le_bytes());
        let mut be = Vec::new();
        push_u32(ByteOrder::Big, &mut be, y);
        assert_eq!(be, y.to_be_bytes());
        let z = x as u16;
        let mut le = Vec::new();
        push_u16(ByteOrder::Little, &mut le, z);
        assert_eq!(le, z.to_le_bytes());
        let mut be = Vec::new();
        push_u16(ByteOrder::Big, &mut be, z);
        assert_eq!(be, z.to_be_bytes());
    }
}

#[test]
fn integers_round_trip() {
    for order in [ByteOrder::Little, ByteOrder::Big] {
        for x in [0u64, 0x8000_0000_0000_0001, 0x00ff_00ff_00ff_00ff, u64::MAX] {
            let mut out = Vec::new();
            push_u64(order, &mut out, x);
            push_u32(order, &mut out, x as u32);
            push_u16(order, &mut out, x as u16);
            assert_eq!(read_u64(order, &out, 0), Some(x));
            assert_eq!(read_u32(order, &out, 8), Some(x as u32));
            assert_eq!(read_u16(order, &out, 12), Some(x as u16));
        }
    }
}

#[test]
fn host_order_is_the_order_of_the_machine() {
    let expected = if 1u16.to_ne_bytes() == 1u16.to_le_bytes() {
        ByteOrder::Little
    } else {
        ByteOrder::Big
    };
    assert_eq!(ByteOrder::host(), expected);
    let mut out = Vec::new();
    push_u32(ByteOrder::host(), &mut out, 0x0102_0304);
    assert_eq!(out, 0x0102_0304u32.to_ne_bytes());
}

#[test]
fn bits_of_a_mask() {
    assert!(test_bit(0b100, 2));
    assert!(!test_bit(0b100, 1));
    assert!(test_bit(u64::MAX, 63));
    assert!(!test_bit(0, 0));
    assert_eq!(with_bit(0, 0), 1);
    assert_eq!(with_bit(1, 63), 0x8000_0000_0000_0001);
    assert_eq!(with_bit(0b110, 1), 0b110);
}

#[test]
fn popcount_agrees_with_std() {
    for mask in [0u64, 1, 0b1011, 0xff, 0xf0f0, 1 << 63, u64::MAX, 0x1234_5678_9abc_def0] {
        assert_eq!(popcount(mask), mask.count_ones());
    }
}

#[test]
fn order_that_the_bytes_of_one_tell() {
    assert_eq!(ByteOrder::of_one([1, 0]), ByteOrder::Little);
    assert_eq!(ByteOrder::of_one([0, 1]), ByteOrder::Big);
    assert_eq!(ByteOrder::of_one(1u16.to_le_bytes()), ByteOrder::Little);
    assert_eq!(ByteOrder::of_one(1u16.to_be_bytes()), ByteOrder::Big);
    assert_eq!(ByteOrder::of_one(1u16.to_ne_bytes()), ByteOrder::host());
}
