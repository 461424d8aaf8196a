use qrshow::pixel::{host_byte_order, order_of_probe, pack_grey, pack_pixel, unpack_pixel, ByteOrder};

#[test]
fn pack_pixel_little_endian_puts_first_byte_lowest() {
    assert_eq!(pack_pixel(ByteOrder::LittleEndian, [0x11, 0x22, 0x33, 0x44]), 0x4433_2211);
    assert_eq!(pack_pixel(ByteOrder::LittleEndian, [1, 0, 0, 0]), 1);
    assert_eq!(pack_pixel(ByteOrder::LittleEndian, [0, 0, 0, 1]), 0x0100_0000);
}

#[test]
fn pack_pixel_big_endian_puts_first_byte_highest() {
    assert_eq!(pack_pixel(ByteOrder::BigEndian, [0x11, 0x22, 0x33, 0x44]), 0x1122_3344);
    assert_eq!(pack_pixel(ByteOrder::BigEndian, [1, 0, 0, 0]), 0x0100_0000);
    assert_eq!(pack_pixel(ByteOrder::BigEndian, [0, 0, 0, 1]), 1);
}

#[test]
fn pack_pixel_extremes() {
    for order in [ByteOrder::LittleEndian, ByteOrder::BigEndian] {
        assert_eq!(pack_pixel(order, [0, 0, 0, 0]), 0);
        assert_eq!(pack_pixel(order, [255, 255, 255, 255]), u32::MAX);
    }
}

#[test]
fn pack_pixel_agrees_with_std_in_both_orders() {
    let samples: [[u8; 4]; 5] =
        [[0, 0, 0, 0], [1, 2, 3, 4], [255, 0, 255, 0], [9, 200, 17, 255], [255, 255, 255, 255]];
    for bytes in samples {
        assert_eq!(pack_pixel(ByteOrder::LittleEndian, bytes), u32::from_le_bytes(bytes));
        assert_eq!(pack_pixel(ByteOrder::BigEndian, bytes), u32::from_be_bytes(bytes));
    }
}

#[test]
fn unpack_pixel_gives_bytes_in_order() {
    assert_eq!(unpack_pixel(ByteOrder::LittleEndian, 0x4433_2211), [0x11, 0x22, 0x33, 0x44]);
    assert_eq!(unpack_pixel(ByteOrder::BigEndian, 0x4433_2211), [0x44, 0x33, 0x22, 0x11]);
    assert_eq!(unpack_pixel(ByteOrder::LittleEndian, 0xff00_0000), [0, 0, 0, 255]);
}

#[test]
fn unpack_after_pack_is_identity_on_samples() {
    for order in [ByteOrder::LittleEndian, ByteOrder::BigEndian] {
        for a in [0u8, 1, 127, 128, 255] {
            for b in [0u8, 77, 255] {
                let bytes = [a, b, a ^ b, b.wrapping_add(3)];
                assert_eq!(unpack_pixel(order, pack_pixel(order, bytes)), bytes);
            }
        }
    }
}

#[test]
fn pack_after_unpack_is_identity_on_samples() {
    for order in [ByteOrder::LittleEndian, ByteOrder::BigEndian] {
        for word in [0u32, 1, 0x0100_0000, 0xdead_beef, 0x7fff_ffff, u32::MAX] {
            assert_eq!(pack_pixel(order, unpack_pixel(order, word)), word);
        }
    }
}

#[test]
fn order_of_probe_reads_one_as_little_endian() {
    assert_eq!(order_of_probe(1), ByteOrder::LittleEndian);
    assert_eq!(order_of_probe(0x0100_0000), ByteOrder::BigEndian);
    assert_eq!(order_of_probe(0), ByteOrder::BigEndian);
}

#[test]
fn host_byte_order_is_the_order_of_native_words() {
    let order = host_byte_order();
    for bytes in [[1u8, 0, 0, 0], [1, 2, 3, 4], [0, 0, 0, 255], [10, 20, 30, 255]] {
        assert_eq!(pack_pixel(order, bytes), u32::from_ne_bytes(bytes));
        assert_eq!(unpack_pixel(order, u32::from_ne_bytes(bytes)), bytes);
    }
    let expected = if u32::from_ne_bytes([1, 0, 0, 0]) == 1 {
        ByteOrder::LittleEndian
    } else {
        ByteOrder::BigEndian
    };
    assert_eq!(order, expected);
}

#[test]
fn pack_grey_repeats_luminance_and_is_opaque() {
    assert_eq!(pack_grey(ByteOrder::LittleEndian, 0), 0xff00_0000);
    assert_eq!(pack_grey(ByteOrder::LittleEndian, 255), 0xffff_ffff);
    assert_eq!(pack_grey(ByteOrder::LittleEndian, 0x12), 0xff12_1212);
    assert_eq!(pack_grey(ByteOrder::BigEndian, 0), 0x0000_00ff);
    assert_eq!(pack_grey(ByteOrder::BigEndian, 0x12), 0x1212_12ff);
}

#[test]
fn grey_word_has_alpha_255_and_equal_colour_bytes() {
    for order in [ByteOrder::LittleEndian, ByteOrder::BigEndian] {
        for luminance in [0u8, 1, 100, 254, 255] {
            let bytes = unpack_pixel(order, pack_grey(order, luminance));
            assert_eq!(bytes[3], 255);
            assert_eq!(bytes[0], luminance);
            assert_eq!(bytes[0], bytes[1]);
            assert_eq!(bytes[1], bytes[2]);
        }
    }
    assert_eq!(pack_grey(ByteOrder::LittleEndian, 7) >> 24, 255);
}
