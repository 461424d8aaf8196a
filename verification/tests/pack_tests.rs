use qrshow::error::Error;
use qrshow::pack::{pack, pack_with_order, unpack, PackedBuffer};
use qrshow::pixel::ByteOrder;
use qrshow::raster::{render, ChannelMode, RasterImage};
use qrshow::symbol::encode;

fn image(width: u32, height: u32, mode: ChannelMode, bytes: Vec<u8>) -> RasterImage {
    RasterImage { width, height, mode, bytes }
}

#[test]
fn pack_luma_little_endian_exact_words() {
    let packed = pack_with_order(&image(2, 1, ChannelMode::Luma, vec![0, 255]), ByteOrder::LittleEndian)
        .expect("consistent");
    assert_eq!((packed.width, packed.height), (2, 1));
    assert_eq!(packed.words, vec![0xff00_0000, 0xffff_ffff]);
}

#[test]
fn pack_luma_big_endian_exact_words() {
    let packed = pack_with_order(&image(1, 3, ChannelMode::Luma, vec![0, 0x80, 255]), ByteOrder::BigEndian)
        .expect("consistent");
    assert_eq!((packed.width, packed.height), (1, 3));
    assert_eq!(packed.words, vec![0x0000_00ff, 0x8080_80ff, 0xffff_ffff]);
}

#[test]
fn pack_rgba_reads_four_bytes_per_pixel() {
    let source = image(1, 2, ChannelMode::Rgba, vec![1, 2, 3, 4, 5, 6, 7, 8]);
    let little = pack_with_order(&source, ByteOrder::LittleEndian).expect("consistent");
    assert_eq!(little.words, vec![0x0403_0201, 0x0807_0605]);
    let big = pack_with_order(&source, ByteOrder::BigEndian).expect("consistent");
    assert_eq!(big.words, vec![0x0102_0304, 0x0506_0708]);
}

#[test]
fn pack_keeps_row_major_order() {
    let source = image(3, 2, ChannelMode::Luma, vec![10, 20, 30, 40, 50, 60]);
    let packed = pack_with_order(&source, ByteOrder::LittleEndian).expect("consistent");
    assert_eq!(packed.words.len(), 6);
    for (i, luminance) in [10u32, 20, 30, 40, 50, 60].iter().enumerate() {
        assert_eq!(packed.words[i] & 0xff, *luminance);
    }
}

#[test]
fn pack_empty_image_gives_empty_buffer() {
    let packed = pack_with_order(&image(0, 5, ChannelMode::Rgba, vec![]), ByteOrder::LittleEndian)
        .expect("consistent");
    assert_eq!((packed.width, packed.height), (0, 5));
    assert!(packed.words.is_empty());
}

#[test]
fn pack_refuses_too_few_bytes() {
    let source = image(2, 2, ChannelMode::Luma, vec![1, 2, 3]);
    assert_eq!(pack_with_order(&source, ByteOrder::LittleEndian).err(), Some(Error::PixelConsistencyError));
    assert_eq!(pack(&source).err(), Some(Error::PixelConsistencyError));
}

#[test]
fn pack_refuses_too_many_bytes() {
    let source = image(2, 2, ChannelMode::Luma, vec![1, 2, 3, 4, 5]);
    assert_eq!(pack_with_order(&source, ByteOrder::BigEndian).err(), Some(Error::PixelConsistencyError));
}

#[test]
fn pack_refuses_bytes_of_the_other_mode() {
    let luma_bytes = image(2, 2, ChannelMode::Rgba, vec![0; 4]);
    assert_eq!(pack(&luma_bytes).err(), Some(Error::PixelConsistencyError));
    let rgba_bytes = image(2, 2, ChannelMode::Luma, vec![0; 16]);
    assert_eq!(pack(&rgba_bytes).err(), Some(Error::PixelConsistencyError));
}

#[test]
fn pack_refuses_dimensions_beyond_the_bytes() {
    let source = image(u32::MAX, u32::MAX, ChannelMode::Rgba, vec![0; 8]);
    assert_eq!(pack(&source).err(), Some(Error::PixelConsistencyError));
}

#[test]
fn pack_native_is_from_ne_bytes_of_each_pixel() {
    let luma = image(2, 2, ChannelMode::Luma, vec![0, 7, 200, 255]);
    let packed = pack(&luma).expect("consistent");
    let expected: Vec<u32> =
        luma.bytes.iter().map(|l| u32::from_ne_bytes([*l, *l, *l, 255])).collect();
    assert_eq!(packed.words, expected);

    let rgba = image(2, 1, ChannelMode::Rgba, vec![1, 2, 3, 4, 250, 251, 252, 253]);
    let packed = pack(&rgba).expect("consistent");
    assert_eq!(
        packed.words,
        vec![u32::from_ne_bytes([1, 2, 3, 4]), u32::from_ne_bytes([250, 251, 252, 253])]
    );
}

#[test]
fn luma_words_have_alpha_255_and_equal_colours() {
    let matrix = encode("alpha").expect("encodable");
    let raster = render(&matrix, 120, 120, ChannelMode::Luma);
    for order in [ByteOrder::LittleEndian, ByteOrder::BigEndian] {
        let packed = pack_with_order(&raster, order).expect("consistent");
        assert_eq!(packed.words.len(), raster.bytes.len());
        for (word, luminance) in packed.words.iter().zip(raster.bytes.iter()) {
            let bytes = match order {
                ByteOrder::LittleEndian => word.to_le_bytes(),
                ByteOrder::BigEndian => word.to_be_bytes(),
            };
            assert_eq!(bytes, [*luminance, *luminance, *luminance, 255]);
        }
    }
    let little = pack_with_order(&raster, ByteOrder::LittleEndian).expect("consistent");
    assert!(little.words.iter().all(|word| word >> 24 == 255));
}

#[test]
fn rgba_words_hold_the_source_bytes_in_order() {
    let source = image(2, 2, ChannelMode::Rgba, (0u8..16).collect());
    for order in [ByteOrder::LittleEndian, ByteOrder::BigEndian] {
        let packed = pack_with_order(&source, order).expect("consistent");
        for (i, word) in packed.words.iter().enumerate() {
            let bytes = match order {
                ByteOrder::LittleEndian => word.to_le_bytes(),
                ByteOrder::BigEndian => word.to_be_bytes(),
            };
            assert_eq!(&bytes[..], &source.bytes[4 * i..4 * i + 4]);
        }
    }
}

#[test]
fn unpack_luma_takes_first_byte_of_each_word() {
    let buffer = PackedBuffer { width: 2, height: 1, words: vec![0xff12_1212, 0xffab_abab] };
    let raster = unpack(&buffer, ChannelMode::Luma, ByteOrder::LittleEndian).expect("consistent");
    assert_eq!((raster.width, raster.height, raster.mode), (2, 1, ChannelMode::Luma));
    assert_eq!(raster.bytes, vec![0x12, 0xab]);
}

#[test]
fn unpack_rgba_gives_all_bytes_in_order() {
    let buffer = PackedBuffer { width: 1, height: 2, words: vec![0x0403_0201, 0x0807_0605] };
    let little = unpack(&buffer, ChannelMode::Rgba, ByteOrder::LittleEndian).expect("consistent");
    assert_eq!(little.bytes, vec![1, 2, 3, 4, 5, 6, 7, 8]);
    let big = unpack(&buffer, ChannelMode::Rgba, ByteOrder::BigEndian).expect("consistent");
    assert_eq!(big.bytes, vec![4, 3, 2, 1, 8, 7, 6, 5]);
}

#[test]
fn unpack_refuses_wrong_word_count() {
    let short = PackedBuffer { width: 2, height: 2, words: vec![0; 3] };
    assert_eq!(
        unpack(&short, ChannelMode::Luma, ByteOrder::LittleEndian).err(),
        Some(Error::PixelConsistencyError)
    );
    let long = PackedBuffer { width: 1, height: 1, words: vec![0; 2] };
    assert_eq!(
        unpack(&long, ChannelMode::Rgba, ByteOrder::BigEndian).err(),
        Some(Error::PixelConsistencyError)
    );
}

#[test]
fn unpack_after_pack_gives_the_image_back() {
    let sources = [
        image(3, 2, ChannelMode::Luma, vec![0, 1, 2, 253, 254, 255]),
        image(2, 2, ChannelMode::Rgba, (100u8..116).collect()),
        image(0, 0, ChannelMode::Luma, vec![]),
    ];
    for source in sources.iter() {
        for order in [ByteOrder::LittleEndian, ByteOrder::BigEndian] {
            let packed = pack_with_order(source, order).expect("consistent");
            assert_eq!(packed.words.len() as u64, source.width as u64 * source.height as u64);
            let back = unpack(&packed, source.mode, order).expect("consistent");
            assert_eq!((back.width, back.height, back.mode), (source.width, source.height, source.mode));
            assert_eq!(back.bytes, source.bytes);
        }
    }
}

#[test]
fn unpack_after_pack_of_a_rendered_symbol() {
    let matrix = encode("round trip").expect("encodable");
    for mode in [ChannelMode::Luma, ChannelMode::Rgba] {
        let raster = render(&matrix, 150, 150, mode);
        let packed = pack(&raster).expect("consistent");
        assert_eq!(packed.words.len(), (raster.width * raster.height) as usize);
        let order = qrshow::pixel::host_byte_order();
        let back = unpack(&packed, mode, order).expect("consistent");
        assert_eq!(back.bytes, raster.bytes);
    }
}
