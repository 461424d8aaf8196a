use qrshow::error::{EncodeFailure, Error};
use qrshow::frame::{
    frame_of, prepare, prepare_with_order, Settings, MAX_CELLS_ACROSS, MAX_DIMENSION,
    MAX_ENCODED_ACROSS,
};
use qrshow::pack::unpack;
use qrshow::pixel::{host_byte_order, ByteOrder};
use qrshow::raster::ChannelMode;
use qrshow::symbol::ModuleMatrix;

#[test]
fn default_settings_are_360_and_luminance() {
    let settings = Settings::default();
    assert_eq!(settings.max_width, 360);
    assert_eq!(settings.max_height, 360);
    assert_eq!(settings.mode, ChannelMode::Luma);
    assert_eq!(MAX_DIMENSION, 360);
    assert_eq!(MAX_CELLS_ACROSS, 185);
    assert_eq!(MAX_ENCODED_ACROSS, 61);
    assert!(settings.fits_in_memory());
}

#[test]
fn settings_beyond_a_vector_do_not_fit() {
    let huge = Settings { max_width: u32::MAX, max_height: u32::MAX, mode: ChannelMode::Rgba };
    assert!(!huge.fits_in_memory());
    let narrow = Settings { max_width: u32::MAX, max_height: 0, mode: ChannelMode::Rgba };
    assert!(narrow.fits_in_memory());
}

#[test]
fn url_in_luminance_at_360_is_square_and_within_bounds() {
    let frame = prepare("https://example.com", &Settings::default()).expect("encodable");
    assert_eq!(frame.image.width, frame.image.height);
    assert!(frame.image.width <= 360);
    assert!(frame.image.height <= 360);
    assert_eq!(frame.buffer.words.len(), (frame.image.width * frame.image.height) as usize);
    assert_eq!((frame.image.width, frame.image.height), (330, 330));
    assert_eq!((frame.buffer.width, frame.buffer.height), (330, 330));
    assert_eq!(frame.image.mode, ChannelMode::Luma);
}

#[test]
fn text_beyond_capacity_is_symbol_encoding_failure() {
    let text: String = (0..6000).map(|i| char::from(b'!' + (i * 7 % 90) as u8)).collect();
    let too_long = Error::SymbolEncodingFailure(EncodeFailure::DataTooLong);
    assert_eq!(prepare(&text, &Settings::default()).err(), Some(too_long));
    assert_eq!(
        prepare_with_order(&text, &Settings::default(), ByteOrder::BigEndian).err(),
        Some(too_long)
    );
    assert_eq!(too_long.message(), "data too long");
}

#[test]
fn same_text_and_mode_give_identical_buffers() {
    for mode in [ChannelMode::Luma, ChannelMode::Rgba] {
        let settings = Settings { max_width: 200, max_height: 300, mode };
        let first = prepare("determinism", &settings).expect("encodable");
        let second = prepare("determinism", &settings).expect("encodable");
        assert_eq!(first.buffer.words, second.buffer.words);
        assert_eq!(first.image.bytes, second.image.bytes);
        assert_eq!((first.buffer.width, first.buffer.height), (second.buffer.width, second.buffer.height));
    }
}

#[test]
fn different_texts_give_different_buffers() {
    let settings = Settings::default();
    let first = prepare("one text", &settings).expect("encodable");
    let second = prepare("another", &settings).expect("encodable");
    assert_ne!(first.buffer.words, second.buffer.words);
}

#[test]
fn prepared_buffer_unpacks_to_the_image() {
    for mode in [ChannelMode::Luma, ChannelMode::Rgba] {
        for order in [ByteOrder::LittleEndian, ByteOrder::BigEndian] {
            let settings = Settings { max_width: 120, max_height: 120, mode };
            let frame = prepare_with_order("pack and unpack", &settings, order).expect("encodable");
            assert_eq!(frame.buffer.words.len(), (frame.image.width * frame.image.height) as usize);
            let back = unpack(&frame.buffer, mode, order).expect("consistent");
            assert_eq!(back.bytes, frame.image.bytes);
            assert_eq!((back.width, back.height), (frame.image.width, frame.image.height));
        }
    }
}

#[test]
fn prepare_uses_the_byte_order_of_the_machine() {
    let settings = Settings { max_width: 100, max_height: 100, mode: ChannelMode::Rgba };
    let native = prepare("native", &settings).expect("encodable");
    let explicit = prepare_with_order("native", &settings, host_byte_order()).expect("encodable");
    assert_eq!(native.buffer.words, explicit.buffer.words);
    let expected: Vec<u32> = native
        .image
        .bytes
        .chunks(4)
        .map(|p| u32::from_ne_bytes([p[0], p[1], p[2], p[3]]))
        .collect();
    assert_eq!(native.buffer.words, expected);
}

#[test]
fn frame_of_renders_then_packs() {
    let matrix = ModuleMatrix::new(1, vec![true]).expect("well-formed");
    let settings = Settings { max_width: 9, max_height: 9, mode: ChannelMode::Luma };
    let frame = frame_of(&matrix, &settings, ByteOrder::LittleEndian);
    assert_eq!((frame.image.width, frame.image.height), (9, 9));
    let mut expected = vec![0xffff_ffffu32; 81];
    expected[40] = 0xff00_0000;
    assert_eq!(frame.buffer.words, expected);
}

#[test]
fn image_may_exceed_a_limit_that_is_too_small() {
    let settings = Settings { max_width: 10, max_height: 400, mode: ChannelMode::Luma };
    let frame = prepare("01234567", &settings).expect("encodable");
    assert_eq!((frame.image.width, frame.image.height), (29, 29));
    assert_eq!(frame.buffer.words.len(), 29 * 29);
}

#[test]
fn largest_encoded_symbol_fits_the_default_limits() {
    let text = "x".repeat(180);
    let frame = prepare(&text, &Settings::default()).expect("version 9 is made");
    assert_eq!(frame.image.width, frame.image.height);
    assert!(frame.image.width <= 360);
    assert_eq!(frame.image.width, 5 * 61);
    assert_eq!(frame.buffer.words.len(), 305 * 305);
}

#[test]
fn largest_matrix_fits_the_default_limits() {
    let matrix = ModuleMatrix::new(177, vec![true; 177 * 177]).expect("well-formed");
    let frame = frame_of(&matrix, &Settings::default(), ByteOrder::LittleEndian);
    assert_eq!((frame.image.width, frame.image.height), (185, 185));
    assert_eq!(frame.buffer.words.len(), 185 * 185);
}

#[test]
fn every_encoded_text_respects_limits_from_61_pixels_on() {
    let settings = Settings { max_width: 61, max_height: 80, mode: ChannelMode::Luma };
    for text in ["", "a", "https://example.com", &"x".repeat(180)] {
        let frame = prepare(text, &settings).expect("encodable");
        assert!(frame.image.width <= 61);
        assert!(frame.image.height <= 80);
        assert_eq!(frame.image.width, frame.image.height);
    }
}
