//! One pixel as four bytes, and as the 32-bit word a display surface takes.

use vstd::prelude::*;

verus! {

/// The order in which the four bytes of a pixel are laid out in its word.
#[derive(Clone, Copy, Debug, PartialEq, Eq, Structural)]
pub enum ByteOrder {
    /// The first byte is the least significant one.
    LittleEndian,
    /// The first byte is the most significant one.
    BigEndian,
}

/// The value of four bytes read as a base-256 number, `b0` being the lowest digit.
pub open spec fn base256(b0: u8, b1: u8, b2: u8, b3: u8) -> int {
    b0 + 0x100 * b1 + 0x1_0000 * b2 + 0x100_0000 * b3
}

/// The word that holds `bytes` (of length four) in the given order.
pub open spec fn word_of(order: ByteOrder, bytes: Seq<u8>) -> u32
    recommends
        bytes.len() == 4,
{
    match order {
        ByteOrder::LittleEndian => base256(bytes[0], bytes[1], bytes[2], bytes[3]) as u32,
        ByteOrder::BigEndian => base256(bytes[3], bytes[2], bytes[1], bytes[0]) as u32,
    }
}

/// The four bytes that `word` holds, in the given order.
pub open spec fn bytes_of(order: ByteOrder, word: u32) -> Seq<u8> {
    let d0 = (word % 0x100) as u8;
    let d1 = (word / 0x100 % 0x100) as u8;
    let d2 = (word / 0x1_0000 % 0x100) as u8;
    let d3 = (word / 0x100_0000) as u8;
    match order {
        ByteOrder::LittleEndian => seq![d0, d1, d2, d3],
        ByteOrder::BigEndian => seq![d3, d2, d1, d0],
    }
}

/// Packs the four bytes of one pixel into a word.
pub fn pack_pixel(order: ByteOrder, bytes: [u8; 4]) -> (word: u32)
    ensures
        word == word_of(order, bytes@),
{
    let b0: u32 = bytes[0] as u32;
    let b1: u32 = bytes[1] as u32;
    let b2: u32 = bytes[2] as u32;
    let b3: u32 = bytes[3] as u32;
    match order {
        ByteOrder::LittleEndian => b0 + 0x100 * b1 + 0x1_0000 * b2 + 0x100_0000 * b3,
        ByteOrder::BigEndian => b3 + 0x100 * b2 + 0x1_0000 * b1 + 0x100_0000 * b0,
    }
}

/// Splits a word into the four bytes of its pixel.
pub fn unpack_pixel(order: ByteOrder, word: u32) -> (bytes: [u8; 4])
    ensures
        bytes@ == bytes_of(order, word),
{
    let d0: u8 = (word % 0x100) as u8;
    let d1: u8 = (word / 0x100 % 0x100) as u8;
    let d2: u8 = (word / 0x1_0000 % 0x100) as u8;
    let d3: u8 = (word / 0x100_0000) as u8;
    match order {
        ByteOrder::LittleEndian => [d0, d1, d2, d3],
        ByteOrder::BigEndian => [d3, d2, d1, d0],
    }
}

/// The bytes whose word tells the two orders apart.
pub open spec fn probe_bytes() -> Seq<u8> {
    seq![1u8, 0u8, 0u8, 0u8]
}

/// `u32::from_ne_bytes`: the word that the machine reads from four bytes in memory.
/// Which of the two orders the machine uses is not known to the proof, so the
/// contract only says that it is one of them.
#[verifier::external_body]
fn word_in_memory(bytes: [u8; 4]) -> (word: u32)
    ensures
        word == word_of(ByteOrder::LittleEndian, bytes@) || word == word_of(
            ByteOrder::BigEndian,
            bytes@,
        ),
{
    u32::from_ne_bytes(bytes)
}

/// The order under which the probe bytes read as `probe`.
pub fn order_of_probe(probe: u32) -> (order: ByteOrder)
    ensures
        order == if probe == word_of(ByteOrder::LittleEndian, probe_bytes()) {
            ByteOrder::LittleEndian
        } else {
            ByteOrder::BigEndian
        },
        probe == 1 <==> order == ByteOrder::LittleEndian,
{
    if probe == 1 {
        ByteOrder::LittleEndian
    } else {
        ByteOrder::BigEndian
    }
}

/// The byte order of the machine this runs on, found by reading a probe word
/// from memory. The answer depends on the machine, so nothing is promised of it.
pub fn host_byte_order() -> ByteOrder {
    let probe = word_in_memory([1, 0, 0, 0]);
    order_of_probe(probe)
}

/// The four bytes of a grey pixel: the luminance three times, then full opacity.
pub open spec fn grey_bytes(luminance: u8) -> Seq<u8> {
    seq![luminance, luminance, luminance, 255u8]
}

/// Packs one grey pixel of the given luminance.
pub fn pack_grey(order: ByteOrder, luminance: u8) -> (word: u32)
    ensures
        word == word_of(order, grey_bytes(luminance)),
{
    let word = pack_pixel(order, [luminance, luminance, luminance, 255]);
    proof {
        assert([luminance, luminance, luminance, 255u8]@ =~= grey_bytes(luminance));
    }
    word
}

/// The digits of a base-256 number are the bytes it was made of.
proof fn lemma_base256_digits(b0: u8, b1: u8, b2: u8, b3: u8)
    ensures
        0 <= base256(b0, b1, b2, b3) <= u32::MAX,
        base256(b0, b1, b2, b3) % 0x100 == b0,
        base256(b0, b1, b2, b3) / 0x100 % 0x100 == b1,
        base256(b0, b1, b2, b3) / 0x1_0000 % 0x100 == b2,
        base256(b0, b1, b2, b3) / 0x100_0000 == b3,
{
    let w = base256(b0, b1, b2, b3);
    assert(w == b0 + 0x100 * (b1 + 0x100 * (b2 + 0x100 * b3)));
    assert(w / 0x100 == b1 + 0x100 * (b2 + 0x100 * b3));
    assert(w / 0x1_0000 == b2 + 0x100 * b3);
}

/// A word is the base-256 number of its own digits.
proof fn lemma_digits_base256(word: u32)
    ensures
        base256(
            (word % 0x100) as u8,
            (word / 0x100 % 0x100) as u8,
            (word / 0x1_0000 % 0x100) as u8,
            (word / 0x100_0000) as u8,
        ) == word,
{
    let q1 = word / 0x100;
    let q2 = word / 0x1_0000;
    let q3 = word / 0x100_0000;
    assert(q2 == q1 / 0x100);
    assert(q3 == q2 / 0x100);
    assert(word == word % 0x100 + 0x100 * q1);
    assert(q1 == q1 % 0x100 + 0x100 * q2);
    assert(q2 == q2 % 0x100 + 0x100 * q3);
}

/// Unpacking a packed pixel gives back its four bytes, in either order.
pub proof fn lemma_unpack_pack_pixel(order: ByteOrder, bytes: Seq<u8>)
    requires
        bytes.len() == 4,
    ensures
        bytes_of(order, word_of(order, bytes)) == bytes,
{
    lemma_base256_digits(bytes[0], bytes[1], bytes[2], bytes[3]);
    lemma_base256_digits(bytes[3], bytes[2], bytes[1], bytes[0]);
    assert(bytes_of(order, word_of(order, bytes)) =~= bytes);
}

/// Packing the bytes of a word gives back the word, in either order.
pub proof fn lemma_pack_unpack_pixel(order: ByteOrder, word: u32)
    ensures
        bytes_of(order, word).len() == 4,
        word_of(order, bytes_of(order, word)) == word,
{
    lemma_digits_base256(word);
}

/// A packed grey pixel unpacks to three equal colour bytes and an alpha byte of
/// 255; in little-endian order the alpha byte is the top byte of the word.
pub proof fn lemma_grey_word(order: ByteOrder, luminance: u8)
    ensures
        bytes_of(order, word_of(order, grey_bytes(luminance))) == grey_bytes(luminance),
        word_of(ByteOrder::LittleEndian, grey_bytes(luminance)) / 0x100_0000 == 255,
        word_of(ByteOrder::BigEndian, grey_bytes(luminance)) % 0x100 == 255,
{
    lemma_unpack_pack_pixel(order, grey_bytes(luminance));
    lemma_base256_digits(luminance, luminance, luminance, 255);
    lemma_base256_digits(255, luminance, luminance, luminance);
}

} // verus!
