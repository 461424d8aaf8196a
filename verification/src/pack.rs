//! Packing a raster into one 32-bit word per pixel, and back.

use vstd::prelude::*;
use crate::error::Error;
use crate::pixel::{
    bytes_of, grey_bytes, host_byte_order, lemma_unpack_pack_pixel, pack_grey, pack_pixel,
    unpack_pixel, word_of, ByteOrder,
};
use crate::raster::{ChannelMode, Raster, RasterImage};

verus! {

/// A packed image as a mathematical value.
pub struct Packed {
    /// The number of pixels in a row.
    pub width: nat,
    /// The number of rows.
    pub height: nat,
    /// One word per pixel, row after row from the top, each from the left.
    pub words: Seq<u32>,
}

impl Packed {
    /// There is exactly one word per pixel.
    pub open spec fn wf(self) -> bool {
        self.words.len() == self.width * self.height
    }
}

/// An image with one 32-bit word per pixel, as a display surface takes it.
#[derive(Clone, Debug)]
pub struct PackedBuffer {
    /// The number of pixels in a row.
    pub width: u32,
    /// The number of rows.
    pub height: u32,
    /// One word per pixel, row after row from the top, each from the left.
    pub words: Vec<u32>,
}

impl View for PackedBuffer {
    type V = Packed;

    open spec fn view(&self) -> Packed {
        Packed { width: self.width as nat, height: self.height as nat, words: self.words@ }
    }
}

impl PackedBuffer {
    /// The buffer holds exactly one word per pixel.
    pub open spec fn wf(&self) -> bool {
        self@.wf()
    }
}

/// The four bytes that pixel `i` of an image is packed from: a grey pixel for
/// a luminance byte, and the pixel's own four bytes in RGBA mode.
pub open spec fn pixel_bytes(image: Raster, i: int) -> Seq<u8> {
    match image.mode {
        ChannelMode::Luma => grey_bytes(image.bytes[i]),
        ChannelMode::Rgba => image.bytes.subrange(4 * i, 4 * i + 4),
    }
}

/// The packed form of an image in the given byte order.
pub open spec fn packed_of(image: Raster, order: ByteOrder) -> Packed {
    Packed {
        width: image.width,
        height: image.height,
        words: Seq::new(image.width * image.height, |i: int| word_of(order, pixel_bytes(image, i))),
    }
}

/// The image that a packed image holds: of each word, the first byte in
/// luminance mode and all four bytes in RGBA mode.
pub open spec fn unpacked_of(packed: Packed, mode: ChannelMode, order: ByteOrder) -> Raster {
    Raster {
        width: packed.width,
        height: packed.height,
        mode,
        bytes: Seq::new(
            packed.width * packed.height * mode.channels(),
            |j: int|
                bytes_of(order, packed.words[j / (mode.channels() as int)])[j % (
                mode.channels() as int)],
        ),
    }
}

/// Packs an image in the given byte order. An image whose byte count does not
/// match its dimensions is refused, never cut short.
pub fn pack_with_order(image: &RasterImage, order: ByteOrder) -> (packed: Result<
    PackedBuffer,
    Error,
>)
    ensures
        image.wf() ==> (packed matches Ok(buffer) && buffer@ == packed_of(image@, order)
            && buffer.wf()),
        !image.wf() ==> packed == Err::<PackedBuffer, Error>(Error::PixelConsistencyError),
{
    let channels = image.mode.channel_count();
    let width = image.width;
    let height = image.height;
    assert(width * height * channels <= 0x1_0000_0000 * 0x1_0000_0000 * 4) by (nonlinear_arith)
        requires
            0 <= width <= 0xffff_ffff,
            0 <= height <= 0xffff_ffff,
            0 <= channels <= 4,
    ;
    assert(0 <= width * height <= 0x1_0000_0000 * 0x1_0000_0000) by (nonlinear_arith)
        requires
            0 <= width <= 0xffff_ffff,
            0 <= height <= 0xffff_ffff,
    ;
    let expected: u128 = (width as u128) * (height as u128) * (channels as u128);
    if image.bytes.len() as u128 != expected {
        return Err(Error::PixelConsistencyError);
    }
    let count: usize = image.bytes.len() / channels;
    assert(count == width * height) by (nonlinear_arith)
        requires
            count == (width * height * channels) / (channels as int),
            channels >= 1,
    ;
    let mut words: Vec<u32> = Vec::new();
    let mut i: usize = 0;
    while i < count
        invariant
            i <= count,
            count == width * height,
            width == image.width,
            height == image.height,
            channels == image.mode.channels(),
            image.bytes.len() == count * channels,
            words@.len() == i,
            forall|k: int| 0 <= k < i ==> words@[k] == word_of(order, pixel_bytes(image@, k)),
        decreases count - i,
    {
        let word = match image.mode {
            ChannelMode::Luma => pack_grey(order, image.bytes[i]),
            ChannelMode::Rgba => {
                assert(4 * i + 4 <= image.bytes.len()) by (nonlinear_arith)
                    requires
                        i < count,
                        channels == 4,
                        image.bytes.len() == count * channels,
                ;
                let at: usize = 4 * i;
                let bytes: [u8; 4] = [
                    image.bytes[at],
                    image.bytes[at + 1],
                    image.bytes[at + 2],
                    image.bytes[at + 3],
                ];
                proof {
                    assert(bytes@ =~= pixel_bytes(image@, i as int));
                }
                pack_pixel(order, bytes)
            },
        };
        words.push(word);
        i += 1;
    }
    let packed = PackedBuffer { width, height, words };
    proof {
        assert(packed@.words =~= packed_of(image@, order).words);
    }
    Ok(packed)
}

/// Packs an image in the byte order of the machine, for a display surface of
/// the same machine. Which order that is, is found when the function runs.
pub fn pack(image: &RasterImage) -> (packed: Result<PackedBuffer, Error>)
    ensures
        image.wf() ==> (packed matches Ok(buffer) && buffer.wf() && (buffer@ == packed_of(
            image@,
            ByteOrder::LittleEndian,
        ) || buffer@ == packed_of(image@, ByteOrder::BigEndian))),
        !image.wf() ==> packed == Err::<PackedBuffer, Error>(Error::PixelConsistencyError),
{
    pack_with_order(image, host_byte_order())
}

/// Takes a packed image apart into the bytes of its pixels. A buffer whose
/// word count does not match its dimensions is refused.
pub fn unpack(buffer: &PackedBuffer, mode: ChannelMode, order: ByteOrder) -> (image: Result<
    RasterImage,
    Error,
>)
    ensures
        buffer.wf() ==> (image matches Ok(raster) && raster@ == unpacked_of(buffer@, mode, order)
            && raster.wf()),
        !buffer.wf() ==> image == Err::<RasterImage, Error>(Error::PixelConsistencyError),
{
    let width = buffer.width;
    let height = buffer.height;
    assert(0 <= width * height <= 0x1_0000_0000 * 0x1_0000_0000) by (nonlinear_arith)
        requires
            0 <= width <= 0xffff_ffff,
            0 <= height <= 0xffff_ffff,
    ;
    let expected: u128 = (width as u128) * (height as u128);
    if buffer.words.len() as u128 != expected {
        return Err(Error::PixelConsistencyError);
    }
    let count: usize = buffer.words.len();
    let ghost channels = mode.channels() as int;
    let mut bytes: Vec<u8> = Vec::new();
    let mut i: usize = 0;
    while i < count
        invariant
            i <= count,
            count == buffer.words@.len(),
            channels == mode.channels(),
            bytes@.len() == i * channels,
            forall|j: int|
                0 <= j < i * channels ==> bytes@[j] == bytes_of(order, buffer.words@[j / channels])[j
                    % channels],
        decreases count - i,
    {
        let four = unpack_pixel(order, buffer.words[i]);
        let ghost before = bytes@;
        match mode {
            ChannelMode::Luma => {
                bytes.push(four[0]);
            },
            ChannelMode::Rgba => {
                bytes.push(four[0]);
                bytes.push(four[1]);
                bytes.push(four[2]);
                bytes.push(four[3]);
            },
        }
        proof {
            assert forall|j: int| 0 <= j < (i + 1) * channels implies bytes@[j] == bytes_of(
                order,
                buffer.words@[j / channels],
            )[j % channels] by {
                if j < i * channels {
                    assert(bytes@[j] == before[j]);
                } else {
                    assert(j / channels == i && j % channels == j - i * channels)
                        by (nonlinear_arith)
                        requires
                            i * channels <= j < (i + 1) * channels,
                            channels == 1 || channels == 4,
                    ;
                }
            }
        }
        i += 1;
    }
    let raster = RasterImage { width, height, mode, bytes };
    proof {
        assert(count * channels == width * height * channels) by (nonlinear_arith)
            requires
                count == width * height,
        ;
        assert(raster@.bytes =~= unpacked_of(buffer@, mode, order).bytes);
    }
    Ok(raster)
}

/// Packing and then unpacking an image gives the image back, whatever the
/// mode and the byte order.
pub proof fn lemma_unpack_pack(image: Raster, order: ByteOrder)
    requires
        image.wf(),
    ensures
        packed_of(image, order).wf(),
        unpacked_of(packed_of(image, order), image.mode, order) == image,
{
    let packed = packed_of(image, order);
    let back = unpacked_of(packed, image.mode, order);
    let channels = image.mode.channels() as int;
    assert forall|j: int| 0 <= j < back.bytes.len() implies back.bytes[j] == image.bytes[j] by {
        let i = j / channels;
        assert(0 <= i < image.width * image.height && j == i * channels + j % channels && 0 <= j
            % channels < channels) by (nonlinear_arith)
            requires
                0 <= j < image.width * image.height * channels,
                i == j / channels,
                channels == 1 || channels == 4,
        ;
        lemma_pixel_bytes(image, i);
        lemma_unpack_pack_pixel(order, pixel_bytes(image, i));
    }
    assert(back.bytes =~= image.bytes);
}

/// The four bytes of a pixel of a well-formed image.
pub proof fn lemma_pixel_bytes(image: Raster, i: int)
    requires
        image.wf(),
        0 <= i < image.width * image.height,
    ensures
        pixel_bytes(image, i).len() == 4,
        image.mode == ChannelMode::Luma ==> pixel_bytes(image, i) == grey_bytes(image.bytes[i]),
        image.mode == ChannelMode::Rgba ==> (forall|c: int|
            0 <= c < 4 ==> #[trigger] pixel_bytes(image, i)[c] == image.bytes[4 * i + c]),
        forall|c: int|
            0 <= c < image.mode.channels() ==> #[trigger] pixel_bytes(image, i)[c] == image.bytes[i
                * image.mode.channels() + c],
{
}

/// In luminance mode every packed word unpacks to three colour bytes equal to
/// the pixel's luminance and an alpha byte of 255.
pub proof fn lemma_luma_words(image: Raster, order: ByteOrder, i: int)
    requires
        image.wf(),
        image.mode == ChannelMode::Luma,
        0 <= i < image.width * image.height,
    ensures
        bytes_of(order, packed_of(image, order).words[i]) == grey_bytes(image.bytes[i]),
        bytes_of(order, packed_of(image, order).words[i])[0] == image.bytes[i],
        bytes_of(order, packed_of(image, order).words[i])[1] == image.bytes[i],
        bytes_of(order, packed_of(image, order).words[i])[2] == image.bytes[i],
        bytes_of(order, packed_of(image, order).words[i])[3] == 255,
{
    lemma_pixel_bytes(image, i);
    lemma_unpack_pack_pixel(order, pixel_bytes(image, i));
}

/// In RGBA mode every packed word unpacks to the four bytes of its pixel, in
/// the order in which the image holds them.
pub proof fn lemma_rgba_words(image: Raster, order: ByteOrder, i: int)
    requires
        image.wf(),
        image.mode == ChannelMode::Rgba,
        0 <= i < image.width * image.height,
    ensures
        bytes_of(order, packed_of(image, order).words[i]) == image.bytes.subrange(4 * i, 4 * i + 4),
        forall|c: int|
            0 <= c < 4 ==> #[trigger] bytes_of(order, packed_of(image, order).words[i])[c]
                == image.bytes[4 * i + c],
{
    lemma_pixel_bytes(image, i);
    lemma_unpack_pack_pixel(order, pixel_bytes(image, i));
}

} // verus!
