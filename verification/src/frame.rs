//! From a text to the frame that the window shows: the rendered image and its
//! packed form.

use vstd::prelude::*;
use crate::error::Error;
use crate::pack::{lemma_unpack_pack, pack_with_order, packed_of, unpacked_of, PackedBuffer};
use crate::pixel::{host_byte_order, ByteOrder};
use crate::raster::{
    cells_across, lemma_raster_side, raster_len, raster_of, raster_side, render, ChannelMode,
    RasterImage, QUIET_ZONE,
};
use crate::symbol::{encode, encoded, Grid, ModuleMatrix};

verus! {

/// The largest width and height of the image, unless the caller says otherwise.
pub const MAX_DIMENSION: u32 = 360;

/// The number of modules across the largest symbol and its quiet zone.
pub const MAX_CELLS_ACROSS: u32 = 185;

/// The number of modules across the largest symbol that `encode` makes and
/// its quiet zone.
pub const MAX_ENCODED_ACROSS: u32 = 61;

/// What the caller decides about the image.
#[derive(Clone, Copy, Debug, PartialEq, Eq, Structural)]
pub struct Settings {
    /// The image is to be at most this wide, in pixels.
    pub max_width: u32,
    /// The image is to be at most this high, in pixels.
    pub max_height: u32,
    /// How many bytes a pixel of the image has.
    pub mode: ChannelMode,
}

/// The settings used where the caller gives none: at most 360 pixels in each
/// direction, one luminance byte per pixel.
pub open spec fn default_settings() -> Settings {
    Settings { max_width: MAX_DIMENSION, max_height: MAX_DIMENSION, mode: ChannelMode::Luma }
}

impl Settings {
    /// The limit on the side of the square image: the smaller of the two.
    pub open spec fn bound(self) -> nat {
        if self.max_width <= self.max_height {
            self.max_width as nat
        } else {
            self.max_height as nat
        }
    }

    /// The largest side that the image of any symbol can have under these
    /// settings.
    pub open spec fn largest_side(self) -> nat {
        if self.bound() >= MAX_CELLS_ACROSS {
            self.bound()
        } else {
            MAX_CELLS_ACROSS as nat
        }
    }

    /// The image of every symbol has few enough bytes for a vector.
    pub open spec fn fits(self) -> bool {
        self.largest_side() * self.largest_side() * self.mode.channels() <= isize::MAX
    }
}

impl Settings {
    /// Whether the image of every symbol has few enough bytes for a vector.
    pub fn fits_in_memory(&self) -> (fits: bool)
        ensures
            fits == self.fits(),
    {
        let bound: u32 = if self.max_width <= self.max_height {
            self.max_width
        } else {
            self.max_height
        };
        let most: u128 = if bound >= MAX_CELLS_ACROSS {
            bound as u128
        } else {
            MAX_CELLS_ACROSS as u128
        };
        let channels: u128 = self.mode.channel_count() as u128;
        assert(most * most * channels <= 0x1_0000_0000 * 0x1_0000_0000 * 4 && 0 <= most * most
            <= 0x1_0000_0000 * 0x1_0000_0000) by (nonlinear_arith)
            requires
                0 <= most <= 0xffff_ffff,
                0 <= channels <= 4,
        ;
        most * most * channels <= isize::MAX as u128
    }
}

impl Default for Settings {
    fn default() -> (settings: Settings)
        ensures
            settings == default_settings(),
            settings.fits(),
    {
        let settings = Settings {
            max_width: MAX_DIMENSION,
            max_height: MAX_DIMENSION,
            mode: ChannelMode::Luma,
        };
        proof {
            let side = settings.largest_side();
            assert(side == 360);
            assert(side * side * settings.mode.channels() == 129600) by (nonlinear_arith)
                requires
                    side == 360,
                    settings.mode.channels() == 1,
            ;
        }
        settings
    }
}

/// The image of a symbol and its packed form.
#[derive(Clone, Debug)]
pub struct Frame {
    /// The rendered image.
    pub image: RasterImage,
    /// The image, one word per pixel.
    pub buffer: PackedBuffer,
}

/// The frame is the one that the settings and the byte order give for a
/// symbol: its image is the symbol's raster and its buffer packs that image.
pub open spec fn is_frame_of(frame: Frame, grid: Grid, settings: Settings, order: ByteOrder) -> bool {
    &&& frame.image@ == raster_of(grid, QUIET_ZONE as nat, settings.bound(), settings.mode)
    &&& frame.buffer@ == packed_of(frame.image@, order)
}

/// The result is the one that the settings and the byte order give for a
/// text: the frame of its symbol, or the failure to encode it.
pub open spec fn is_prepared(
    prepared: Result<Frame, Error>,
    text: Seq<char>,
    settings: Settings,
    order: ByteOrder,
) -> bool {
    match encoded(text) {
        Ok(grid) => prepared matches Ok(frame) && is_frame_of(frame, grid, settings, order),
        Err(error) => prepared == Err::<Frame, Error>(error),
    }
}

/// Under settings that fit, the image of a well-formed symbol fits as well.
pub proof fn lemma_symbol_fits(grid: Grid, settings: Settings)
    requires
        grid.wf(),
        settings.fits(),
    ensures
        raster_side(grid.side, QUIET_ZONE as nat, settings.bound()) <= settings.largest_side(),
        raster_len(grid.side, QUIET_ZONE as nat, settings.bound(), settings.mode) <= isize::MAX,
{
    let side = raster_side(grid.side, QUIET_ZONE as nat, settings.bound()) as int;
    let most = settings.largest_side() as int;
    let channels = settings.mode.channels() as int;
    lemma_raster_side(grid.side, QUIET_ZONE as nat, settings.bound());
    assert(side * side * channels <= most * most * channels) by (nonlinear_arith)
        requires
            0 <= side <= most,
            channels >= 0,
    ;
}

/// Renders a symbol and packs the image in the given byte order.
pub fn frame_of(matrix: &ModuleMatrix, settings: &Settings, order: ByteOrder) -> (frame: Frame)
    requires
        matrix.wf(),
        settings.fits(),
    ensures
        is_frame_of(frame, matrix@, *settings, order),
        frame.image.wf(),
        frame.buffer.wf(),
        frame.image.width == frame.image.height,
        frame.buffer.width == frame.image.width,
        frame.buffer.height == frame.image.height,
        cells_across(matrix@.side, QUIET_ZONE as nat) <= settings.bound() ==> (frame.image.width
            <= settings.max_width && frame.image.height <= settings.max_height),
{
    proof {
        lemma_symbol_fits(matrix@, *settings);
    }
    let image = render(matrix, settings.max_width, settings.max_height, settings.mode);
    match pack_with_order(&image, order) {
        Ok(buffer) => Frame { image, buffer },
        Err(_) => vstd::pervasive::unreached(),
    }
}

/// Encodes a text, renders the symbol and packs the image in the given byte
/// order. The only failure is a text that cannot be encoded. The image of a
/// text respects both limits wherever they are at least `MAX_ENCODED_ACROSS`.
pub fn prepare_with_order(text: &str, settings: &Settings, order: ByteOrder) -> (prepared: Result<
    Frame,
    Error,
>)
    requires
        settings.fits(),
    ensures
        is_prepared(prepared, text@, *settings, order),
        prepared matches Ok(frame) ==> (frame.image.wf() && frame.buffer.wf() && frame.image.width
            == frame.image.height && frame.buffer.width == frame.image.width && frame.buffer.height
            == frame.image.height),
        prepared matches Ok(frame) ==> (MAX_ENCODED_ACROSS <= settings.bound() ==> frame.image.width
            <= settings.max_width && frame.image.height <= settings.max_height),
{
    match encode(text) {
        Ok(matrix) => Ok(frame_of(&matrix, settings, order)),
        Err(error) => Err(error),
    }
}

/// Encodes a text, renders the symbol and packs the image in the byte order
/// of the machine.
pub fn prepare(text: &str, settings: &Settings) -> (prepared: Result<Frame, Error>)
    requires
        settings.fits(),
    ensures
        is_prepared(prepared, text@, *settings, ByteOrder::LittleEndian) || is_prepared(
            prepared,
            text@,
            *settings,
            ByteOrder::BigEndian,
        ),
        prepared matches Ok(frame) ==> (frame.image.wf() && frame.buffer.wf() && frame.image.width
            == frame.image.height && frame.buffer.width == frame.image.width && frame.buffer.height
            == frame.image.height),
        prepared matches Ok(frame) ==> (MAX_ENCODED_ACROSS <= settings.bound() ==> frame.image.width
            <= settings.max_width && frame.image.height <= settings.max_height),
{
    prepare_with_order(text, settings, host_byte_order())
}

/// The frame of a well-formed symbol: the image is square and holds exactly
/// the bytes of its pixels, it respects both limits wherever the symbol with
/// its quiet zone has no more modules than the limits have pixels, the buffer
/// has one word per pixel, and unpacking the buffer gives the image back.
pub proof fn lemma_frame_round_trip(frame: Frame, grid: Grid, settings: Settings, order: ByteOrder)
    requires
        grid.wf(),
        is_frame_of(frame, grid, settings, order),
    ensures
        frame.image@.wf(),
        frame.image@.width == frame.image@.height,
        cells_across(grid.side, QUIET_ZONE as nat) <= settings.bound() ==> (frame.image@.width
            <= settings.max_width && frame.image@.height <= settings.max_height),
        frame.buffer@.words.len() == frame.image@.width * frame.image@.height,
        unpacked_of(frame.buffer@, settings.mode, order) == frame.image@,
{
    lemma_raster_side(grid.side, QUIET_ZONE as nat, settings.bound());
    lemma_unpack_pack(frame.image@, order);
}

/// The same text under the same settings and byte order always gives the same
/// result: two frames with equal images and equal buffers, or the same error.
pub proof fn lemma_prepare_deterministic(
    first: Result<Frame, Error>,
    second: Result<Frame, Error>,
    text: Seq<char>,
    settings: Settings,
    order: ByteOrder,
)
    requires
        is_prepared(first, text, settings, order),
        is_prepared(second, text, settings, order),
    ensures
        first is Ok <==> second is Ok,
        first is Err ==> first == second,
        first is Ok ==> (first->Ok_0.image@ == second->Ok_0.image@ && first->Ok_0.buffer@
            == second->Ok_0.buffer@),
{
}

} // verus!
