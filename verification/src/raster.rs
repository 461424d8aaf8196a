//! Rendering a symbol into a square raster of bytes.

use vstd::prelude::*;
use crate::symbol::{Grid, ModuleMatrix};
use image::{Luma, Rgba};
use qrcode::render::Renderer;
use qrcode::Color;

verus! {

/// The width of the light border around a symbol, in modules.
pub const QUIET_ZONE: u32 = 4;

/// The byte of a colour channel of a dark module.
pub const DARK: u8 = 0;

/// The byte of a colour channel of a light module, and of every alpha channel.
pub const LIGHT: u8 = 255;

/// How many bytes a pixel has.
#[derive(Clone, Copy, Debug, PartialEq, Eq, Structural)]
pub enum ChannelMode {
    /// One byte: the luminance.
    Luma,
    /// Four bytes: red, green, blue and alpha.
    Rgba,
}

impl ChannelMode {
    /// The number of bytes of one pixel.
    pub open spec fn channels(self) -> nat {
        match self {
            ChannelMode::Luma => 1,
            ChannelMode::Rgba => 4,
        }
    }

    /// The number of bytes of one pixel.
    pub fn channel_count(&self) -> (count: usize)
        ensures
            count == self.channels(),
    {
        match self {
            ChannelMode::Luma => 1,
            ChannelMode::Rgba => 4,
        }
    }
}

/// A raster image as a mathematical value.
pub struct Raster {
    /// The number of pixels in a row.
    pub width: nat,
    /// The number of rows.
    pub height: nat,
    /// How many bytes a pixel has.
    pub mode: ChannelMode,
    /// The bytes of the pixels, row after row from the top, each from the left.
    pub bytes: Seq<u8>,
}

impl Raster {
    /// There are exactly as many bytes as the dimensions and the mode ask for.
    pub open spec fn wf(self) -> bool {
        self.bytes.len() == self.width * self.height * self.mode.channels()
    }
}

/// A raster image: its dimensions, its mode, and the bytes of its pixels.
#[derive(Clone, Debug)]
pub struct RasterImage {
    /// The number of pixels in a row.
    pub width: u32,
    /// The number of rows.
    pub height: u32,
    /// How many bytes a pixel has.
    pub mode: ChannelMode,
    /// The bytes of the pixels, row after row from the top, each from the left.
    pub bytes: Vec<u8>,
}

impl View for RasterImage {
    type V = Raster;

    open spec fn view(&self) -> Raster {
        Raster {
            width: self.width as nat,
            height: self.height as nat,
            mode: self.mode,
            bytes: self.bytes@,
        }
    }
}

impl RasterImage {
    /// The image holds exactly the bytes of its pixels.
    pub open spec fn wf(&self) -> bool {
        self@.wf()
    }
}

/// The number of modules from one edge of the image to the other: the symbol
/// and the quiet zone on both sides.
pub open spec fn cells_across(side: nat, quiet: nat) -> nat {
    side + 2 * quiet
}

/// The number of pixels on each side of a module: as many as fit into `bound`
/// pixels across the whole image, and never less than one.
pub open spec fn unit_size(side: nat, quiet: nat, bound: nat) -> nat {
    let fit = bound / cells_across(side, quiet);
    if fit >= 1 {
        fit
    } else {
        1
    }
}

/// The number of pixels on each side of the image.
pub open spec fn raster_side(side: nat, quiet: nat, bound: nat) -> nat {
    cells_across(side, quiet) * unit_size(side, quiet, bound)
}

/// The number of bytes of the image.
pub open spec fn raster_len(side: nat, quiet: nat, bound: nat, mode: ChannelMode) -> nat {
    raster_side(side, quiet, bound) * raster_side(side, quiet, bound) * mode.channels()
}

/// Whether the pixel in column `x` of row `y` lies on a dark module, where a
/// module is `unit` pixels wide and high.
pub open spec fn pixel_is_dark(grid: Grid, quiet: nat, unit: nat, x: int, y: int) -> bool {
    grid.dark_at(x / (unit as int) - quiet, y / (unit as int) - quiet)
}

/// The byte of one channel of a pixel. The colour channels of a dark pixel are
/// black and those of a light one white; an alpha channel is fully opaque.
pub open spec fn channel_value(mode: ChannelMode, dark: bool, channel: int) -> u8 {
    if mode == ChannelMode::Rgba && channel == 3 {
        LIGHT
    } else if dark {
        DARK
    } else {
        LIGHT
    }
}

/// The byte at place `i` of the image of a grid.
pub open spec fn raster_byte(grid: Grid, quiet: nat, bound: nat, mode: ChannelMode, i: int) -> u8 {
    let across = raster_side(grid.side, quiet, bound) as int;
    let pixel = i / (mode.channels() as int);
    channel_value(
        mode,
        pixel_is_dark(grid, quiet, unit_size(grid.side, quiet, bound), pixel % across, pixel / across),
        i % (mode.channels() as int),
    )
}

/// The image of a grid: square, each module a square of `unit_size` pixels,
/// with the quiet zone around the symbol.
pub open spec fn raster_of(grid: Grid, quiet: nat, bound: nat, mode: ChannelMode) -> Raster {
    Raster {
        width: raster_side(grid.side, quiet, bound),
        height: raster_side(grid.side, quiet, bound),
        mode,
        bytes: Seq::new(
            raster_len(grid.side, quiet, bound, mode),
            |i: int| raster_byte(grid, quiet, bound, mode, i),
        ),
    }
}

/// What the renderer needs in order to finish: the modules fill their square,
/// the image has at least one pixel, its side fits a `u32`, and its bytes fit
/// a vector.
pub open spec fn can_build(grid: Grid, quiet: nat, bound: nat, mode: ChannelMode) -> bool {
    &&& grid.dark.len() == grid.side * grid.side
    &&& 1 <= cells_across(grid.side, quiet) <= u32::MAX
    &&& raster_side(grid.side, quiet, bound) <= u32::MAX
    &&& raster_len(grid.side, quiet, bound, mode) <= isize::MAX
}

/// `qrcode::render::Renderer::<image::Luma<u8>>`: `new` on the modules and the
/// quiet zone, `max_dimensions` with `bound` in both directions, and `build`;
/// then `width`, `height` and `into_raw` of the image that came out. The
/// contract states what the renderer's source does: a module is a square of
/// `unit_size` pixels, dark modules are 0 and everything else is 255.
#[verifier::external_body]
fn build_luma(dark: &Vec<bool>, side: usize, quiet: u32, bound: u32) -> (built: (u32, u32, Vec<u8>))
    requires
        can_build(Grid { side: side as nat, dark: dark@ }, quiet as nat, bound as nat, ChannelMode::Luma),
    ensures
        built.0 == raster_side(side as nat, quiet as nat, bound as nat),
        built.1 == raster_side(side as nat, quiet as nat, bound as nat),
        built.2@ == raster_of(
            Grid { side: side as nat, dark: dark@ },
            quiet as nat,
            bound as nat,
            ChannelMode::Luma,
        ).bytes,
{
    let colors: Vec<Color> = dark.iter().map(|d| match d {
        true => Color::Dark,
        false => Color::Light,
    }).collect();
    let image = Renderer::<Luma<u8>>::new(&colors, side, quiet).max_dimensions(bound, bound).build();
    (image.width(), image.height(), image.into_raw())
}

/// `qrcode::render::Renderer::<image::Rgba<u8>>`, called as for one channel.
/// The colour channels are as there and the fourth byte of every pixel is 255.
#[verifier::external_body]
fn build_rgba(dark: &Vec<bool>, side: usize, quiet: u32, bound: u32) -> (built: (u32, u32, Vec<u8>))
    requires
        can_build(Grid { side: side as nat, dark: dark@ }, quiet as nat, bound as nat, ChannelMode::Rgba),
    ensures
        built.0 == raster_side(side as nat, quiet as nat, bound as nat),
        built.1 == raster_side(side as nat, quiet as nat, bound as nat),
        built.2@ == raster_of(
            Grid { side: side as nat, dark: dark@ },
            quiet as nat,
            bound as nat,
            ChannelMode::Rgba,
        ).bytes,
{
    let colors: Vec<Color> = dark.iter().map(|d| match d {
        true => Color::Dark,
        false => Color::Light,
    }).collect();
    let image = Renderer::<Rgba<u8>>::new(&colors, side, quiet).max_dimensions(bound, bound).build();
    (image.width(), image.height(), image.into_raw())
}

/// Whether the image of a matrix under the two limits has few enough bytes
/// for a vector, as `render` requires.
pub fn can_render(matrix: &ModuleMatrix, max_width: u32, max_height: u32, mode: ChannelMode) -> (ok:
    bool)
    requires
        matrix.wf(),
    ensures
        ok == (raster_len(matrix@.side, QUIET_ZONE as nat, bound_of(max_width, max_height), mode)
            <= isize::MAX),
{
    let bound: u32 = if max_width <= max_height {
        max_width
    } else {
        max_height
    };
    let across: u32 = matrix.side as u32 + 2 * QUIET_ZONE;
    let fit: u32 = bound / across;
    let unit: u32 = if fit >= 1 {
        fit
    } else {
        1
    };
    proof {
        lemma_raster_side(matrix@.side, QUIET_ZONE as nat, bound as nat);
    }
    let side: u128 = across as u128 * unit as u128;
    let channels: u128 = mode.channel_count() as u128;
    assert(side * side * channels <= 0x1_0000_0000 * 0x1_0000_0000 * 4 && 0 <= side * side
        <= 0x1_0000_0000 * 0x1_0000_0000) by (nonlinear_arith)
        requires
            0 <= side <= 0xffff_ffff,
            0 <= channels <= 4,
    ;
    side * side * channels <= isize::MAX as u128
}

/// The smaller of the two limits: the image is square, so it must respect both.
pub open spec fn bound_of(max_width: u32, max_height: u32) -> nat {
    if max_width <= max_height {
        max_width as nat
    } else {
        max_height as nat
    }
}

/// The image never has more pixels across than the larger of the bound and
/// the number of modules across; it is made of whole modules.
pub proof fn lemma_raster_side(side: nat, quiet: nat, bound: nat)
    requires
        1 <= cells_across(side, quiet),
    ensures
        cells_across(side, quiet) <= raster_side(side, quiet, bound),
        cells_across(side, quiet) <= bound ==> raster_side(side, quiet, bound) <= bound,
        cells_across(side, quiet) > bound ==> raster_side(side, quiet, bound) == cells_across(
            side,
            quiet,
        ),
        raster_side(side, quiet, bound) % cells_across(side, quiet) == 0,
        unit_size(side, quiet, bound) >= 1,
{
    let across = cells_across(side, quiet) as int;
    let unit = unit_size(side, quiet, bound) as int;
    let b = bound as int;
    assert(across * (b / across) <= b && (b < across ==> b / across == 0) && (b >= across ==> b
        / across >= 1)) by (nonlinear_arith)
        requires
            across >= 1,
            b >= 0,
    ;
    assert(across * unit >= across && (across * unit) % across == 0) by (nonlinear_arith)
        requires
            across >= 1,
            unit >= 1,
    ;
}

/// Renders a symbol into a square image that is at most `max_width` wide and
/// `max_height` high, with a quiet zone of four modules on every side. Each
/// module becomes a square of as many whole pixels as fit, and of one pixel
/// where the symbol with its quiet zone has more modules than the limits have
/// pixels: the image is then larger than asked for.
pub fn render(matrix: &ModuleMatrix, max_width: u32, max_height: u32, mode: ChannelMode) -> (image:
    RasterImage)
    requires
        matrix.wf(),
        raster_len(matrix@.side, QUIET_ZONE as nat, bound_of(max_width, max_height), mode)
            <= isize::MAX,
    ensures
        image@ == raster_of(matrix@, QUIET_ZONE as nat, bound_of(max_width, max_height), mode),
        image.wf(),
        image.width == image.height,
        cells_across(matrix@.side, QUIET_ZONE as nat) <= bound_of(max_width, max_height) ==> (
        image.width <= max_width && image.height <= max_height),
{
    let bound = if max_width <= max_height {
        max_width
    } else {
        max_height
    };
    proof {
        lemma_raster_side(matrix@.side, QUIET_ZONE as nat, bound as nat);
    }
    let built = match mode {
        ChannelMode::Luma => build_luma(&matrix.dark, matrix.side, QUIET_ZONE, bound),
        ChannelMode::Rgba => build_rgba(&matrix.dark, matrix.side, QUIET_ZONE, bound),
    };
    RasterImage { width: built.0, height: built.1, mode, bytes: built.2 }
}

} // verus!
