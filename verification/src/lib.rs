//! Turns a piece of text into a QR code image that is ready to be shown in a
//! window: the symbol is encoded, rendered into a square raster, and packed
//! into one 32-bit word per pixel.

pub mod error;
pub mod frame;
pub mod input;
pub mod pack;
pub mod pixel;
pub mod raster;
pub mod symbol;
pub mod window;
