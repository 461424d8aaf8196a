//! The QR symbol of a text, as a square grid of dark and light modules.

use vstd::prelude::*;
use crate::error::{EncodeFailure, Error};
use qrcode::bits::encode_auto;
use qrcode::types::{EcLevel, QrError, Version};
use qrcode::Color;
use qrcode::QrCode;

verus! {

/// The side of the smallest QR symbol, in modules.
pub const MIN_SYMBOL_SIDE: usize = 21;

/// The side of the largest QR symbol, in modules.
pub const MAX_SYMBOL_SIDE: usize = 177;

/// The version of the largest symbol that `encode` makes.
pub const MAX_ENCODED_VERSION: usize = 9;

/// The side of the largest symbol that `encode` makes, in modules.
pub const MAX_ENCODED_SIDE: usize = 53;

/// The error that the encoder reports: one of five reasons, without fields.
#[verifier::external_type_specification]
pub struct ExQrError(QrError);

/// A square grid of modules, as a mathematical value.
pub struct Grid {
    /// The number of modules on each side.
    pub side: nat,
    /// Row after row from the top, each from the left: whether the module is dark.
    pub dark: Seq<bool>,
}

impl Grid {
    /// Every row is there in full, and the side is that of some grid up to the
    /// largest symbol.
    pub open spec fn wf(self) -> bool {
        &&& 1 <= self.side <= MAX_SYMBOL_SIDE
        &&& self.dark.len() == self.side * self.side
    }

    /// Whether the module in column `x` of row `y` is dark. Outside the grid
    /// nothing is dark.
    pub open spec fn dark_at(self, x: int, y: int) -> bool {
        &&& 0 <= x < self.side
        &&& 0 <= y < self.side
        &&& self.dark[y * self.side + x]
    }
}

/// The modules of a QR symbol, without the quiet zone around them.
#[derive(Clone, Debug)]
pub struct ModuleMatrix {
    /// The number of modules on each side.
    pub side: usize,
    /// Row after row from the top, each from the left: whether the module is dark.
    pub dark: Vec<bool>,
}

impl View for ModuleMatrix {
    type V = Grid;

    open spec fn view(&self) -> Grid {
        Grid { side: self.side as nat, dark: self.dark@ }
    }
}

impl ModuleMatrix {
    /// The matrix holds a well-formed grid.
    pub open spec fn wf(&self) -> bool {
        self@.wf()
    }

    /// Makes a matrix of the given side from its modules, row after row. The
    /// side must be between one and that of the largest symbol, and the
    /// modules must fill the square exactly.
    pub fn new(side: usize, dark: Vec<bool>) -> (made: Option<ModuleMatrix>)
        ensures
            (Grid { side: side as nat, dark: dark@ }).wf() ==> (made matches Some(m) && m.side == side
                && m.dark == dark && m.wf()),
            !(Grid { side: side as nat, dark: dark@ }).wf() ==> made is None,
    {
        if side < 1 || side > MAX_SYMBOL_SIDE {
            return None;
        }
        assert(side * side <= 177 * 177) by (nonlinear_arith)
            requires
                1 <= side <= 177,
        ;
        if dark.len() != side * side {
            return None;
        }
        Some(ModuleMatrix { side, dark })
    }

    /// Whether the matrix holds a well-formed grid.
    pub fn is_well_formed(&self) -> (well_formed: bool)
        ensures
            well_formed == self.wf(),
    {
        if self.side < 1 || self.side > MAX_SYMBOL_SIDE {
            return false;
        }
        assert(self.side * self.side <= 177 * 177) by (nonlinear_arith)
            requires
                1 <= self.side <= 177,
        ;
        self.dark.len() == self.side * self.side
    }

    /// The number of modules on each side.
    pub fn side(&self) -> (side: usize)
        ensures
            side == self@.side,
    {
        self.side
    }

    /// Whether the module in column `x` of row `y` is dark; outside the matrix
    /// nothing is.
    pub fn is_dark(&self, x: usize, y: usize) -> (dark: bool)
        requires
            self.wf(),
        ensures
            dark == self@.dark_at(x as int, y as int),
    {
        if x >= self.side || y >= self.side {
            return false;
        }
        let side = self.side;
        assert(0 <= y * side && y * side + x < side * side && side * side <= 177 * 177)
            by (nonlinear_arith)
            requires
                x < side,
                y < side,
                side <= 177,
        ;
        self.dark[y * side + x]
    }
}

/// The side of a symbol of the given version, in modules.
pub open spec fn side_of_version(version: nat) -> nat {
    4 * version + 17
}

/// The library's word for a reason that the encoder gives.
pub open spec fn failure_of(error: QrError) -> EncodeFailure {
    match error {
        QrError::DataTooLong => EncodeFailure::DataTooLong,
        QrError::InvalidVersion => EncodeFailure::InvalidVersion,
        QrError::UnsupportedCharacterSet => EncodeFailure::UnsupportedCharacterSet,
        QrError::InvalidEciDesignator => EncodeFailure::InvalidEciDesignator,
        QrError::InvalidCharacter => EncodeFailure::InvalidCharacter,
    }
}

/// The library's word for a reason that the encoder gives.
pub fn failure_from(error: QrError) -> (failure: EncodeFailure)
    ensures
        failure == failure_of(error),
{
    match error {
        QrError::DataTooLong => EncodeFailure::DataTooLong,
        QrError::InvalidVersion => EncodeFailure::InvalidVersion,
        QrError::UnsupportedCharacterSet => EncodeFailure::UnsupportedCharacterSet,
        QrError::InvalidEciDesignator => EncodeFailure::InvalidEciDesignator,
        QrError::InvalidCharacter => EncodeFailure::InvalidCharacter,
    }
}

/// The version of the smallest symbol that holds a text, as the encoder finds
/// it before it draws anything, or its reason where no symbol holds the text.
/// It is a function of the text alone.
pub uninterp spec fn symbol_version(text: Seq<char>) -> Result<nat, QrError>;

/// The symbol that the encoder makes of a text, or its reason where it makes
/// none. The encoder is a function of the text alone.
pub uninterp spec fn symbol_grid(text: Seq<char>) -> Result<Grid, QrError>;

/// The version that an outcome of the encoder's first step holds.
pub open spec fn version_in(outcome: Result<usize, QrError>) -> Result<nat, QrError> {
    match outcome {
        Ok(version) => Ok(version as nat),
        Err(error) => Err(error),
    }
}

/// The symbol that an outcome of the encoder holds.
pub open spec fn grid_in(outcome: Result<ModuleMatrix, QrError>) -> Result<Grid, QrError> {
    match outcome {
        Ok(matrix) => Ok(matrix@),
        Err(error) => Err(error),
    }
}

/// `qrcode::bits::encode_auto` at the medium error correction level, then
/// `version` on the bits it made. This is the first step of `QrCode::new`: it
/// splits the text into segments and picks the smallest version that holds
/// them, and draws nothing. The contract names the version, and claims of it
/// what the source shows: it is that of a full QR symbol, from 1 to 40.
#[verifier::external_body]
fn plan_version(text: &str) -> (outcome: Result<usize, QrError>)
    ensures
        version_in(outcome) == symbol_version(text@),
        outcome matches Ok(version) ==> 1 <= version <= 40,
{
    let bits = encode_auto(text.as_bytes(), EcLevel::M)?;
    match bits.version() {
        Version::Normal(version) => Ok(version as usize),
        Version::Micro(version) => Ok(version as usize),
    }
}

/// `qrcode::QrCode::new`, followed by `width` and `into_colors` on the symbol it
/// made. The contract names the symbol that comes out, and claims of it what
/// the encoder's source shows: its side is that of its version, and the
/// colours fill the square.
///
/// The call is kept to versions up to 9, because the encoder adds up the
/// score of each of the eight masks in a `u16`, which must not pass 65,535.
/// On a symbol of side `w` the score is at most the sum of these: `w * w` for
/// the runs in each of the two directions, since the runs of a line score no
/// more than the line is long; `3 * (w - 1) * (w - 1)` for the blocks of two
/// by two; `40 * w * ((w - 7) / 4 + 1) - 360` for the finder-like patterns in
/// each of the two directions, since two such patterns in a line start at
/// least four modules apart; and 100 for the balance. For version 9, where
/// `w` is 53, that is 2,809 + 2,809 + 8,112 + 25,080 + 25,080 + 100 = 63,990.
/// For version 10, where `w` is 57, the same sum is 74,566, so nothing here
/// shows that the score of every symbol of that version stays in range.
#[verifier::external_body]
fn encode_symbol(text: &str) -> (outcome: Result<ModuleMatrix, QrError>)
    requires
        symbol_version(text@) matches Ok(version) && version <= MAX_ENCODED_VERSION,
    ensures
        grid_in(outcome) == symbol_grid(text@),
        outcome matches Ok(matrix) ==> matrix.wf(),
        outcome matches Ok(matrix) ==> (symbol_version(text@) matches Ok(version) && matrix.side
            == side_of_version(version)),
{
    let code = QrCode::new(text)?;
    let side = code.width();
    let dark = code.into_colors().into_iter().map(|c| match c {
        Color::Dark => true,
        Color::Light => false,
    }).collect();
    Ok(ModuleMatrix { side, dark })
}

/// What the library makes of an outcome of the encoder: the matrix, or the
/// encoder's reason as an error of the library.
pub open spec fn symbol_result(outcome: Result<ModuleMatrix, QrError>) -> Result<
    ModuleMatrix,
    Error,
> {
    match outcome {
        Ok(matrix) => Ok(matrix),
        Err(error) => Err(Error::SymbolEncodingFailure(failure_of(error))),
    }
}

/// Takes the outcome of the encoder: a symbol is handed on, and the encoder's
/// reason for making none becomes a `SymbolEncodingFailure` with that reason.
pub fn symbol_from(outcome: Result<ModuleMatrix, QrError>) -> (symbol: Result<ModuleMatrix, Error>)
    ensures
        symbol == symbol_result(outcome),
{
    match outcome {
        Ok(matrix) => Ok(matrix),
        Err(error) => Err(Error::SymbolEncodingFailure(failure_from(error))),
    }
}

/// Whether the library makes a symbol of the version that the encoder found
/// for a text: versions up to `MAX_ENCODED_VERSION` are made, and a text that
/// needs a larger one is too long.
pub open spec fn version_result(outcome: Result<usize, QrError>) -> Result<usize, Error> {
    match outcome {
        Ok(version) => if version <= MAX_ENCODED_VERSION {
            Ok(version)
        } else {
            Err(Error::SymbolEncodingFailure(EncodeFailure::DataTooLong))
        },
        Err(error) => Err(Error::SymbolEncodingFailure(failure_of(error))),
    }
}

/// Takes the outcome of the encoder's first step: a version that the library
/// makes is handed on; a larger one, and the encoder's own reason where it has
/// none, become a `SymbolEncodingFailure`.
pub fn version_from(outcome: Result<usize, QrError>) -> (version: Result<usize, Error>)
    ensures
        version == version_result(outcome),
{
    match outcome {
        Ok(version) => {
            if version <= MAX_ENCODED_VERSION {
                Ok(version)
            } else {
                Err(Error::SymbolEncodingFailure(EncodeFailure::DataTooLong))
            }
        },
        Err(error) => Err(Error::SymbolEncodingFailure(failure_from(error))),
    }
}

/// The symbol of a text, or the error that encoding it ends with.
///
/// A text whose smallest symbol has a version above `MAX_ENCODED_VERSION`, or
/// fits no symbol at all, is too long. Every other text gives what the
/// encoder makes of it: its symbol, or the encoder's reason for making none.
pub open spec fn encoded(text: Seq<char>) -> Result<Grid, Error> {
    match symbol_version(text) {
        Ok(version) => if version <= MAX_ENCODED_VERSION {
            match symbol_grid(text) {
                Ok(grid) => Ok(grid),
                Err(error) => Err(Error::SymbolEncodingFailure(failure_of(error))),
            }
        } else {
            Err(Error::SymbolEncodingFailure(EncodeFailure::DataTooLong))
        },
        Err(error) => Err(Error::SymbolEncodingFailure(failure_of(error))),
    }
}

/// Encodes a text as a QR symbol of version 1 to `MAX_ENCODED_VERSION`. The
/// encoder is first asked for the version, and draws the symbol only where
/// the library makes that version.
pub fn encode(text: &str) -> (symbol: Result<ModuleMatrix, Error>)
    ensures
        match encoded(text@) {
            Ok(grid) => (symbol matches Ok(matrix) && matrix@ == grid && matrix.wf()
                && MIN_SYMBOL_SIDE <= matrix.side <= MAX_ENCODED_SIDE),
            Err(error) => symbol == Err::<ModuleMatrix, Error>(error),
        },
{
    match version_from(plan_version(text)) {
        Ok(_) => symbol_from(encode_symbol(text)),
        Err(error) => Err(error),
    }
}

} // verus!
