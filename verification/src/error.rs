//! What can end a run early.

use vstd::prelude::*;

verus! {

/// Why the clipboard gave no text.
#[derive(Clone, Copy, Debug, PartialEq, Eq, Structural)]
pub enum ClipboardFailure {
    /// The clipboard could not be reached.
    NoContext,
    /// The clipboard was reached, but held nothing that can be encoded: its
    /// contents could not be read as text, or the text was empty.
    NoContents,
}

/// Why the encoder made no symbol.
#[derive(Clone, Copy, Debug, PartialEq, Eq, Structural)]
pub enum EncodeFailure {
    /// The text does not fit into any symbol that the library makes.
    DataTooLong,
    /// The symbol's version and error correction level do not go together.
    InvalidVersion,
    /// The text holds characters that the symbol's version cannot carry.
    UnsupportedCharacterSet,
    /// A character set designator is out of range.
    InvalidEciDesignator,
    /// A character does not belong to the character set in use.
    InvalidCharacter,
}

/// The ways a run can fail. Every one of them ends the run: nothing is retried.
#[derive(Clone, Copy, Debug, PartialEq, Eq, Structural)]
pub enum Error {
    /// The caller did not choose exactly one of the three input sources.
    AmbiguousInputSource,
    /// The clipboard gave no text to encode.
    ClipboardUnavailable(ClipboardFailure),
    /// Standard input could not be read to its end as UTF-8.
    StdinReadFailure,
    /// The text could not be encoded as a symbol.
    SymbolEncodingFailure(EncodeFailure),
    /// The window could not be created.
    WindowCreationFailure,
    /// The window refused a frame.
    PresentationFailure,
    /// An image's byte count does not match its dimensions.
    PixelConsistencyError,
}

/// The text shown to the user for each error.
pub open spec fn message_of(error: Error) -> Seq<char> {
    match error {
        Error::AmbiguousInputSource => "Please select one of `encode`, `clipboard`, or `stdin` options."@,
        Error::ClipboardUnavailable(ClipboardFailure::NoContext) => "Couldn't get clipboard context"@,
        Error::ClipboardUnavailable(ClipboardFailure::NoContents) => "Couldn't get clipboard contents"@,
        Error::StdinReadFailure => "Couldn't read standard input"@,
        Error::SymbolEncodingFailure(EncodeFailure::DataTooLong) => "data too long"@,
        Error::SymbolEncodingFailure(EncodeFailure::InvalidVersion) => "invalid version"@,
        Error::SymbolEncodingFailure(EncodeFailure::UnsupportedCharacterSet) => "unsupported character set"@,
        Error::SymbolEncodingFailure(EncodeFailure::InvalidEciDesignator) => "invalid ECI designator"@,
        Error::SymbolEncodingFailure(EncodeFailure::InvalidCharacter) => "invalid character"@,
        Error::WindowCreationFailure => "Couldn't create the window"@,
        Error::PresentationFailure => "Couldn't present image buffer."@,
        Error::PixelConsistencyError => "pixel/byte count mismatch"@,
    }
}

/// The exit code that stands for the outcome of a run: zero for a normal end,
/// one for any error.
pub open spec fn exit_code_of(outcome: Result<(), Error>) -> int {
    if outcome is Ok {
        0
    } else {
        1
    }
}

impl Error {
    /// The message for this error.
    pub fn message(&self) -> (text: String)
        ensures
            text@ == message_of(*self),
    {
        match self {
            Error::AmbiguousInputSource => "Please select one of `encode`, `clipboard`, or `stdin` options.".to_owned(),
            Error::ClipboardUnavailable(ClipboardFailure::NoContext) => "Couldn't get clipboard context".to_owned(),
            Error::ClipboardUnavailable(ClipboardFailure::NoContents) => "Couldn't get clipboard contents".to_owned(),
            Error::StdinReadFailure => "Couldn't read standard input".to_owned(),
            Error::SymbolEncodingFailure(EncodeFailure::DataTooLong) => "data too long".to_owned(),
            Error::SymbolEncodingFailure(EncodeFailure::InvalidVersion) => "invalid version".to_owned(),
            Error::SymbolEncodingFailure(EncodeFailure::UnsupportedCharacterSet) => "unsupported character set".to_owned(),
            Error::SymbolEncodingFailure(EncodeFailure::InvalidEciDesignator) => "invalid ECI designator".to_owned(),
            Error::SymbolEncodingFailure(EncodeFailure::InvalidCharacter) => "invalid character".to_owned(),
            Error::WindowCreationFailure => "Couldn't create the window".to_owned(),
            Error::PresentationFailure => "Couldn't present image buffer.".to_owned(),
            Error::PixelConsistencyError => "pixel/byte count mismatch".to_owned(),
        }
    }
}

/// The process exit code for the outcome of a run.
pub fn exit_code(outcome: &Result<(), Error>) -> (code: i32)
    ensures
        code == exit_code_of(*outcome),
{
    match outcome {
        Ok(_) => 0,
        Err(_) => 1,
    }
}

} // verus!
