//! Choosing where the text to encode comes from.

use vstd::prelude::*;
use crate::error::{ClipboardFailure, Error};

verus! {

/// What the caller asked for: a text given directly, the clipboard, standard
/// input, or any mix of them.
#[derive(Clone, Debug)]
pub struct SourceSelection {
    /// The text to encode, where it was given directly.
    pub text: Option<String>,
    /// Whether the clipboard was asked for.
    pub clipboard: bool,
    /// Whether standard input was asked for.
    pub stdin: bool,
}

/// The one source that the text is taken from.
#[derive(Clone, Debug)]
pub enum InputSource {
    /// The text was given directly.
    Text(String),
    /// The text is the content of the clipboard.
    Clipboard,
    /// The text is everything that standard input holds.
    Stdin,
}

impl SourceSelection {
    /// How many sources were asked for.
    pub open spec fn count(self) -> nat {
        let a: nat = if self.text is Some { 1 } else { 0 };
        let b: nat = if self.clipboard { 1 } else { 0 };
        let c: nat = if self.stdin { 1 } else { 0 };
        a + b + c
    }

    /// The source that a selection of exactly one names.
    pub open spec fn source(self) -> InputSource
        recommends
            self.count() == 1,
    {
        if self.text is Some {
            InputSource::Text(self.text->0)
        } else if self.clipboard {
            InputSource::Clipboard
        } else {
            InputSource::Stdin
        }
    }
}

/// Settles on the input source. Exactly one must have been asked for: no
/// source at all is refused like several, and nothing is read by default.
pub fn resolve_source(selection: SourceSelection) -> (chosen: Result<InputSource, Error>)
    ensures
        selection.count() == 1 ==> chosen == Ok::<InputSource, Error>(selection.source()),
        selection.count() != 1 ==> chosen == Err::<InputSource, Error>(Error::AmbiguousInputSource),
{
    let SourceSelection { text, clipboard, stdin } = selection;
    match (text, clipboard, stdin) {
        (Some(t), false, false) => Ok(InputSource::Text(t)),
        (None, true, false) => Ok(InputSource::Clipboard),
        (None, false, true) => Ok(InputSource::Stdin),
        _ => Err(Error::AmbiguousInputSource),
    }
}

/// What came of reading the clipboard or standard input.
#[derive(Clone, Debug)]
pub enum ReadOutcome {
    /// Nothing was read.
    NotRead,
    /// The source could not be reached.
    Unreachable,
    /// The source was reached, but no text could be read from it.
    Unreadable,
    /// The source gave this text.
    Text(String),
}

/// What reading from `source` comes to, where `read` is what came of reading
/// the clipboard or standard input.
///
/// A text given directly is taken as it is, empty or not, and nothing needs to
/// be read for it. The clipboard must give a text that is not empty; where it
/// gives none, the error tells a clipboard that could not be reached from one
/// that held nothing to encode. Standard input must give a text, which may be
/// empty.
pub open spec fn request_of(source: InputSource, read: ReadOutcome) -> Result<String, Error> {
    match source {
        InputSource::Text(t) => Ok(t),
        InputSource::Clipboard => match read {
            ReadOutcome::Text(t) => if t@.len() == 0 {
                Err(Error::ClipboardUnavailable(ClipboardFailure::NoContents))
            } else {
                Ok(t)
            },
            ReadOutcome::Unreachable => Err(Error::ClipboardUnavailable(ClipboardFailure::NoContext)),
            _ => Err(Error::ClipboardUnavailable(ClipboardFailure::NoContents)),
        },
        InputSource::Stdin => match read {
            ReadOutcome::Text(t) => Ok(t),
            _ => Err(Error::StdinReadFailure),
        },
    }
}

/// Turns the outcome of reading the chosen source into the text to encode. A
/// failed read of the clipboard or of standard input ends the run, and is
/// never replaced by an empty text; an empty clipboard ends it too.
pub fn text_to_encode(source: InputSource, read: ReadOutcome) -> (text: Result<String, Error>)
    ensures
        text == request_of(source, read),
{
    match source {
        InputSource::Text(t) => Ok(t),
        InputSource::Clipboard => match read {
            ReadOutcome::Text(t) => {
                if t.as_str().is_empty() {
                    Err(Error::ClipboardUnavailable(ClipboardFailure::NoContents))
                } else {
                    Ok(t)
                }
            },
            ReadOutcome::Unreachable => Err(Error::ClipboardUnavailable(ClipboardFailure::NoContext)),
            _ => Err(Error::ClipboardUnavailable(ClipboardFailure::NoContents)),
        },
        InputSource::Stdin => match read {
            ReadOutcome::Text(t) => Ok(t),
            _ => Err(Error::StdinReadFailure),
        },
    }
}

} // verus!
