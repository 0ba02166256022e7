//! The error taxonomy of the engine.

use vstd::prelude::*;

verus! {

/// Error which can occur while laying out or rendering a document.
///
/// The variants fall into four families:
/// configuration errors (`InvalidMargins`, `InvalidColumnSpec`,
/// `InvalidColorFormat`, `InvalidFontSize`), layout-API misuse
/// (`RowOverflow`, `ImmutableBoxError`, `DocumentClosedError`),
/// resource errors (`InvalidFontProgram`, `UnsupportedImageFormat`,
/// `DivisionByZero`), and boundary failures (`SerializationError`,
/// `EngineUnavailable`).
#[derive(Debug, Clone, Copy, PartialEq, Eq, Structural)]
pub enum Error {
    /// The page margins leave no positive content area.
    InvalidMargins,
    /// A table was declared with no columns or a zero column weight.
    InvalidColumnSpec,
    /// A color string is not of the form `#RRGGBB`.
    InvalidColorFormat,
    /// A configured font size is zero.
    InvalidFontSize,
    /// A cell was added to a row that already holds one cell per column,
    /// or no row was started.
    RowOverflow,
    /// A box was mutated after its containing section was finalized.
    ImmutableBoxError,
    /// Content was placed after the document was closed.
    DocumentClosedError,
    /// Font bytes do not start with a known font-program header.
    InvalidFontProgram,
    /// Image bytes are not in a supported format.
    UnsupportedImageFormat,
    /// An image reports an intrinsic height of zero.
    DivisionByZero,
    /// The external byte encoder failed.
    SerializationError,
    /// The external rendering engine could not be initialized.
    EngineUnavailable,
}

impl Error {
    /// A short stable name for the error, for logs and messages.
    pub fn describe(&self) -> (s: &'static str)
        ensures
            s@.len() > 0,
    {
        proof {
            reveal_strlit("invalid margins");
            reveal_strlit("invalid column specification");
            reveal_strlit("invalid color format");
            reveal_strlit("invalid font size");
            reveal_strlit("row overflow");
            reveal_strlit("immutable box");
            reveal_strlit("document closed");
            reveal_strlit("invalid font program");
            reveal_strlit("unsupported image format");
            reveal_strlit("division by zero");
            reveal_strlit("serialization failure");
            reveal_strlit("engine unavailable");
        }
        match self {
            Error::InvalidMargins => "invalid margins",
            Error::InvalidColumnSpec => "invalid column specification",
            Error::InvalidColorFormat => "invalid color format",
            Error::InvalidFontSize => "invalid font size",
            Error::RowOverflow => "row overflow",
            Error::ImmutableBoxError => "immutable box",
            Error::DocumentClosedError => "document closed",
            Error::InvalidFontProgram => "invalid font program",
            Error::UnsupportedImageFormat => "unsupported image format",
            Error::DivisionByZero => "division by zero",
            Error::SerializationError => "serialization failure",
            Error::EngineUnavailable => "engine unavailable",
        }
    }
}

} // verus!
