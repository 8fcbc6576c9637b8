//! What can go wrong.
use vstd::prelude::*;

verus! {

/// The failures that a command can meet.
#[derive(Debug, PartialEq, Eq)]
pub enum Error {
    /// There is no connection to the broadcasting software yet.
    UnableInitialConnection,
    /// No broadcasting software is set up.
    NoSoftwareSet,
    /// A word was neither `on` nor `off`.
    EnabledToBoolConversionError,
    /// An answer was no JSON document.
    InvalidJson,
    /// A JSON document held no playback access token.
    NoAccessToken,
    /// Anything that the application reports, by its description.
    Reported(String),
}

/// An [`Error`] with its description as characters.
pub enum ErrorView {
    UnableInitialConnection,
    NoSoftwareSet,
    EnabledToBoolConversionError,
    InvalidJson,
    NoAccessToken,
    Reported(Seq<char>),
}

impl View for Error {
    type V = ErrorView;

    open spec fn view(&self) -> ErrorView {
        match self {
            Error::UnableInitialConnection => ErrorView::UnableInitialConnection,
            Error::NoSoftwareSet => ErrorView::NoSoftwareSet,
            Error::EnabledToBoolConversionError => ErrorView::EnabledToBoolConversionError,
            Error::InvalidJson => ErrorView::InvalidJson,
            Error::NoAccessToken => ErrorView::NoAccessToken,
            Error::Reported(s) => ErrorView::Reported(s@),
        }
    }
}

} // verus!
