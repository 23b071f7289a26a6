//! The errors of the transport.

use vstd::prelude::*;

verus! {

/// Why the transport could not do what was asked.
#[derive(Debug, PartialEq, Eq)]
pub enum Error {
    /// Creating the socket failed; the text is the diagnostic of the
    /// failure.
    JsError(String),
    /// The operation is not one that this transport offers, or the address
    /// is not one that it can dial.
    NotSupported,
}

/// The mathematical form of an [`Error`].
pub ghost enum ErrorView {
    JsError(Seq<char>),
    NotSupported,
}

impl ErrorView {
    /// The message of the error, as it is shown to a user.
    pub open spec fn text(self) -> Seq<char> {
        match self {
            ErrorView::JsError(diagnostic) => "js function error "@ + diagnostic,
            ErrorView::NotSupported => "operation not supported"@,
        }
    }
}

impl View for Error {
    type V = ErrorView;

    open spec fn view(&self) -> ErrorView {
        match self {
            Error::JsError(diagnostic) => ErrorView::JsError(diagnostic@),
            Error::NotSupported => ErrorView::NotSupported,
        }
    }
}

impl Error {
    /// The message of the error: `js function error ` followed by the
    /// diagnostic, or `operation not supported`.
    pub fn message(&self) -> (text: String)
        ensures
            text@ == self@.text(),
    {
        match self {
            Error::JsError(diagnostic) => {
                let mut text = String::from_str("js function error ");
                text.append(diagnostic.as_str());
                text
            },
            Error::NotSupported => String::from_str("operation not supported"),
        }
    }
}

} // verus!
