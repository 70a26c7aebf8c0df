//! The errors a font context operation can report.

use vstd::prelude::*;

verus! {

/// XError holds the X11 error condition.
#[derive(Debug, Clone, PartialEq, Eq)]
pub enum XError {
    /// No X11 display found.
    DisplayOpen,
    /// The font could not be found; carries the font specification that
    /// resolved neither as a font set nor as a single font.
    CouldNotLoadFont(String),
    /// An input string held an embedded NUL and cannot cross the native
    /// string boundary.
    NulError,
}

/// The mathematical shape of an error: the font specification is seen as its
/// character sequence.
pub enum XErrorView {
    DisplayOpen,
    CouldNotLoadFont(Seq<char>),
    NulError,
}

impl View for XError {
    type V = XErrorView;

    open spec fn view(&self) -> XErrorView {
        match self {
            XError::DisplayOpen => XErrorView::DisplayOpen,
            XError::CouldNotLoadFont(name) => XErrorView::CouldNotLoadFont(name@),
            XError::NulError => XErrorView::NulError,
        }
    }
}

} // verus!
