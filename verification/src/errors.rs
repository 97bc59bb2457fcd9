//! The ways a decode can fail.

use vstd::prelude::*;
use vstd::std_specs::convert::FromSpecImpl;
use vstd::string::StringExecFns;

verus! {

/// `std::io::Error`, carried through as an opaque value.
#[verifier::external_type_specification]
#[verifier::external_body]
pub struct ExIoError(std::io::Error);

/// Why a decode produced no document.
#[derive(Debug)]
pub enum Error {
    /// The byte source could not be read to its end.
    Io(std::io::Error),
    /// The engine refused to create a context. Carries the last diagnostic
    /// the engine emitted, or the empty string.
    CreateContextFailed(String),
    /// The engine reported failure when asked to complete the page. Carries
    /// the last diagnostic the engine emitted, or the empty string.
    IncompletePage(String),
}

/// What an [`Error`] says, with the text it carries as a sequence of
/// characters.
pub enum ErrorView {
    Io,
    CreateContextFailed(Seq<char>),
    IncompletePage(Seq<char>),
}

impl View for Error {
    type V = ErrorView;

    open spec fn view(&self) -> ErrorView {
        match self {
            Error::Io(_) => ErrorView::Io,
            Error::CreateContextFailed(m) => ErrorView::CreateContextFailed(m@),
            Error::IncompletePage(m) => ErrorView::IncompletePage(m@),
        }
    }
}

impl From<std::io::Error> for Error {
    fn from(err: std::io::Error) -> (e: Self) {
        Error::Io(err)
    }
}

impl FromSpecImpl<std::io::Error> for Error {
    open spec fn obeys_from_spec() -> bool {
        true
    }

    open spec fn from_spec(err: std::io::Error) -> Self {
        Error::Io(err)
    }
}

impl ErrorView {
    /// The text that introduces the diagnostic in the error's message.
    pub open spec fn prefix(self) -> Seq<char> {
        match self {
            ErrorView::Io => Seq::empty(),
            ErrorView::CreateContextFailed(_) => "create context failed: "@,
            ErrorView::IncompletePage(_) => "incomplete page: "@,
        }
    }

    /// The diagnostic the error carries.
    pub open spec fn diagnostic(self) -> Seq<char> {
        match self {
            ErrorView::Io => Seq::empty(),
            ErrorView::CreateContextFailed(m) => m,
            ErrorView::IncompletePage(m) => m,
        }
    }
}

impl Error {
    /// The message for a reader: for an engine failure, what failed followed
    /// by the diagnostic; for a read failure, the text of the I/O error.
    pub fn message(&self) -> (text: String)
        ensures
            self@ !is Io ==> text@ == self@.prefix() + self@.diagnostic(),
            self matches Error::Io(e) ==> vstd::string::to_string_from_display_ensures::<
                std::io::Error,
            >(e, text),
    {
        match self {
            Error::Io(e) => e.to_string(),
            Error::CreateContextFailed(m) => String::from_str("create context failed: ").concat(
                m.as_str(),
            ),
            Error::IncompletePage(m) => String::from_str("incomplete page: ").concat(m.as_str()),
        }
    }

    /// The I/O error underneath, where there is one.
    pub fn source(&self) -> (cause: Option<&std::io::Error>)
        ensures
            cause is Some <==> self is Io,
            self matches Error::Io(e) ==> cause == Some(e),
    {
        match self {
            Error::Io(e) => Some(e),
            _ => None,
        }
    }
}

} // verus!
