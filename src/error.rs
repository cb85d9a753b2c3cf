use vstd::prelude::*;

verus! {

/// Every way in which resolving or running a project can fail.
///
/// Paths and messages are carried as plain strings; the message of an I/O or
/// parse failure is the text the failing operation reported.
#[derive(Debug, PartialEq, Eq)]
pub enum Error {
    NoBuildSystemFound,
    NoProjectRootFound,
    ConflictingMk(String, String),
    Io(String, String),
    Command(String, String),
    SerdeIni(String, String),
    SerdeYaml(String, String),
    Notify(String),
    MissingArgument(String),
    MissingContainerImage,
    NoContainerRuntimeFound,
}

/// A failed filesystem operation: whether it failed because the path does
/// not exist, and the message it reported.
#[derive(Debug, PartialEq, Eq)]
pub struct IoFailure {
    pub not_found: bool,
    pub message: String,
}

/// The value of an [`Error`], with its strings as character sequences.
pub enum ErrorView {
    NoBuildSystemFound,
    NoProjectRootFound,
    ConflictingMk(Seq<char>, Seq<char>),
    Io(Seq<char>, Seq<char>),
    Command(Seq<char>, Seq<char>),
    SerdeIni(Seq<char>, Seq<char>),
    SerdeYaml(Seq<char>, Seq<char>),
    Notify(Seq<char>),
    MissingArgument(Seq<char>),
    MissingContainerImage,
    NoContainerRuntimeFound,
}

impl View for Error {
    type V = ErrorView;

    open spec fn view(&self) -> ErrorView {
        match self {
            Error::NoBuildSystemFound => ErrorView::NoBuildSystemFound,
            Error::NoProjectRootFound => ErrorView::NoProjectRootFound,
            Error::ConflictingMk(a, b) => ErrorView::ConflictingMk(a@, b@),
            Error::Io(a, b) => ErrorView::Io(a@, b@),
            Error::Command(a, b) => ErrorView::Command(a@, b@),
            Error::SerdeIni(a, b) => ErrorView::SerdeIni(a@, b@),
            Error::SerdeYaml(a, b) => ErrorView::SerdeYaml(a@, b@),
            Error::Notify(a) => ErrorView::Notify(a@),
            Error::MissingArgument(a) => ErrorView::MissingArgument(a@),
            Error::MissingContainerImage => ErrorView::MissingContainerImage,
            Error::NoContainerRuntimeFound => ErrorView::NoContainerRuntimeFound,
        }
    }
}

impl Error {
    /// A copy of this error, equal to it.
    pub fn duplicate(&self) -> (r: Error)
        ensures
            r == *self,
    {
        match self {
            Error::NoBuildSystemFound => Error::NoBuildSystemFound,
            Error::NoProjectRootFound => Error::NoProjectRootFound,
            Error::ConflictingMk(a, b) => Error::ConflictingMk(a.clone(), b.clone()),
            Error::Io(a, b) => Error::Io(a.clone(), b.clone()),
            Error::Command(a, b) => Error::Command(a.clone(), b.clone()),
            Error::SerdeIni(a, b) => Error::SerdeIni(a.clone(), b.clone()),
            Error::SerdeYaml(a, b) => Error::SerdeYaml(a.clone(), b.clone()),
            Error::Notify(a) => Error::Notify(a.clone()),
            Error::MissingArgument(a) => Error::MissingArgument(a.clone()),
            Error::MissingContainerImage => Error::MissingContainerImage,
            Error::NoContainerRuntimeFound => Error::NoContainerRuntimeFound,
        }
    }
}

} // verus!
