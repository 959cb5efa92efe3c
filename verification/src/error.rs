//! The two kinds of failure that reach the front-end.

use vstd::prelude::*;

verus! {

/// A failure, with the text that the operating system or the windowing host
/// gave for it.
#[derive(Debug)]
pub enum ErrorKind {
    /// A file could not be read.
    IoFailure(String),
    /// A window could not be created, made full-screen or closed.
    WindowFailure(String),
}

/// What an [`ErrorKind`] stands for: its kind and its text.
pub ghost enum Failure {
    Io(Seq<char>),
    Window(Seq<char>),
}

impl Failure {
    /// The text carried by the failure.
    pub open spec fn text(self) -> Seq<char> {
        match self {
            Failure::Io(t) => t,
            Failure::Window(t) => t,
        }
    }
}

impl View for ErrorKind {
    type V = Failure;

    open spec fn view(&self) -> Failure {
        match self {
            ErrorKind::IoFailure(t) => Failure::Io(t@),
            ErrorKind::WindowFailure(t) => Failure::Window(t@),
        }
    }
}

impl ErrorKind {
    /// True for a failed file read.
    pub fn is_io_failure(&self) -> (b: bool)
        ensures
            b == (self@ is Io),
    {
        match self {
            ErrorKind::IoFailure(_) => true,
            ErrorKind::WindowFailure(_) => false,
        }
    }

    /// True for a failed window operation.
    pub fn is_window_failure(&self) -> (b: bool)
        ensures
            b == (self@ is Window),
    {
        match self {
            ErrorKind::IoFailure(_) => false,
            ErrorKind::WindowFailure(_) => true,
        }
    }

    /// The text of the failure, as it was reported.
    pub fn message(&self) -> (text: &String)
        ensures
            text@ == self@.text(),
    {
        match self {
            ErrorKind::IoFailure(t) => t,
            ErrorKind::WindowFailure(t) => t,
        }
    }

    /// Gives up the failure for its text.
    pub fn into_message(self) -> (text: String)
        ensures
            text@ == self@.text(),
    {
        match self {
            ErrorKind::IoFailure(t) => t,
            ErrorKind::WindowFailure(t) => t,
        }
    }
}

} // verus!
