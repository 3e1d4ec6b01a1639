//! The ways in which an operation of this crate can fail.

use vstd::prelude::*;
use crate::tool::Capability;

verus! {

/// What was wrong with an input that was rejected.
#[derive(Debug, Clone, Copy, PartialEq, Eq, Structural)]
pub enum Invalid {
    /// The path does not carry the package extension.
    Package,
    /// The path does not carry the content-unit extension.
    ContentUnit,
    /// The report is not valid UTF-8.
    Report,
    /// The report names a content type outside the closed set.
    ContentType,
    /// The report has no line that gives a content type.
    MissingContentType,
}

/// What was looked for and not found.
#[derive(Debug, Clone, Copy, PartialEq, Eq, Structural)]
pub enum Missing {
    /// A ticket among the extracted members of a package.
    Ticket,
    /// A program unit in the base package.
    BaseProgram,
    /// A program unit in the update package.
    UpdateProgram,
    /// A control unit in the update package.
    UpdateControl,
    /// The program unit that the packer was asked to build.
    PatchedProgram,
    /// The directory that holds a file.
    Parent,
}

/// A failure of an operation of this crate.
#[derive(Debug, PartialEq, Eq)]
pub enum Error {
    /// An input does not have the required form.
    Validation(Invalid),
    /// Something required is absent.
    NotFound(Missing),
    /// A capability exited without success; the path is what it worked on.
    ExternalTool(Capability, String),
    /// The file system refused an operation, or a file was too short.
    Io,
    /// A condition that always holds in a correct run did not hold.
    InternalInvariant,
    /// Several directories could not be removed; one message per line.
    Aggregate(String),
}

/// The mathematical value of an [`Error`].
pub enum ErrorView {
    Validation(Invalid),
    NotFound(Missing),
    ExternalTool(Capability, Seq<char>),
    Io,
    InternalInvariant,
    Aggregate(Seq<char>),
}

impl View for Error {
    type V = ErrorView;

    open spec fn view(&self) -> ErrorView {
        match *self {
            Error::Validation(what) => ErrorView::Validation(what),
            Error::NotFound(what) => ErrorView::NotFound(what),
            Error::ExternalTool(capability, subject) => ErrorView::ExternalTool(
                capability,
                subject@,
            ),
            Error::Io => ErrorView::Io,
            Error::InternalInvariant => ErrorView::InternalInvariant,
            Error::Aggregate(text) => ErrorView::Aggregate(text@),
        }
    }
}

} // verus!
