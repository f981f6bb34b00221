//! How a run ends: the status the process leaves with, and the last thing it
//! writes.

use vstd::prelude::*;

verus! {

/// Status of a run that did what it was asked, or was called off by the user.
pub const EXIT_OK: i32 = 0;

/// Status of a run whose command line was rejected.
pub const EXIT_USAGE: i32 = 1;

/// Status of a run that a fatal error cut short: that of an aborted process.
pub const EXIT_FATAL: i32 = 101;

/// The two output streams of a process.
#[derive(Clone, Copy, Debug, PartialEq, Eq, Structural)]
pub enum Stream {
    Stdout,
    Stderr,
}

/// The end of a run: write `text` to `stream`, then leave with `code`.
/// An empty `text` writes nothing.
#[derive(Clone, Debug, PartialEq, Eq)]
pub struct Exit {
    pub code: i32,
    pub stream: Stream,
    pub text: String,
}

/// The mathematical value of an [`Exit`].
pub struct ExitView {
    pub code: int,
    pub stream: Stream,
    pub text: Seq<char>,
}

impl View for Exit {
    type V = ExitView;

    open spec fn view(&self) -> ExitView {
        ExitView { code: self.code as int, stream: self.stream, text: self.text@ }
    }
}

impl DeepView for Exit {
    type V = ExitView;

    open spec fn deep_view(&self) -> ExitView {
        self@
    }
}

/// The quiet, successful end: status 0 and not a character written.
pub open spec fn silent() -> ExitView {
    ExitView { code: EXIT_OK as int, stream: Stream::Stdout, text: Seq::empty() }
}

impl Exit {
    /// The quiet, successful end.
    pub fn quiet() -> (exit: Exit)
        ensures
            exit@ == silent(),
    {
        Exit { code: EXIT_OK, stream: Stream::Stdout, text: String::new() }
    }

    /// An independent copy.
    pub fn duplicate(&self) -> (copy: Exit)
        ensures
            copy@ == self@,
    {
        Exit { code: self.code, stream: self.stream, text: self.text.clone() }
    }
}

/// The ways a run can fail for good. None is retried and none is recovered
/// from: each ends the run with a diagnostic.
#[derive(Clone, Copy, Debug, PartialEq, Eq, Structural)]
pub enum ErrorKind {
    /// No repository in the working directory or any directory above it.
    RepositoryNotFound,
    /// A repository is there, but could not be opened.
    RepositoryOpenError,
    /// The repository could not list its branches, or has none of the class
    /// asked for.
    BranchEnumerationError,
    /// The chosen name does not resolve to any object.
    RevisionResolutionError,
    /// Local changes stand in the way of the checkout.
    CheckoutConflict,
    /// HEAD could not be moved.
    HeadUpdateError,
}

/// A fatal error: its kind, and the cause as the collaborator worded it.
#[derive(Clone, Debug, PartialEq, Eq)]
pub struct Failure {
    pub kind: ErrorKind,
    pub cause: String,
}

/// The mathematical value of a [`Failure`].
pub struct FailureView {
    pub kind: ErrorKind,
    pub cause: Seq<char>,
}

impl View for Failure {
    type V = FailureView;

    open spec fn view(&self) -> FailureView {
        FailureView { kind: self.kind, cause: self.cause@ }
    }
}

impl DeepView for Failure {
    type V = FailureView;

    open spec fn deep_view(&self) -> FailureView {
        self@
    }
}

/// What the diagnostic of each kind of failure opens with.
pub open spec fn headline(kind: ErrorKind) -> Seq<char> {
    match kind {
        ErrorKind::RepositoryNotFound => "failed to open"@,
        ErrorKind::RepositoryOpenError => "failed to open"@,
        ErrorKind::BranchEnumerationError => "failed to get branches"@,
        ErrorKind::RevisionResolutionError => "Object not found"@,
        ErrorKind::CheckoutConflict => "Failed to checkout"@,
        ErrorKind::HeadUpdateError => "Failed to set HEAD"@,
    }
}

/// The one-line diagnostic of a failure: the headline of its kind, a colon,
/// the cause, and a line end.
pub open spec fn diagnostic(failure: FailureView) -> Seq<char> {
    headline(failure.kind) + ": "@ + failure.cause + "\n"@
}

/// How a failure ends the run: its diagnostic on the error stream, and the
/// status of an aborted process.
pub open spec fn fatal(failure: FailureView) -> ExitView {
    ExitView { code: EXIT_FATAL as int, stream: Stream::Stderr, text: diagnostic(failure) }
}

impl ErrorKind {
    /// What the diagnostic of this kind of failure opens with.
    pub fn headline(self) -> (text: &'static str)
        ensures
            text@ == headline(self),
    {
        match self {
            ErrorKind::RepositoryNotFound => "failed to open",
            ErrorKind::RepositoryOpenError => "failed to open",
            ErrorKind::BranchEnumerationError => "failed to get branches",
            ErrorKind::RevisionResolutionError => "Object not found",
            ErrorKind::CheckoutConflict => "Failed to checkout",
            ErrorKind::HeadUpdateError => "Failed to set HEAD",
        }
    }
}

impl Failure {
    pub fn new(kind: ErrorKind, cause: String) -> (failure: Failure)
        ensures
            failure@ == (FailureView { kind, cause: cause@ }),
    {
        Failure { kind, cause }
    }

    /// An independent copy.
    pub fn duplicate(&self) -> (copy: Failure)
        ensures
            copy@ == self@,
    {
        Failure { kind: self.kind, cause: self.cause.clone() }
    }

    /// The one-line diagnostic, line end included.
    pub fn diagnostic(&self) -> (text: String)
        ensures
            text@ == diagnostic(self@),
    {
        let mut text = String::from_str(self.kind.headline());
        text.append(": ");
        text.append(self.cause.as_str());
        text.append("\n");
        text
    }

    /// How this failure ends the run.
    pub fn exit(&self) -> (exit: Exit)
        ensures
            exit@ == fatal(self@),
    {
        Exit { code: EXIT_FATAL, stream: Stream::Stderr, text: self.diagnostic() }
    }
}

} // verus!
