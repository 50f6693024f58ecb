//! What to do when a file cannot be opened.
//!
//! Opening and creating files is left to the caller. It reports what
//! happened, and is told here what to do next.
use vstd::prelude::*;

verus! {

/// Why a file could not be opened or created, as far as it matters here.
#[derive(Debug, Clone, Copy, PartialEq, Eq, Structural)]
pub enum Failure {
    /// There is no such file.
    NotFound,
    /// Anything else.
    Other,
}

/// What came of the caller's last step.
#[derive(Debug, Clone, Copy, PartialEq, Eq, Structural)]
pub enum Event {
    /// The file was opened.
    Opened,
    /// The file could not be opened.
    OpenFailed(Failure),
    /// The file was missing and has been created.
    Created,
    /// The file was missing and could not be created.
    CreateFailed(Failure),
}

/// What the caller is to do next.
#[derive(Debug, Clone, Copy, PartialEq, Eq, Structural)]
pub enum Action {
    /// Go on with the file in hand.
    UseFile,
    /// Create the file, and report what came of it.
    CreateFile,
    /// Give up: the file could not be opened.
    FailOpening,
    /// Give up: the file could not be created.
    FailCreating,
}

/// The action that answers `event`: a file in hand is used, a missing file is
/// created, and every other failure ends the attempt.
pub open spec fn answer_to(event: Event) -> Action {
    match event {
        Event::Opened => Action::UseFile,
        Event::Created => Action::UseFile,
        Event::OpenFailed(Failure::NotFound) => Action::CreateFile,
        Event::OpenFailed(Failure::Other) => Action::FailOpening,
        Event::CreateFailed(_) => Action::FailCreating,
    }
}

/// Decides what to do after `event`, telling the failures apart with `match`.
pub fn match_on_different_errors(event: Event) -> (action: Action)
    ensures
        action == answer_to(event),
{
    match event {
        Event::Opened => Action::UseFile,
        Event::OpenFailed(error) => match error {
            Failure::NotFound => Action::CreateFile,
            Failure::Other => Action::FailOpening,
        },
        Event::Created => Action::UseFile,
        Event::CreateFailed(_) => Action::FailCreating,
    }
}

/// Decides what to do after `event`, as [`match_on_different_errors`] does,
/// with a comparison in place of the inner `match`.
pub fn closure_error_match(event: Event) -> (action: Action)
    ensures
        action == answer_to(event),
{
    match event {
        Event::OpenFailed(error) => {
            if error == Failure::NotFound {
                Action::CreateFile
            } else {
                Action::FailOpening
            }
        },
        Event::CreateFailed(_) => Action::FailCreating,
        _ => Action::UseFile,
    }
}

} // verus!
