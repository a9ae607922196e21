//! The failures that the bridge reports.

use vstd::prelude::*;

verus! {

/// What went wrong at startup or during one invocation.
///
/// `UnknownCommand`, `ArgumentDecodeError` and `ResultEncodeError` belong to
/// a single invocation and go back to the caller as a failed result;
/// `DuplicateCommand` and `EventLoopStartupFailure` stop the host before any
/// window is shown.
#[derive(Clone, Copy, Debug, PartialEq, Eq, Structural)]
pub enum BridgeError {
    /// The invoked name is not in the registry.
    UnknownCommand,
    /// The arguments do not have the shape that the command expects.
    ArgumentDecodeError,
    /// The command's result has no wire form.
    ResultEncodeError,
    /// A second command was registered under a name already taken.
    DuplicateCommand,
    /// The native event loop could not be started.
    EventLoopStartupFailure,
}

impl BridgeError {
    /// True for the errors that end the process rather than one invocation.
    pub open spec fn spec_is_fatal(&self) -> bool {
        self is DuplicateCommand || self is EventLoopStartupFailure
    }

    /// Whether this error ends the process instead of failing one call.
    #[verifier::when_used_as_spec(spec_is_fatal)]
    pub fn is_fatal(&self) -> (r: bool)
        ensures
            r == self.spec_is_fatal(),
    {
        match self {
            BridgeError::DuplicateCommand | BridgeError::EventLoopStartupFailure => true,
            _ => false,
        }
    }

    /// The kind of the error, as the user interface receives it.
    pub fn kind(&self) -> (r: &'static str)
        ensures
            r@ == self.kind_text(),
    {
        match self {
            BridgeError::UnknownCommand => "UnknownCommand",
            BridgeError::ArgumentDecodeError => "ArgumentDecodeError",
            BridgeError::ResultEncodeError => "ResultEncodeError",
            BridgeError::DuplicateCommand => "DuplicateCommand",
            BridgeError::EventLoopStartupFailure => "EventLoopStartupFailure",
        }
    }

    /// The name of each kind of error.
    pub open spec fn kind_text(self) -> Seq<char> {
        match self {
            BridgeError::UnknownCommand => "UnknownCommand"@,
            BridgeError::ArgumentDecodeError => "ArgumentDecodeError"@,
            BridgeError::ResultEncodeError => "ResultEncodeError"@,
            BridgeError::DuplicateCommand => "DuplicateCommand"@,
            BridgeError::EventLoopStartupFailure => "EventLoopStartupFailure"@,
        }
    }
}

} // verus!
