//! Failures of the operations that a restart consists of.
use vstd::prelude::*;
use vstd::string::*;

verus! {

/// A failed input or output operation.
#[derive(Debug)]
pub enum IoFailure {
    /// The system or a lifecycle handler reported a failure that reads like this.
    Reported(String),
    /// The child process went away without announcing that it had started.
    ChildSilent,
    /// The announcement to the parent process was not written.
    ParentNotSignalled,
    /// A file descriptor number in the environment is not a number.
    InvalidFd,
}

impl IoFailure {
    /// How the failure reads.
    pub open spec fn message(self) -> Seq<char> {
        match self {
            IoFailure::Reported(text) => text@,
            IoFailure::ChildSilent => "child failed to notify parent"@,
            IoFailure::ParentNotSignalled => "failed to signal parent to close"@,
            IoFailure::InvalidFd => "invalid notify socket fd"@,
        }
    }

    /// How the failure reads.
    pub fn to_text(&self) -> (r: String)
        ensures
            r@ == self.message(),
    {
        match self {
            IoFailure::Reported(text) => text.clone(),
            IoFailure::ChildSilent => String::from_str("child failed to notify parent"),
            IoFailure::ParentNotSignalled => String::from_str("failed to signal parent to close"),
            IoFailure::InvalidFd => String::from_str("invalid notify socket fd"),
        }
    }

    /// Whether the failure is bad input rather than a failed operation.
    pub fn is_invalid_input(&self) -> (r: bool)
        ensures
            r == (self is InvalidFd),
    {
        match self {
            IoFailure::InvalidFd => true,
            _ => false,
        }
    }
}

/// A failure that was reported reads as it was reported, and only a descriptor that is not a number
/// is bad input.
pub proof fn law_failures_read_as_reported(
    failure: &IoFailure,
    text: String,
    invalid_input: bool,
)
    requires
        call_ensures(IoFailure::to_text, (failure,), text),
        call_ensures(IoFailure::is_invalid_input, (failure,), invalid_input),
    ensures
        *failure matches IoFailure::Reported(reported) ==> text@ == reported@,
        *failure is ChildSilent ==> text@ == "child failed to notify parent"@,
        *failure is ParentNotSignalled ==> text@ == "failed to signal parent to close"@,
        *failure is InvalidFd ==> text@ == "invalid notify socket fd"@,
        invalid_input <==> *failure is InvalidFd,
{
}

} // verus!
