use vstd::prelude::*;
use vstd::string::StringExecFns;

verus! {

/// The failures the run loop can surface to its caller. None of them is
/// retried: the loop propagates the error after the terminal has been
/// restored.
#[derive(Debug, Clone, Copy, PartialEq, Eq)]
pub enum TuiError {
    /// Switching the terminal into raw mode or the alternate screen failed.
    TerminalUnavailable,
    /// Flushing a composed frame to the terminal failed.
    DrawFailed,
    /// The underlying input event source errored.
    InputStreamFailed,
}

impl TuiError {
    /// The description text of each failure.
    pub open spec fn describe_spec(self) -> Seq<char> {
        match self {
            TuiError::TerminalUnavailable => "terminal unavailable"@,
            TuiError::DrawFailed => "drawing a frame failed"@,
            TuiError::InputStreamFailed => "the input stream failed"@,
        }
    }

    /// A human-readable description, for the message printed after the
    /// terminal has been restored.
    pub fn describe(&self) -> (r: String)
        ensures
            r@ == self.describe_spec(),
    {
        match *self {
            TuiError::TerminalUnavailable => String::from_str("terminal unavailable"),
            TuiError::DrawFailed => String::from_str("drawing a frame failed"),
            TuiError::InputStreamFailed => String::from_str("the input stream failed"),
        }
    }
}

} // verus!
