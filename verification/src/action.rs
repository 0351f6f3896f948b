use vstd::prelude::*;

verus! {

/// A direction the selection can move in.
#[derive(Debug, Clone, Copy, PartialEq, Eq, Structural)]
pub enum Direction {
    Up,
    Down,
}

/// An intended state change, derived deterministically from an abstract
/// event and the current state. An action is transient: it exists only
/// within one loop iteration.
#[derive(Debug, Clone, PartialEq, Eq)]
pub enum Action {
    /// The periodic timer fired, or a key with no binding was pressed;
    /// a no-op on the domain state that still counts toward the tick
    /// counter.
    Tick,
    /// Redraw only (after a resize); no state change.
    Render,
    /// Set the termination flag; the loop exits at the end of the
    /// iteration that applies this.
    Quit,
    /// Move the selection one step, saturating at both ends of the list.
    Navigate(Direction),
    /// Report the selected item — a log emission performed outside this
    /// crate — without any state mutation.
    Select,
    /// Raise the counter by one, saturating at its maximum.
    Increment,
    /// Lower the counter by one, saturating at its minimum.
    Decrement,
    /// Report an error message without any state mutation.
    Error(String),
}

} // verus!
