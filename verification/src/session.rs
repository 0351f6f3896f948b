use vstd::prelude::*;

use crate::error::TuiError;

verus! {

/// The terminal session guard, as the run loop sees it: whether raw mode and
/// the alternate screen are currently held, and whether the process-wide
/// abnormal-termination hook that restores the terminal has been installed.
///
/// The terminal device itself lives outside this crate; the caller performs
/// the mode switches and reports their outcome, and this guard is the single
/// authority on what state the terminal is in and what must happen before the
/// handle may be relinquished.
#[derive(Debug, Clone, Copy, PartialEq, Eq, Structural)]
pub struct Session {
    /// Raw mode and the alternate screen are currently active.
    pub active: bool,
    /// The process-wide restoration hook has been installed. Hook
    /// installation is for the remainder of the process: it is never undone.
    pub hook_installed: bool,
}

impl Session {
    /// A session may hold the terminal in raw mode only while the restoration
    /// hook is in place, so that an abnormal termination can still restore
    /// the original mode.
    pub open spec fn wf(self) -> bool {
        self.active ==> self.hook_installed
    }

    /// The state a session reaches when restoration runs, on the normal exit
    /// path or inside the abnormal-termination hook: raw mode is left, while
    /// the hook (process-wide state) remains installed.
    pub open spec fn released_spec(self) -> Session {
        Session { active: false, hook_installed: self.hook_installed }
    }

    /// A fresh guard: nothing acquired, no hook installed yet.
    pub fn new() -> (s: Session)
        ensures
            !s.active,
            !s.hook_installed,
            s.wf(),
    {
        Session { active: false, hook_installed: false }
    }

    /// Record the outcome of switching the terminal into raw mode and the
    /// alternate screen. The caller performs the switch and passes whether it
    /// succeeded; on success the restoration hook counts as installed and the
    /// session becomes active. On failure the session stays inactive, so a
    /// later `release` is still safe, and the error is reported rather than
    /// swallowed.
    pub fn acquire(&mut self, raw_mode_ok: bool) -> (r: Result<(), TuiError>)
        ensures
            r is Ok <==> raw_mode_ok,
            r is Err ==> r == Result::<(), TuiError>::Err(TuiError::TerminalUnavailable),
            raw_mode_ok ==> *final(self) == (Session { active: true, hook_installed: true }),
            !raw_mode_ok ==> *final(self) == (Session {
                active: false,
                hook_installed: old(self).hook_installed,
            }),
            old(self).hook_installed ==> final(self).hook_installed,
            final(self).wf(),
    {
        if raw_mode_ok {
            self.active = true;
            self.hook_installed = true;
            Ok(())
        } else {
            self.active = false;
            Err(TuiError::TerminalUnavailable)
        }
    }

    /// Leave raw mode and the alternate screen. Safe to call whatever state
    /// the session is in — in particular after a partially failed `acquire`,
    /// or a second time in a row — and always leaves raw mode inactive.
    pub fn release(&mut self)
        ensures
            *final(self) == old(self).released_spec(),
            !final(self).active,
            final(self).hook_installed == old(self).hook_installed,
            final(self).wf(),
    {
        self.active = false;
    }

    /// Whether the session currently holds the terminal in raw mode.
    pub fn is_active(&self) -> (r: bool)
        ensures
            r == self.active,
    {
        self.active
    }
}

/// Releasing twice in a row is the same as releasing once: the second
/// release finds raw mode already left and changes nothing.
pub proof fn lemma_release_idempotent(s: Session)
    ensures
        s.released_spec().released_spec() == s.released_spec(),
{
}

/// From any well-formed state — in particular mid-loop, after `acquire` and
/// before `release` — the restoration hook is installed while raw mode is
/// held, and running restoration always leaves raw mode disabled. This is
/// what the abnormal-termination path relies on.
pub proof fn lemma_abnormal_restore(s: Session)
    requires
        s.wf(),
    ensures
        s.active ==> s.hook_installed,
        !s.released_spec().active,
{
}

} // verus!
