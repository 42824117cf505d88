//! Keeping the overlay above other windows: the window may not exist yet when
//! the program starts, so it is looked for a few times, a short wait apart.

use vstd::prelude::*;

verus! {

/// How many times the window is looked for.
pub const ON_TOP_ATTEMPTS: u8 = 10;

/// Milliseconds waited before each look.
pub const ON_TOP_RETRY_MILLIS: u64 = 100;

/// What to do after a look for the window.
#[derive(Clone, Copy, Debug, PartialEq, Eq, Structural)]
pub enum OnTopAction {
    /// The window was found: put it on top, and stop looking.
    SetTopmost,
    /// Not found yet: wait and look again.
    Retry,
    /// Not found, and no looks are left.
    GiveUp,
}

/// The step after look number `attempt` (counted from 0), which found the
/// window or not.
pub fn on_top_next(attempt: u8, found: bool) -> (a: OnTopAction)
    ensures
        a == (if found {
            OnTopAction::SetTopmost
        } else if attempt + 1 < ON_TOP_ATTEMPTS {
            OnTopAction::Retry
        } else {
            OnTopAction::GiveUp
        }),
{
    if found {
        OnTopAction::SetTopmost
    } else if attempt < ON_TOP_ATTEMPTS - 1 {
        OnTopAction::Retry
    } else {
        OnTopAction::GiveUp
    }
}

} // verus!
