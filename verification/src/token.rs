//! Critical-section witness.

use vstd::prelude::*;

verus! {

/// Zero-sized witness that interrupts are masked.
///
/// Every operation on state that is shared between the foreground and an
/// interrupt handler takes a reference to one of these. On the target, the
/// only place a token comes from is the interrupt-masking bracket, so a call
/// that holds one cannot be preempted by a handler that touches the same
/// state. A hosted caller (the test harness, a simulator) constructs one
/// directly with [`CriticalSectionToken::new`] and stands for the bracket
/// itself: it must not call into the shared state from two contexts at once.
pub struct CriticalSectionToken {
    _private: (),
}

impl CriticalSectionToken {
    /// Asserts that the caller runs with interrupts masked.
    pub fn new() -> CriticalSectionToken {
        CriticalSectionToken { _private: () }
    }
}

} // verus!
