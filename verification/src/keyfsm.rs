//! The command state machine that sequences the bridge's foreground work.

use vstd::prelude::*;

verus! {

/// LED state toward the keyboard: one bit each for Scroll, Num and Caps lock.
#[derive(Clone, Copy, PartialEq, Eq, Structural, Debug)]
pub struct LedMask {
    pub mask: u8,
}

impl LedMask {
    /// All LEDs off.
    pub fn empty() -> (r: LedMask)
        ensures
            r.mask == 0,
    {
        LedMask { mask: 0 }
    }

    /// The raw mask byte, as the set-LEDs command wants it.
    pub fn bits(&self) -> (r: u8)
        ensures
            r == self.mask,
    {
        self.mask
    }
}

/// A command the state machine hands to the foreground loop.
#[derive(Clone, Copy, PartialEq, Eq, Structural, Debug)]
pub enum Cmd {
    /// Flush the keycode buffer.
    ClearBuffer,
    /// Send the LED state to the keyboard.
    ToggleLed(LedMask),
    /// Send one scancode byte to the XT host.
    SendXtKey(u8),
    /// Block until a key arrives or the host asks for a reset.
    WaitForKey,
}

impl Cmd {
    /// Reset command byte toward the keyboard.
    pub const RESET: u8 = 0xFF;

    /// Self-test-passed byte toward the XT host.
    pub const SELF_TEST_PASSED: u8 = 0xAA;

    /// Set-LEDs command byte toward the keyboard.
    pub const SET_LEDS: u8 = 0xED;
}

/// What the foreground loop reports back after carrying out a command.
#[derive(Clone, Copy, PartialEq, Eq, Structural, Debug)]
pub enum ProcReply {
    /// Nothing done yet: the first iteration after boot.
    NothingToDo,
    /// The keycode buffer was flushed.
    ClearedBuffer,
    /// The LED state was sent.
    LedToggled(LedMask),
    /// A key arrived and was decoded to this XT byte.
    GrabbedKey(u8),
    /// The XT byte was sent to the host.
    SentKey(u8),
    /// The host asked for a reset and the keyboard was reset.
    KeyboardReset,
}

impl ProcReply {
    /// The reply fed into the very first state-machine step.
    pub fn init() -> (r: ProcReply)
        ensures
            r == ProcReply::NothingToDo,
    {
        ProcReply::NothingToDo
    }
}

/// The state of the command machine.
#[derive(Clone, Copy, PartialEq, Eq, Structural, Debug)]
pub enum FsmState {
    /// Reset sent to the keyboard at boot, nothing sequenced yet.
    NotInReset,
    /// Waiting for the keycode buffer to be flushed.
    WaitForKeyClr,
    /// Waiting for the Caps-lock LED state to be acknowledged.
    WaitForCapsClr,
    /// Waiting for the Num-lock LED state to be acknowledged.
    WaitForNumClr,
    /// Waiting for the Scroll-lock LED state to be acknowledged.
    WaitForScrollClr,
    /// Waiting for the forwarded key to reach the XT host.
    WaitForKeyRelease,
    /// Waiting for the next key from the keyboard.
    ExpectingKey,
}

/// The transition table: for a state and a reply, the command to emit and
/// the state to move to, or nothing where the reply does not belong to the
/// state. A `KeyboardReset` reply preempts every state.
pub open spec fn spec_step(s: FsmState, reply: ProcReply) -> Option<(Cmd, FsmState)> {
    match reply {
        ProcReply::KeyboardReset => Some((Cmd::ClearBuffer, FsmState::WaitForKeyClr)),
        ProcReply::NothingToDo => if s == FsmState::NotInReset {
            Some((Cmd::ClearBuffer, FsmState::WaitForKeyClr))
        } else {
            None
        },
        ProcReply::ClearedBuffer => if s == FsmState::WaitForKeyClr {
            Some((Cmd::ToggleLed(LedMask { mask: 0 }), FsmState::WaitForCapsClr))
        } else {
            None
        },
        ProcReply::LedToggled(_) => if s == FsmState::WaitForCapsClr {
            Some((Cmd::WaitForKey, FsmState::ExpectingKey))
        } else {
            None
        },
        ProcReply::GrabbedKey(k) => if s == FsmState::ExpectingKey {
            Some((Cmd::SendXtKey(k), FsmState::WaitForKeyRelease))
        } else {
            None
        },
        ProcReply::SentKey(_) => if s == FsmState::WaitForKeyRelease {
            Some((Cmd::WaitForKey, FsmState::ExpectingKey))
        } else {
            None
        },
    }
}

/// The command state machine.
pub struct Fsm {
    pub state: FsmState,
}

impl Fsm {
    pub fn start() -> (r: Fsm)
        ensures
            r.state == FsmState::NotInReset,
    {
        Fsm { state: FsmState::NotInReset }
    }

    /// Advances by one `(reply, command)` exchange.
    ///
    /// Returns the next command and moves to the next state exactly as
    /// [`spec_step`] lays the table out; a reply that does not belong to the
    /// current state is an error and changes nothing.
    pub fn run(&mut self, reply: &ProcReply) -> (r: Result<Cmd, ()>)
        ensures
            spec_step(old(self).state, *reply) matches Some(p) ==> r == Ok::<Cmd, ()>(p.0)
                && final (self).state == p.1,
            spec_step(old(self).state, *reply) is None ==> r is Err && *final (self) == *old(
                self,
            ),
    {
        match reply {
            ProcReply::KeyboardReset => {
                self.state = FsmState::WaitForKeyClr;
                Ok(Cmd::ClearBuffer)
            },
            ProcReply::NothingToDo => {
                if self.state == FsmState::NotInReset {
                    self.state = FsmState::WaitForKeyClr;
                    Ok(Cmd::ClearBuffer)
                } else {
                    Err(())
                }
            },
            ProcReply::ClearedBuffer => {
                if self.state == FsmState::WaitForKeyClr {
                    self.state = FsmState::WaitForCapsClr;
                    Ok(Cmd::ToggleLed(LedMask::empty()))
                } else {
                    Err(())
                }
            },
            ProcReply::LedToggled(_) => {
                if self.state == FsmState::WaitForCapsClr {
                    self.state = FsmState::ExpectingKey;
                    Ok(Cmd::WaitForKey)
                } else {
                    Err(())
                }
            },
            ProcReply::GrabbedKey(k) => {
                if self.state == FsmState::ExpectingKey {
                    self.state = FsmState::WaitForKeyRelease;
                    Ok(Cmd::SendXtKey(*k))
                } else {
                    Err(())
                }
            },
            ProcReply::SentKey(_) => {
                if self.state == FsmState::WaitForKeyRelease {
                    self.state = FsmState::ExpectingKey;
                    Ok(Cmd::WaitForKey)
                } else {
                    Err(())
                }
            },
        }
    }
}

} // verus!
