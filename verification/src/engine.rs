//! Decision logic of the bit engines and of the foreground transmitters.
//!
//! Everything here computes from sampled line levels and shared state to the
//! actions the surrounding program must perform on the pins. The program
//! samples, calls one of these functions under a critical-section token
//! where shared state is touched, and then drives the lines as the returned
//! value says.

use vstd::prelude::*;

verus! {

use crate::bits::raw_of_frame;
use crate::bits::spec_reverse_bits;
use crate::keybuffer::KeyIn;
use crate::keybuffer::KeyOut;
use crate::keybuffer::KeycodeBuffer;
use crate::token::CriticalSectionToken;

/// Pin work the AT-clock edge engine asks of its caller, to be done in this
/// order: drive or release AT_DATA, assert the inhibit, then return the bus
/// to idle.
#[derive(Clone, Copy, PartialEq, Eq, Structural, Debug)]
pub struct EngineOutput {
    /// Drive AT_DATA to this level (`true` releases the line high).
    pub drive_at_data: Option<bool>,
    /// Drive AT_CLK low so the keyboard holds off while a frame is consumed.
    pub at_inhibit: bool,
    /// Release AT_CLK and AT_DATA.
    pub at_idle: bool,
    /// Record that the keyboard acknowledged the transmitted frame.
    pub device_ack: bool,
}

/// The frame a draining edge hands to the buffer: the register's contents
/// after the sampled bit went in, or as they stand if the register could
/// take no more.
pub open spec fn captured_frame(k: KeyIn, bit: bool) -> u16 {
    if k.pos == 11 {
        k.contents
    } else {
        (k.contents << 1u16) | (if bit {
            1u16
        } else {
            0u16
        })
    }
}

/// One falling edge of the AT clock.
///
/// In host mode the engine drains `key_out`: while bits remain it shifts one
/// out for the caller to put on AT_DATA, releasing the bus right after the
/// stop bit; once empty, a low AT_DATA sample is the keyboard's acknowledge
/// and clears the register, while a high sample is a spurious edge and does
/// nothing. Otherwise the engine feeds `key_in`: the sampled bit is shifted
/// in, and a full register is drained into `buffer` (dropped there if the
/// ring is full) between an inhibit and a return to idle.
pub fn at_clk_edge(
    host_mode: bool,
    at_data_high: bool,
    key_in: &mut KeyIn,
    key_out: &mut KeyOut,
    buffer: &mut KeycodeBuffer,
    ctx: &CriticalSectionToken,
) -> (r: EngineOutput)
    requires
        old(key_in).wf(),
        old(key_out).wf(),
        old(buffer).wf(),
    ensures
        final (key_in).wf(),
        final (key_out).wf(),
        final (buffer).wf(),
        host_mode ==> *final (key_in) == *old(key_in) && *final (buffer) == *old(buffer),
        !host_mode ==> *final (key_out) == *old(key_out),
        host_mode && old(key_out).pos <= 9 ==> {
            &&& r.drive_at_data == Some((old(key_out).contents & 1) == 1)
            &&& r.at_inhibit == false
            &&& r.at_idle == (old(key_out).pos + 1 > 9)
            &&& r.device_ack == false
            &&& final (key_out).contents == old(key_out).contents >> 1u16
            &&& final (key_out).pos == old(key_out).pos + 1
        },
        host_mode && old(key_out).pos > 9 && !at_data_high ==> {
            &&& r == (EngineOutput {
                drive_at_data: None,
                at_inhibit: false,
                at_idle: false,
                device_ack: true,
            })
            &&& final (key_out).pos == 10
            &&& final (key_out).contents == 0
        },
        host_mode && old(key_out).pos > 9 && at_data_high ==> {
            &&& r == (EngineOutput {
                drive_at_data: None,
                at_inhibit: false,
                at_idle: false,
                device_ack: false,
            })
            &&& *final (key_out) == *old(key_out)
        },
        !host_mode && old(key_in).pos < 10 ==> {
            &&& r == (EngineOutput {
                drive_at_data: None,
                at_inhibit: false,
                at_idle: false,
                device_ack: false,
            })
            &&& final (key_in).pos == old(key_in).pos + 1
            &&& final (key_in).contents == captured_frame(*old(key_in), at_data_high)
            &&& *final (buffer) == *old(buffer)
        },
        !host_mode && old(key_in).pos >= 10 ==> {
            &&& r == (EngineOutput {
                drive_at_data: None,
                at_inhibit: true,
                at_idle: true,
                device_ack: false,
            })
            &&& final (key_in).pos == 0
            &&& final (key_in).contents == 0
            &&& (old(buffer).queue().len() < 16 ==> final (buffer).queue() == old(
                buffer,
            ).queue().push(captured_frame(*old(key_in), at_data_high)))
            &&& (old(buffer).queue().len() == 16 ==> *final (buffer) == *old(buffer))
        },
{
    if host_mode {
        if !key_out.is_empty() {
            let bit = key_out.shift_out(ctx);
            let idle_now = key_out.is_empty();
            EngineOutput {
                drive_at_data: Some(bit),
                at_inhibit: false,
                at_idle: idle_now,
                device_ack: false,
            }
        } else if !at_data_high {
            // The keyboard pulled DATA low: the acknowledge of the frame.
            key_out.clear(ctx);
            EngineOutput { drive_at_data: None, at_inhibit: false, at_idle: false, device_ack: true }
        } else {
            // A spurious edge before the acknowledge; another edge will come.
            EngineOutput {
                drive_at_data: None,
                at_inhibit: false,
                at_idle: false,
                device_ack: false,
            }
        }
    } else {
        let _ = key_in.shift_in(at_data_high, ctx);
        if key_in.is_full() {
            let frame = match key_in.take(ctx) {
                Some(k) => k,
                None => 0,  // unreachable: the register is full
            };
            buffer.put(frame, ctx);
            key_in.clear(ctx);
            EngineOutput { drive_at_data: None, at_inhibit: true, at_idle: true, device_ack: false }
        } else {
            EngineOutput {
                drive_at_data: None,
                at_inhibit: false,
                at_idle: false,
                device_ack: false,
            }
        }
    }
}

/// The ten bits of one XT frame for a byte, in wire order: a zero start
/// bit, a one start bit, then the data bits least-significant first.
pub fn xt_frame(byte: u8) -> (r: Vec<bool>)
    ensures
        r@.len() == 10,
        r@[0] == false,
        r@[1] == true,
        forall|j: u8| j < 8 ==> r@[j + 2] == (((byte >> j) & 1) == 1),
{
    let mut v: Vec<bool> = Vec::new();
    v.push(false);
    v.push(true);
    let mut i: u8 = 0;
    while i < 8
        invariant
            i <= 8,
            v@.len() == 2 + i as int,
            v@[0] == false,
            v@[1] == true,
            forall|j: u8| j < i ==> v@[j + 2] == (((byte >> j) & 1) == 1),
        decreases 8 - i,
    {
        let bit: bool = ((byte >> i) & 1) == 1;
        v.push(bit);
        i = i + 1;
    }
    v
}

/// Whether the XT host has released both lines; it holds XT_CLK or XT_DATA
/// low to signal reset or a full shift register. Only when both float high
/// may the bridge take the bus and clock a frame out.
pub fn xt_host_ready(xt_clk_high: bool, xt_data_high: bool) -> (r: bool)
    ensures
        r == (xt_clk_high && xt_data_high),
{
    xt_clk_high && xt_data_high
}

/// What the keyboard-wait loop does with one poll: a frame from the buffer
/// decodes to a grabbed scancode; with no frame pending, a low XT_SENSE is
/// the host's reset request; otherwise the loop keeps waiting.
#[derive(Clone, Copy, PartialEq, Eq, Structural, Debug)]
pub enum KeyPoll {
    /// A frame arrived and decoded to this scancode byte.
    Grabbed(u8),
    /// The host requests a bridge reset.
    HostReset,
    /// Nothing to do; poll again.
    Idle,
}

/// One poll of the blocking keyboard wait: `taken` is what the keycode
/// buffer yielded under the token, `xt_sense_high` the sampled XT_SENSE
/// level. A pending frame wins over a reset request.
pub fn wait_for_key_step(taken: Option<u16>, xt_sense_high: bool) -> (r: KeyPoll)
    ensures
        taken matches Some(f) ==> r == KeyPoll::Grabbed(spec_reverse_bits(raw_of_frame(f))),
        taken is None && !xt_sense_high ==> r == KeyPoll::HostReset,
        taken is None && xt_sense_high ==> r == KeyPoll::Idle,
{
    match taken {
        Some(f) => KeyPoll::Grabbed(crate::bits::decode_frame(f)),
        None => {
            if !xt_sense_high {
                KeyPoll::HostReset
            } else {
                KeyPoll::Idle
            }
        },
    }
}

/// Timer ticks for a delay in microseconds: the timer runs at a hundred
/// kilohertz, ten microseconds a tick, rounded up by a whole tick.
pub fn ticks_for_us(us: u16) -> (r: u16)
    ensures
        r == us / 10 + 1,
{
    us / 10 + 1
}

/// Ticks of the request-to-send hold: a hundred microseconds of AT_CLK held
/// low before the start bit, as `ticks_for_us(100)` gives.
pub const RTS_DELAY_TICKS: u16 = 11;

/// Ticks between the start bit and the release of the bus: thirty-three
/// microseconds, as `ticks_for_us(33)` gives.
pub const START_BIT_DELAY_TICKS: u16 = 4;

/// Where a transmission toward the keyboard stands.
#[derive(Clone, Copy, PartialEq, Eq, Structural, Debug)]
pub enum AtSendPhase {
    /// Nothing done yet: load the frame and silence the clock interrupt.
    Load,
    /// Waiting for the keyboard to leave AT_CLK high.
    AwaitBusIdle,
    /// Holding the clock low: the request to send.
    Rts,
    /// Start bit on the wire; about to hand the clock to the keyboard.
    StartBit,
    /// The keyboard clocks the frame out; waiting for its acknowledge.
    AwaitAck,
    /// The byte is sent and acknowledged.
    Done,
}

/// What the foreground learned or did since the last step.
#[derive(Clone, Copy, PartialEq, Eq, Structural, Debug)]
pub enum AtSendEvent {
    /// Start the transmission.
    Begin,
    /// AT_CLK was sampled at this level.
    ClkSampled(bool),
    /// The delay the last step asked for has elapsed.
    DelayElapsed,
    /// The device-acknowledge flag was read at this value.
    AckSampled(bool),
}

/// Work one step of the transmission asks of its caller, to be done in
/// field order: load the frame into the transmit register and disable the
/// AT-clock interrupt, assert the inhibit, start the one-shot delay, drive
/// AT_DATA low, release AT_CLK with the interrupt cleared and re-enabled,
/// set the host-mode flag, set the device-acknowledge flag.
#[derive(Clone, Copy, PartialEq, Eq, Structural, Debug)]
pub struct AtSendEffect {
    /// Under the token: `KeyOut::put` this byte and disable the AT-clock
    /// interrupt.
    pub load_byte: Option<u8>,
    /// Drive AT_CLK low.
    pub at_inhibit: bool,
    /// Start the one-shot timer for this many ticks and wait it out.
    pub start_delay: Option<u16>,
    /// Drive AT_DATA low: the AT start bit.
    pub drive_data_low: bool,
    /// Release AT_CLK to the keyboard, with the edge interrupt acknowledged
    /// and re-enabled.
    pub release_bus: bool,
    /// Store this value to the host-mode flag.
    pub set_host_mode: Option<bool>,
    /// Store this value to the device-acknowledge flag.
    pub set_device_ack: Option<bool>,
}

/// The step that asks nothing of the caller.
pub open spec fn at_send_no_effect() -> AtSendEffect {
    AtSendEffect {
        load_byte: None,
        at_inhibit: false,
        start_delay: None,
        drive_data_low: false,
        release_bus: false,
        set_host_mode: None,
        set_device_ack: None,
    }
}

/// The transition table of one transmission toward the keyboard, phase and
/// event to effect and next phase. An event that does not belong to the
/// phase asks nothing and stays put; in particular a low clock sample while
/// waiting for the bus, or a clear acknowledge flag while waiting for the
/// keyboard, just polls again.
pub open spec fn at_send_spec(phase: AtSendPhase, byte: u8, ev: AtSendEvent) -> (
    AtSendEffect,
    AtSendPhase,
) {
    match (phase, ev) {
        (AtSendPhase::Load, AtSendEvent::Begin) => (
            AtSendEffect { load_byte: Some(byte), ..at_send_no_effect() },
            AtSendPhase::AwaitBusIdle,
        ),
        (AtSendPhase::AwaitBusIdle, AtSendEvent::ClkSampled(high)) => if high {
            (
                AtSendEffect {
                    at_inhibit: true,
                    start_delay: Some(RTS_DELAY_TICKS),
                    ..at_send_no_effect()
                },
                AtSendPhase::Rts,
            )
        } else {
            (at_send_no_effect(), AtSendPhase::AwaitBusIdle)
        },
        (AtSendPhase::Rts, AtSendEvent::DelayElapsed) => (
            AtSendEffect {
                drive_data_low: true,
                start_delay: Some(START_BIT_DELAY_TICKS),
                ..at_send_no_effect()
            },
            AtSendPhase::StartBit,
        ),
        (AtSendPhase::StartBit, AtSendEvent::DelayElapsed) => (
            AtSendEffect {
                release_bus: true,
                set_host_mode: Some(true),
                set_device_ack: Some(false),
                ..at_send_no_effect()
            },
            AtSendPhase::AwaitAck,
        ),
        (AtSendPhase::AwaitAck, AtSendEvent::AckSampled(acked)) => if acked {
            (
                AtSendEffect { set_host_mode: Some(false), ..at_send_no_effect() },
                AtSendPhase::Done,
            )
        } else {
            (at_send_no_effect(), AtSendPhase::AwaitAck)
        },
        _ => (at_send_no_effect(), phase),
    }
}

/// One transmission of a byte toward the keyboard.
///
/// The foreground drives it event by event: it performs the pin work each
/// step returns, then feeds the next sample or elapsed delay back in. While
/// the phase is `AwaitAck` the AT-clock edge engine owns the transmit
/// register and clocks the frame out; the acknowledge sample read true ends
/// the transmission and takes the register back.
pub struct AtSender {
    pub byte: u8,
    pub phase: AtSendPhase,
}

impl AtSender {
    /// A fresh transmission of `byte`, nothing done yet.
    pub fn begin(byte: u8) -> (r: AtSender)
        ensures
            r.byte == byte,
            r.phase == AtSendPhase::Load,
    {
        AtSender { byte, phase: AtSendPhase::Load }
    }

    /// Advances by one event, exactly as [`at_send_spec`] lays the table out.
    pub fn step(&mut self, ev: AtSendEvent) -> (r: AtSendEffect)
        ensures
            final (self).byte == old(self).byte,
            r == at_send_spec(old(self).phase, old(self).byte, ev).0,
            final (self).phase == at_send_spec(old(self).phase, old(self).byte, ev).1,
    {
        match (self.phase, ev) {
            (AtSendPhase::Load, AtSendEvent::Begin) => {
                self.phase = AtSendPhase::AwaitBusIdle;
                AtSendEffect {
                    load_byte: Some(self.byte),
                    at_inhibit: false,
                    start_delay: None,
                    drive_data_low: false,
                    release_bus: false,
                    set_host_mode: None,
                    set_device_ack: None,
                }
            },
            (AtSendPhase::AwaitBusIdle, AtSendEvent::ClkSampled(high)) => {
                if high {
                    self.phase = AtSendPhase::Rts;
                    AtSendEffect {
                        load_byte: None,
                        at_inhibit: true,
                        start_delay: Some(RTS_DELAY_TICKS),
                        drive_data_low: false,
                        release_bus: false,
                        set_host_mode: None,
                        set_device_ack: None,
                    }
                } else {
                    self.no_effect()
                }
            },
            (AtSendPhase::Rts, AtSendEvent::DelayElapsed) => {
                self.phase = AtSendPhase::StartBit;
                AtSendEffect {
                    load_byte: None,
                    at_inhibit: false,
                    start_delay: Some(START_BIT_DELAY_TICKS),
                    drive_data_low: true,
                    release_bus: false,
                    set_host_mode: None,
                    set_device_ack: None,
                }
            },
            (AtSendPhase::StartBit, AtSendEvent::DelayElapsed) => {
                self.phase = AtSendPhase::AwaitAck;
                AtSendEffect {
                    load_byte: None,
                    at_inhibit: false,
                    start_delay: None,
                    drive_data_low: false,
                    release_bus: true,
                    set_host_mode: Some(true),
                    set_device_ack: Some(false),
                }
            },
            (AtSendPhase::AwaitAck, AtSendEvent::AckSampled(acked)) => {
                if acked {
                    self.phase = AtSendPhase::Done;
                    AtSendEffect {
                        load_byte: None,
                        at_inhibit: false,
                        start_delay: None,
                        drive_data_low: false,
                        release_bus: false,
                        set_host_mode: Some(false),
                        set_device_ack: None,
                    }
                } else {
                    self.no_effect()
                }
            },
            _ => self.no_effect(),
        }
    }

    fn no_effect(&self) -> (r: AtSendEffect)
        ensures
            r == at_send_no_effect(),
    {
        AtSendEffect {
            load_byte: None,
            at_inhibit: false,
            start_delay: None,
            drive_data_low: false,
            release_bus: false,
            set_host_mode: None,
            set_device_ack: None,
        }
    }
}

} // verus!
