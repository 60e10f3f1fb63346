//! Verified core of an AT-to-XT keyboard bridge.
//!
//! The library holds the protocol logic of the bridge: the bit-serial shift
//! registers for one AT frame each, the single-producer/single-consumer
//! keycode ring, the command state machine, and the decision logic of the
//! AT-clock edge engine and of the two transmitters. Pin sampling, pin
//! driving, delays and interrupt masking are left to the surrounding
//! program, which hands the library plain values and performs the actions
//! the library decides on.

mod bits;
mod engine;
mod keybuffer;
mod keyfsm;
mod token;

pub use bits::compute_parity;
pub use bits::decode_frame;
pub use bits::lemma_capture_decode;
pub use bits::lemma_reverse_bits_involution;
pub use bits::odd_parity;
pub use bits::popcount16;
pub use bits::popcount8;
pub use bits::raw_of_frame;
pub use bits::spec_reverse_bits;
pub use bits::wire_frame;
pub use engine::at_clk_edge;
pub use engine::at_send_no_effect;
pub use engine::at_send_spec;
pub use engine::AtSendEffect;
pub use engine::AtSendEvent;
pub use engine::AtSendPhase;
pub use engine::AtSender;
pub use engine::RTS_DELAY_TICKS;
pub use engine::START_BIT_DELAY_TICKS;
pub use engine::captured_frame;
pub use engine::ticks_for_us;
pub use engine::wait_for_key_step;
pub use engine::xt_frame;
pub use engine::xt_host_ready;
pub use engine::EngineOutput;
pub use engine::KeyPoll;
pub use keybuffer::frame_of;
pub use keybuffer::lemma_frame_bits;
pub use keybuffer::lemma_frame_parity;
pub use keybuffer::lemma_spsc_put_then_take;
pub use keybuffer::KeyIn;
pub use keybuffer::KeyOut;
pub use keybuffer::KeycodeBuffer;
pub use keybuffer::NotEmpty;
pub use keybuffer::Overfull;
pub use keyfsm::spec_step;
pub use keyfsm::Cmd;
pub use keyfsm::Fsm;
pub use keyfsm::FsmState;
pub use keyfsm::LedMask;
pub use keyfsm::ProcReply;
pub use token::CriticalSectionToken;
