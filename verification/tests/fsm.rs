use at2xt::Cmd;
use at2xt::Fsm;
use at2xt::FsmState;
use at2xt::LedMask;
use at2xt::ProcReply;

#[test]
fn command_bytes() {
    assert_eq!(Cmd::RESET, 0xFF);
    assert_eq!(Cmd::SELF_TEST_PASSED, 0xAA);
    assert_eq!(Cmd::SET_LEDS, 0xED);
}

#[test]
fn fsm_happy_path() {
    let mut fsm = Fsm::start();
    assert_eq!(fsm.state, FsmState::NotInReset);

    assert_eq!(fsm.run(&ProcReply::init()), Ok(Cmd::ClearBuffer));
    assert_eq!(fsm.state, FsmState::WaitForKeyClr);

    assert_eq!(
        fsm.run(&ProcReply::ClearedBuffer),
        Ok(Cmd::ToggleLed(LedMask::empty()))
    );
    assert_eq!(fsm.state, FsmState::WaitForCapsClr);

    assert_eq!(
        fsm.run(&ProcReply::LedToggled(LedMask::empty())),
        Ok(Cmd::WaitForKey)
    );
    assert_eq!(fsm.state, FsmState::ExpectingKey);

    assert_eq!(
        fsm.run(&ProcReply::GrabbedKey(0x1C)),
        Ok(Cmd::SendXtKey(0x1C))
    );
    assert_eq!(fsm.state, FsmState::WaitForKeyRelease);

    assert_eq!(fsm.run(&ProcReply::SentKey(0x1C)), Ok(Cmd::WaitForKey));
    assert_eq!(fsm.state, FsmState::ExpectingKey);

    // The loop then alternates between expecting and forwarding keys.
    assert_eq!(
        fsm.run(&ProcReply::GrabbedKey(0x32)),
        Ok(Cmd::SendXtKey(0x32))
    );
    assert_eq!(fsm.state, FsmState::WaitForKeyRelease);
}

#[test]
fn fsm_reset_preempts_every_state() {
    let states = [
        FsmState::NotInReset,
        FsmState::WaitForKeyClr,
        FsmState::WaitForCapsClr,
        FsmState::WaitForNumClr,
        FsmState::WaitForScrollClr,
        FsmState::WaitForKeyRelease,
        FsmState::ExpectingKey,
    ];
    for s in states {
        let mut fsm = Fsm { state: s };
        assert_eq!(fsm.run(&ProcReply::KeyboardReset), Ok(Cmd::ClearBuffer));
        assert_eq!(fsm.state, FsmState::WaitForKeyClr);
    }
}

#[test]
fn fsm_rejects_reply_foreign_to_state() {
    let mut fsm = Fsm { state: FsmState::ExpectingKey };
    assert_eq!(fsm.run(&ProcReply::ClearedBuffer), Err(()));
    assert_eq!(fsm.state, FsmState::ExpectingKey);

    let mut fsm = Fsm { state: FsmState::WaitForKeyClr };
    assert_eq!(fsm.run(&ProcReply::SentKey(0x01)), Err(()));
    assert_eq!(fsm.state, FsmState::WaitForKeyClr);

    let mut fsm = Fsm { state: FsmState::WaitForCapsClr };
    assert_eq!(fsm.run(&ProcReply::NothingToDo), Err(()));
    assert_eq!(fsm.state, FsmState::WaitForCapsClr);

    let mut fsm = Fsm { state: FsmState::WaitForKeyRelease };
    assert_eq!(fsm.run(&ProcReply::GrabbedKey(0x1C)), Err(()));
    assert_eq!(fsm.state, FsmState::WaitForKeyRelease);
}

#[test]
fn led_mask_bits_round_trip() {
    assert_eq!(LedMask::empty().bits(), 0);
    let m = LedMask { mask: 0b101 };
    assert_eq!(m.bits(), 0b101);
}
