use ner_firmware::lightning::frames::{bms_can_id, classify_frame, imd_can_id, latching_can_id, CanId, FaultframeState};
use ner_firmware::lightning::leds::Leds;
use ner_firmware::lightning::state::{LightningState, State};

#[test]
fn imd_all_zero_bytes_is_ok() {
    assert_eq!(classify_frame(imd_can_id(), &[0, 0, 0, 0]), Some(FaultframeState::IMDOk));
    assert_eq!(classify_frame(imd_can_id(), &[]), Some(FaultframeState::IMDOk));
}

#[test]
fn imd_nonzero_sum_is_fault() {
    assert_eq!(classify_frame(imd_can_id(), &[0, 1, 0]), Some(FaultframeState::IMDFault));
}

#[test]
fn imd_sum_wraps_at_256() {
    // 0x80 + 0x80 wraps to 0 in u8 arithmetic.
    assert_eq!(classify_frame(imd_can_id(), &[0x80, 0x80]), Some(FaultframeState::IMDOk));
}

#[test]
fn bms_top_bit_decides() {
    assert_eq!(classify_frame(bms_can_id(), &[0x80, 0]), Some(FaultframeState::BMSFault));
    assert_eq!(classify_frame(bms_can_id(), &[0x7f, 0xff]), Some(FaultframeState::BMSOk));
}

#[test]
fn latch_top_bit_requests_reset() {
    assert_eq!(classify_frame(latching_can_id(), &[0xff]), Some(FaultframeState::ResetRequested));
    assert_eq!(classify_frame(latching_can_id(), &[0x01]), None);
}

#[test]
fn unknown_ids_are_ignored() {
    assert_eq!(classify_frame(CanId::Standard(0x123), &[0xff]), None);
    // Same raw value as the BMS id, but standard rather than extended.
    assert_eq!(classify_frame(CanId::Standard(0x37), &[0xff]), None);
    assert_eq!(classify_frame(CanId::Extended(0x501), &[0xff]), None);
}

#[test]
fn ids_have_expected_values() {
    assert_eq!(imd_can_id(), CanId::Standard(0x501));
    assert_eq!(bms_can_id(), CanId::Extended(0x37));
    assert_eq!(latching_can_id(), CanId::Standard(0x510));
}

fn off() -> Leds {
    Leds { red: false, green: false }
}
fn red() -> Leds {
    Leds { red: true, green: false }
}
fn green() -> Leds {
    Leds { red: false, green: true }
}

#[test]
fn boot_state_is_grace_period() {
    let s = LightningState::new();
    assert_eq!(s.current(), State::Startup);
    assert!(s.in_grace_period());
}

#[test]
fn fault_during_grace_keeps_lights_off_and_ends_grace() {
    let mut s = LightningState::new();
    let out = s.step(Some(Some(FaultframeState::BMSFault)));
    assert_eq!(out.leds, off());
    assert!(!out.wait);
    assert_eq!(s.current(), State::Startup);
    assert!(!s.in_grace_period());
    // Now the fault latches red.
    let out = s.step(Some(Some(FaultframeState::IMDFault)));
    assert_eq!(out.leds, red());
    assert_eq!(s.current(), State::Red);
}

#[test]
fn reset_during_grace_is_ignored() {
    let mut s = LightningState::new();
    let before = s;
    let out = s.step(Some(Some(FaultframeState::ResetRequested)));
    assert_eq!(s, before);
    assert_eq!(out.leds, off());
}

#[test]
fn ok_frames_turn_green_after_grace() {
    let mut s = LightningState::new();
    let out = s.step(Some(Some(FaultframeState::BMSOk)));
    assert_eq!(out.leds, off());
    assert_eq!(s.current(), State::Startup);
    let out = s.step(Some(Some(FaultframeState::IMDOk)));
    assert_eq!(out.leds, green());
    assert_eq!(s.current(), State::Green);
}

#[test]
fn red_latches_until_reset() {
    let mut s = LightningState::new();
    s.step(Some(Some(FaultframeState::BMSOk)));
    s.step(Some(Some(FaultframeState::BMSFault)));
    assert_eq!(s.current(), State::Red);
    for item in [
        Some(Some(FaultframeState::BMSOk)),
        Some(Some(FaultframeState::IMDOk)),
        None,
        Some(None),
        Some(Some(FaultframeState::IMDFault)),
    ] {
        let out = s.step(item);
        assert_eq!(out.leds, red());
        assert_eq!(s.current(), State::Red);
    }
    let out = s.step(Some(Some(FaultframeState::ResetRequested)));
    assert_eq!(out.leds, green());
    assert_eq!(s.current(), State::Green);
}

#[test]
fn empty_queue_or_unrelated_frame_waits() {
    let mut s = LightningState::new();
    let out = s.step(None);
    assert!(out.wait);
    let out = s.step(Some(None));
    assert!(out.wait);
    assert_eq!(s, LightningState::new());
}

#[test]
fn leds_patterns() {
    let mut l = Leds::new();
    assert_eq!(l, off());
    l.set_red_on();
    assert_eq!(l, red());
    l.set_green_on();
    assert_eq!(l, green());
    l.set_all_off();
    assert_eq!(l, off());
}

use ner_firmware::lightning::inbox::Inbox;

#[test]
fn inbox_is_fifo_and_holds_32() {
    let mut inbox = Inbox::new();
    assert_eq!(inbox.dequeue(), None);
    assert_eq!(inbox.deliver_frame(bms_can_id(), &[0x80]), Ok(()));
    assert_eq!(inbox.deliver_timeout(), Ok(()));
    assert_eq!(inbox.deliver_frame(CanId::Standard(0x100), &[]), Ok(()));
    assert_eq!(inbox.dequeue(), Some(Some(FaultframeState::BMSFault)));
    assert_eq!(inbox.dequeue(), Some(None));
    assert_eq!(inbox.dequeue(), Some(None));
    assert_eq!(inbox.dequeue(), None);
    for _ in 0..32 {
        assert_eq!(inbox.deliver_frame(imd_can_id(), &[0]), Ok(()));
    }
    assert_eq!(inbox.deliver_frame(imd_can_id(), &[0]), Err(()));
    assert_eq!(inbox.deliver_timeout(), Err(()));
}

#[test]
fn state_machine_consumes_inbox_in_order() {
    let mut inbox = Inbox::new();
    let mut s = LightningState::new();
    inbox.deliver_frame(imd_can_id(), &[0]).unwrap();
    inbox.deliver_frame(bms_can_id(), &[0x80]).unwrap();
    inbox.deliver_frame(bms_can_id(), &[0x00]).unwrap();
    let out = s.step_from_inbox(&mut inbox);
    assert_eq!(out.leds, off());
    let out = s.step_from_inbox(&mut inbox);
    assert_eq!(out.leds, red());
    let out = s.step_from_inbox(&mut inbox);
    assert_eq!(out.leds, red());
    let out = s.step_from_inbox(&mut inbox);
    assert!(out.wait);
    assert_eq!(out.leds, red());
}
