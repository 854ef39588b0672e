use ner_firmware::cerberus::adc::{Adc1Channels, AdcMux};
use ner_firmware::cerberus::efuses::{Efuse, EfuseControlState, EfuseId};
use ner_firmware::cerberus::plca::{setup_plca, SmiWrite};
use ner_firmware::cerberus::rtds::{
    cancel_rtds, is_pin_on, is_shutdown_closed_placeholder, is_sounding, sound_rtds, Rtds, RtdsCommand,
    RtdsCommandQueue, RtdsError, RtdsEvent,
};

#[test]
fn rtds_queue_holds_four_commands() {
    let mut q = RtdsCommandQueue::new();
    assert_eq!(sound_rtds(&mut q), Ok(()));
    assert_eq!(cancel_rtds(&mut q), Ok(()));
    assert_eq!(sound_rtds(&mut q), Ok(()));
    assert_eq!(sound_rtds(&mut q), Ok(()));
    assert_eq!(cancel_rtds(&mut q), Err(RtdsError::QueueFull));
    assert_eq!(q.try_receive(), Some(RtdsCommand::Sound));
    assert_eq!(q.try_receive(), Some(RtdsCommand::Cancel));
    assert_eq!(q.try_receive(), Some(RtdsCommand::Sound));
    assert_eq!(q.try_receive(), Some(RtdsCommand::Sound));
    assert_eq!(q.try_receive(), None);
}

#[test]
fn shutdown_placeholder_is_open() {
    assert!(!is_shutdown_closed_placeholder());
}

#[test]
fn sound_with_shutdown_closed_plays_for_1500_ms() {
    let mut r = Rtds::new();
    assert!(!is_pin_on(&r));
    assert!(!is_sounding(&r));
    r.handle_command(RtdsCommand::Sound, true, 1_000);
    assert!(is_pin_on(&r));
    assert!(is_sounding(&r));
    assert_eq!(r.sound_deadline(), Some(1_000 + 1_500_000));
    r.handle_sound_deadline();
    assert!(!is_pin_on(&r));
    assert!(!is_sounding(&r));
    assert_eq!(r.sound_deadline(), None);
}

#[test]
fn sound_with_shutdown_open_keeps_pin_low() {
    let mut r = Rtds::new();
    r.handle_event(RtdsEvent::Command(RtdsCommand::Sound), false, 0);
    assert!(!is_pin_on(&r));
    // The deadline still runs.
    assert!(is_sounding(&r));
    r.handle_event(RtdsEvent::DeadlineReached, false, 5);
    assert!(!is_sounding(&r));
}

#[test]
fn cancel_stops_the_sound() {
    let mut r = Rtds::new();
    r.handle_event(RtdsEvent::Command(RtdsCommand::Sound), true, 0);
    r.handle_event(RtdsEvent::Command(RtdsCommand::Cancel), true, 10);
    assert!(!is_pin_on(&r));
    assert!(!is_sounding(&r));
}

#[test]
fn mux_files_each_side() {
    let mut m = AdcMux::new([30, 10, 50, 90, 60, 20, 130, 180, 150]);
    // Low side first.
    assert!(!m.switch_states());
    assert_eq!(m.get_efuse_data(EfuseId::EfuseBattbox), Some(10));
    assert_eq!(m.get_efuse_data(EfuseId::EfuseShutdown), Some(50));
    assert_eq!(m.get_efuse_data(EfuseId::EfuseBrake), Some(0));
    // Then the high side.
    assert!(m.switch_states());
    assert_eq!(m.get_efuse_data(EfuseId::EfuseBrake), Some(10));
    assert_eq!(m.get_efuse_data(EfuseId::EfuseLV), Some(50));
    assert_eq!(m.get_efuse_data(EfuseId::EfuseRadfan), Some(90));
    // And low again.
    assert!(!m.switch_states());
}

#[test]
fn direct_channels_and_spare() {
    let m = AdcMux::new([30, 10, 50, 90, 60, 20, 130, 180, 150]);
    assert_eq!(m.get_efuse_data(EfuseId::EfuseDashboard), Some(30));
    assert_eq!(m.get_efuse_data(EfuseId::EfuseFanbatt), Some(60));
    assert_eq!(m.get_efuse_data(EfuseId::EfusePump1), Some(20));
    assert_eq!(m.get_efuse_data(EfuseId::EfusePump2), Some(130));
    assert_eq!(m.get_efuse_data(EfuseId::EfuseMC), Some(180));
    assert_eq!(m.get_efuse_data(EfuseId::EfuseSpare), None);
    assert_eq!(Adc1Channels::Adc1Channel15.index(), 8);
    assert_eq!(Adc1Channels::Adc1Channel3.index(), 0);
}

#[test]
fn efuse_state() {
    let mut e = Efuse::new(EfuseId::EfusePump1, EfuseControlState::EfuseAuto);
    assert_eq!(e.get_id(), EfuseId::EfusePump1);
    assert_eq!(e.get_control_state(), EfuseControlState::EfuseAuto);
    assert!(!e.is_enabled());
    e.enable();
    assert!(e.is_enabled());
    e.disable();
    assert!(!e.is_enabled());
    e.update_control_state(EfuseControlState::EfuseOff);
    assert_eq!(e.get_control_state(), EfuseControlState::EfuseOff);
}

#[test]
fn efuse_full_scale_units() {
    let m = AdcMux::new([4095, 10, 50, 90, 8190, 4094, 130, 180, 150]);
    assert_eq!(Efuse::new(EfuseId::EfuseDashboard, EfuseControlState::EfuseOn).get_data_full_scale(&m), Some(1));
    assert_eq!(Efuse::new(EfuseId::EfuseFanbatt, EfuseControlState::EfuseOn).get_data_full_scale(&m), Some(2));
    assert_eq!(Efuse::new(EfuseId::EfusePump1, EfuseControlState::EfuseOn).get_data_full_scale(&m), Some(0));
    assert_eq!(Efuse::new(EfuseId::EfuseSpare, EfuseControlState::EfuseOn).get_data_full_scale(&m), None);
}

#[test]
fn plca_writes() {
    let w = setup_plca(0xCA02, 1);
    assert_eq!(w[0], SmiWrite { phy: 0, reg: 0x0D, val: 0x1F });
    assert_eq!(w[1], SmiWrite { phy: 0, reg: 0x0E, val: 0xCA02 });
    assert_eq!(w[2], SmiWrite { phy: 0, reg: 0x0D, val: 0x401F });
    assert_eq!(w[3], SmiWrite { phy: 0, reg: 0x0E, val: 1 });
}

#[test]
fn sound_with_shutdown_open_leaves_a_playing_pin_as_it_was() {
    let mut r = Rtds::new();
    r.handle_command(RtdsCommand::Sound, true, 0);
    assert!(is_pin_on(&r));
    r.handle_command(RtdsCommand::Sound, false, 10);
    // Shutdown is only checked when the pin would be turned on; a pin already high stays high.
    assert!(is_pin_on(&r));
    assert!(is_sounding(&r));
    assert_eq!(r.sound_deadline(), Some(10 + 1_500_000));
    r.handle_event(RtdsEvent::DeadlineReached, false, 1_500_010);
    assert!(!is_pin_on(&r));
    assert!(!is_sounding(&r));
}

#[test]
fn placeholder_shutdown_never_sounds() {
    let mut r = Rtds::new();
    for now in [0u64, 5, 1_000_000] {
        r.handle_event(RtdsEvent::Command(RtdsCommand::Sound), is_shutdown_closed_placeholder(), now);
        assert!(!is_pin_on(&r));
    }
}
