use periph_core::ClientId;
use periph_core::ReturnCode;
use periph_core::radio::AcctDirective;
use periph_core::radio::BusTransfer;
use periph_core::radio::MODE_MEASURE_PERIOD_MS;
use periph_core::radio::NO_READ_SENTINEL;
use periph_core::radio::OpMode;
use periph_core::radio::RadioAction;
use periph_core::radio::Rfm69;

fn fresh_radio() -> Rfm69 {
    Rfm69::new(vec![0u8; 4], vec![0u8; 4])
}

fn status_code(radio: &Rfm69) -> u64 {
    match radio.status() {
        ReturnCode::SuccessWithValue(code) => code,
        other => panic!("status must carry a value, got {:?}", other),
    }
}

fn expect_transfer(action: RadioAction) -> BusTransfer {
    match action {
        RadioAction::Transfer(t) => t,
        other => panic!("expected a bus transfer, got {:?}", other),
    }
}

#[test]
fn fresh_radio_is_idle_with_no_read_cached() {
    let mut radio = fresh_radio();
    assert_eq!(status_code(&radio), 0);
    let (rc, _action, _directive) = radio.command(6, 0, 0, ClientId(1));
    assert_eq!(rc, ReturnCode::SuccessWithValue(NO_READ_SENTINEL));
}

#[test]
fn reset_starts_pulse_and_alarm_ends_it() {
    let mut radio = fresh_radio();
    let (rc, action) = radio.reset();
    assert_eq!(rc, ReturnCode::Success);
    assert!(matches!(action, RadioAction::ArmResetPulse));
    assert_eq!(status_code(&radio), 3);
    radio.alarm();
    assert_eq!(status_code(&radio), 0);
}

#[test]
fn register_ops_while_busy_are_rejected() {
    let mut radio = fresh_radio();
    let (rc, _) = radio.reset();
    assert_eq!(rc, ReturnCode::Success);
    let (rc, action) = radio.read(0x27);
    assert_eq!(rc, ReturnCode::Busy);
    assert!(matches!(action, RadioAction::Nothing));
    let (rc, action) = radio.write(0x11, 0x5f);
    assert_eq!(rc, ReturnCode::Busy);
    assert!(matches!(action, RadioAction::Nothing));
    let (rc, action) = radio.modify(0x25, 0x30, 0x02);
    assert_eq!(rc, ReturnCode::Busy);
    assert!(matches!(action, RadioAction::Nothing));
    // the in-flight record was not altered
    assert_eq!(status_code(&radio), 3);
}

#[test]
fn second_reset_while_pulsing_is_rejected() {
    let mut radio = fresh_radio();
    let (rc, _) = radio.reset();
    assert_eq!(rc, ReturnCode::Success);
    let (rc, action) = radio.reset();
    assert_eq!(rc, ReturnCode::Busy);
    assert!(matches!(action, RadioAction::Nothing));
    assert_eq!(status_code(&radio), 3);
}

#[test]
fn read_encodes_address_and_caches_completion() {
    let mut radio = fresh_radio();
    let (rc, action) = radio.read(0x27);
    assert_eq!(rc, ReturnCode::Success);
    let t = expect_transfer(action);
    assert_eq!(t.tx[0], 0x27);
    assert_eq!(t.len, 2);
    assert_eq!(status_code(&radio), 1);
    // a second operation before completion is busy
    let (rc, _) = radio.read(0x28);
    assert_eq!(rc, ReturnCode::Busy);
    // completion returns the buffers and caches byte 1
    let mut rx = t.rx;
    rx[1] = 0xab;
    let follow = radio.read_write_done(t.tx, rx);
    assert!(matches!(follow, RadioAction::Nothing));
    assert_eq!(status_code(&radio), 0);
    let (rc, _action, _directive) = radio.command(6, 0, 0, ClientId(1));
    assert_eq!(rc, ReturnCode::SuccessWithValue(0xab));
}

#[test]
fn read_clears_top_bit_of_address() {
    let mut radio = fresh_radio();
    let (rc, action) = radio.read(0xa5);
    assert_eq!(rc, ReturnCode::Success);
    let t = expect_transfer(action);
    assert_eq!(t.tx[0], 0x25);
}

#[test]
fn write_sets_top_bit_and_carries_value() {
    let mut radio = fresh_radio();
    let (rc, action) = radio.write(0x11, 0x5f);
    assert_eq!(rc, ReturnCode::Success);
    let t = expect_transfer(action);
    assert_eq!(t.tx[0], 0x91);
    assert_eq!(t.tx[1], 0x5f);
    assert_eq!(t.len, 2);
    assert_eq!(status_code(&radio), 2);
    let follow = radio.read_write_done(t.tx, t.rx);
    assert!(matches!(follow, RadioAction::Nothing));
    assert_eq!(status_code(&radio), 0);
}

#[test]
fn modify_with_zero_mask_is_invalid_without_side_effect() {
    let mut radio = fresh_radio();
    let (rc, action) = radio.modify(0x25, 0x00, 0x02);
    assert_eq!(rc, ReturnCode::InvalidArgument);
    assert!(matches!(action, RadioAction::Nothing));
    assert_eq!(status_code(&radio), 0);
}

#[test]
fn modify_computes_follow_up_write() {
    // mask 0b00110000, value 0b10: the value is shifted 4 left to align
    // with the mask, and the committing write carries
    // (readByte ^ mask) | (value << 4).
    let mut radio = fresh_radio();
    let (rc, action) = radio.modify(0x25, 0b0011_0000, 0b10);
    assert_eq!(rc, ReturnCode::Success);
    let t = expect_transfer(action);
    assert_eq!(t.tx[0], 0x25); // read half: top bit cleared
    assert_eq!(status_code(&radio), 4);
    let mut rx = t.rx;
    rx[1] = 0b0101_0101;
    let follow = radio.read_write_done(t.tx, rx);
    let t2 = expect_transfer(follow);
    assert_eq!(t2.tx[0], 0xa5); // write half: top bit set
    assert_eq!(t2.tx[1], (0b0101_0101u8 ^ 0b0011_0000) | 0b0010_0000);
    assert_eq!(t2.tx[1], 0b0110_0101);
    assert_eq!(t2.len, 2);
    assert_eq!(status_code(&radio), 2);
    // exactly one follow-up: completing the write ends the cycle
    let done = radio.read_write_done(t2.tx, t2.rx);
    assert!(matches!(done, RadioAction::Nothing));
    assert_eq!(status_code(&radio), 0);
}

#[test]
fn modify_completion_caches_read_byte() {
    let mut radio = fresh_radio();
    let (_, action) = radio.modify(0x25, 0b0000_1100, 0b01);
    let t = expect_transfer(action);
    let mut rx = t.rx;
    rx[1] = 0x77;
    let follow = radio.read_write_done(t.tx, rx);
    let t2 = expect_transfer(follow);
    let _ = radio.read_write_done(t2.tx, t2.rx);
    let (rc, _action, _directive) = radio.command(6, 0, 0, ClientId(1));
    assert_eq!(rc, ReturnCode::SuccessWithValue(0x77));
}

#[test]
fn buffers_come_home_after_every_cycle() {
    // after each issue/completion cycle the next operation succeeds,
    // showing the exchange buffers ended the cycle back with the driver
    let mut radio = fresh_radio();
    for round in 0..3u8 {
        let (rc, action) = radio.read(round);
        assert_eq!(rc, ReturnCode::Success);
        let t = expect_transfer(action);
        let follow = radio.read_write_done(t.tx, t.rx);
        assert!(matches!(follow, RadioAction::Nothing));
        assert_eq!(status_code(&radio), 0);

        let (rc, action) = radio.write(round, round);
        assert_eq!(rc, ReturnCode::Success);
        let t = expect_transfer(action);
        let follow = radio.read_write_done(t.tx, t.rx);
        assert!(matches!(follow, RadioAction::Nothing));
        assert_eq!(status_code(&radio), 0);

        let (rc, action) = radio.modify(round, 0b11, 0b1);
        assert_eq!(rc, ReturnCode::Success);
        let t = expect_transfer(action);
        let follow = radio.read_write_done(t.tx, t.rx);
        let t2 = expect_transfer(follow);
        let done = radio.read_write_done(t2.tx, t2.rx);
        assert!(matches!(done, RadioAction::Nothing));
        assert_eq!(status_code(&radio), 0);
    }
}

#[test]
fn set_mode_writes_mode_register_and_emits_directive() {
    let mut radio = fresh_radio();
    let (rc, action, directive) = radio.set_mode(ClientId(1), OpMode::Transmit);
    assert_eq!(rc, ReturnCode::Success);
    let t = expect_transfer(action);
    assert_eq!(t.tx[0], 0x81); // operating-mode register, write
    assert_eq!(t.tx[1], 0x0c); // transmit mode bits
    assert_eq!(directive, AcctDirective::Restart(MODE_MEASURE_PERIOD_MS));
}

#[test]
fn set_mode_sleep_stops_accounting() {
    let mut radio = fresh_radio();
    let (rc, action, directive) = radio.set_mode(ClientId(1), OpMode::Sleep);
    assert_eq!(rc, ReturnCode::Success);
    let t = expect_transfer(action);
    assert_eq!(t.tx[1], 0x00);
    assert_eq!(directive, AcctDirective::Stop);
}

#[test]
fn set_mode_receive_needs_no_accounting() {
    let mut radio = fresh_radio();
    let (rc, _action, directive) = radio.set_mode(ClientId(1), OpMode::Receive);
    assert_eq!(rc, ReturnCode::Success);
    assert_eq!(directive, AcctDirective::Nothing);
}

#[test]
fn set_mode_releases_lock_once_write_is_issued() {
    let mut radio = fresh_radio();
    let (rc, action, _) = radio.set_mode(ClientId(1), OpMode::Standby);
    assert_eq!(rc, ReturnCode::Success);
    let t = expect_transfer(action);
    // the write is still in flight, but the lock is already free: another
    // client may contend (and gets Busy only because of the bus, keeping
    // the lock for its retry)
    let (rc, action, directive) = radio.set_mode(ClientId(2), OpMode::Sleep);
    assert_eq!(rc, ReturnCode::Busy);
    assert!(matches!(action, RadioAction::Nothing));
    assert_eq!(directive, AcctDirective::Stop);
    // client 2 now holds the lock, so client 3 is locked out entirely
    let (rc, _action, directive) = radio.set_mode(ClientId(3), OpMode::Sleep);
    assert_eq!(rc, ReturnCode::Busy);
    assert_eq!(directive, AcctDirective::Nothing);
    // after completion, the lock holder proceeds
    let _ = radio.read_write_done(t.tx, t.rx);
    let (rc, _action, _) = radio.set_mode(ClientId(2), OpMode::Sleep);
    assert_eq!(rc, ReturnCode::Success);
}

#[test]
fn op_mode_from_code_maps_known_and_unknown_numbers() {
    assert_eq!(OpMode::from_code(0), OpMode::Sleep);
    assert_eq!(OpMode::from_code(1), OpMode::Standby);
    assert_eq!(OpMode::from_code(2), OpMode::FrequencySynthesizer);
    assert_eq!(OpMode::from_code(3), OpMode::Transmit);
    assert_eq!(OpMode::from_code(4), OpMode::Receive);
    assert_eq!(OpMode::from_code(99), OpMode::Sleep);
}

#[test]
fn command_surface_dispatches() {
    let mut radio = fresh_radio();
    let caller = ClientId(9);
    let (rc, _, _) = radio.command(0, 0, 0, caller);
    assert_eq!(rc, ReturnCode::Success);
    let (rc, _, _) = radio.command(2, 0, 0, caller);
    assert_eq!(rc, ReturnCode::SuccessWithValue(0));
    let (rc, action, _) = radio.command(3, 0x27, 0, caller);
    assert_eq!(rc, ReturnCode::Success);
    let t = expect_transfer(action);
    assert_eq!(t.tx[0], 0x27);
    let _ = radio.read_write_done(t.tx, t.rx);
    let (rc, action, _) = radio.command(4, 0x11, 0x42, caller);
    assert_eq!(rc, ReturnCode::Success);
    let t = expect_transfer(action);
    assert_eq!(t.tx[0], 0x91);
    assert_eq!(t.tx[1], 0x42);
    let _ = radio.read_write_done(t.tx, t.rx);
    let (rc, _, directive) = radio.command(5, 3, 0, caller);
    assert_eq!(rc, ReturnCode::Success);
    assert_eq!(directive, AcctDirective::Restart(MODE_MEASURE_PERIOD_MS));
    let (rc, _, _) = radio.command(50, 0, 0, caller);
    assert_eq!(rc, ReturnCode::NotSupported);
}
