use periph_core::ClientId;
use periph_core::ReturnCode;
use periph_core::eacct::EnergyAccount;
use periph_core::eacct::Entry;
use periph_core::hil::AcctAction;
use periph_core::hil::EnergyAccounting;
use periph_core::hil::Heuristic;

// A raw 16-bit sample worth the given milliamps: reference 630, 13 raw
// units per milliamp.
fn raw_for_milliamps(ma: u16) -> u16 {
    630 + ma * 13
}

#[test]
fn calibration_reference_gives_zero_milliwatts() {
    assert_eq!(EnergyAccount::milliwatts_from_sample(630, 16), 0);
}

#[test]
fn calibration_ten_milliamps_gives_33_milliwatts() {
    assert_eq!(EnergyAccount::milliwatts_from_sample(630 + 130, 16), 33);
}

#[test]
fn calibration_floors_below_reference_at_zero() {
    assert_eq!(EnergyAccount::milliwatts_from_sample(0, 16), 0);
    assert_eq!(EnergyAccount::milliwatts_from_sample(629, 16), 0);
}

#[test]
fn calibration_normalizes_by_resolution() {
    // a 12-bit sensor's sample is shifted 4 bits up in the raw word
    assert_eq!(
        EnergyAccount::milliwatts_from_sample(raw_for_milliamps(30) << 4, 12),
        100
    );
}

#[test]
fn instant_heuristic_samples_now_and_accounts_once() {
    let mut acct = EnergyAccount::new(4);
    let client = ClientId(1);
    let (rc, action) = acct.measure(Heuristic::Instant(client));
    assert_eq!(rc, ReturnCode::Success);
    assert_eq!(action, AcctAction::Sample);
    let action = acct.sample_ready(630 + 130, 16);
    assert_eq!(action, AcctAction::Nothing);
    assert_eq!(acct.usage_of(client), Some(33));
    // the heuristic was consumed: a new request is accepted
    let (rc, _) = acct.measure(Heuristic::Instant(client));
    assert_eq!(rc, ReturnCode::Success);
}

#[test]
fn measure_while_active_is_busy() {
    let mut acct = EnergyAccount::new(4);
    let (rc, _) = acct.measure(Heuristic::Instant(ClientId(1)));
    assert_eq!(rc, ReturnCode::Success);
    let (rc, action) = acct.measure(Heuristic::Instant(ClientId(2)));
    assert_eq!(rc, ReturnCode::Busy);
    assert_eq!(action, AcctAction::Nothing);
}

#[test]
fn deferred_heuristic_arms_alarm_then_samples() {
    let mut acct = EnergyAccount::new(4);
    let client = ClientId(5);
    let (rc, action) = acct.measure(Heuristic::After(client, 250));
    assert_eq!(rc, ReturnCode::Success);
    assert_eq!(action, AcctAction::Arm(250));
    let (rc, action) = acct.alarm();
    assert_eq!(rc, ReturnCode::Success);
    assert_eq!(action, AcctAction::Sample);
    let action = acct.sample_ready(raw_for_milliamps(10), 16);
    assert_eq!(action, AcctAction::Nothing);
    assert_eq!(acct.usage_of(client), Some(33));
}

#[test]
fn recurrent_500ms_halves_the_estimate() {
    // period 500 ms, estimate 100 mW: increment 100 / (1000/500) = 50
    let mut acct = EnergyAccount::new(4);
    let client = ClientId(2);
    let (rc, action) = acct.measure(Heuristic::Recurrent(client, 500));
    assert_eq!(rc, ReturnCode::Success);
    assert_eq!(action, AcctAction::Arm(500));
    let (rc, action) = acct.alarm();
    assert_eq!(rc, ReturnCode::Success);
    assert_eq!(action, AcctAction::Sample);
    let action = acct.sample_ready(raw_for_milliamps(30), 16);
    assert_eq!(action, AcctAction::Arm(500));
    assert_eq!(acct.usage_of(client), Some(50));
}

#[test]
fn recurrent_2000ms_doubles_the_estimate() {
    // period 2000 ms, estimate 100 mW: increment 100 * (2000/1000) = 200
    let mut acct = EnergyAccount::new(4);
    let client = ClientId(2);
    let (rc, _) = acct.measure(Heuristic::Recurrent(client, 2000));
    assert_eq!(rc, ReturnCode::Success);
    let action = acct.sample_ready(raw_for_milliamps(30), 16);
    assert_eq!(action, AcctAction::Arm(2000));
    assert_eq!(acct.usage_of(client), Some(200));
}

#[test]
fn recurrent_heuristic_survives_and_accumulates() {
    let mut acct = EnergyAccount::new(4);
    let client = ClientId(3);
    let (rc, _) = acct.measure(Heuristic::Recurrent(client, 500));
    assert_eq!(rc, ReturnCode::Success);
    for _ in 0..3 {
        let (rc, action) = acct.alarm();
        assert_eq!(rc, ReturnCode::Success);
        assert_eq!(action, AcctAction::Sample);
        let action = acct.sample_ready(raw_for_milliamps(30), 16);
        assert_eq!(action, AcctAction::Arm(500));
    }
    assert_eq!(acct.usage_of(client), Some(150));
}

#[test]
fn stop_by_other_client_fails_without_side_effect() {
    let mut acct = EnergyAccount::new(4);
    let owner = ClientId(1);
    let (rc, _) = acct.measure(Heuristic::Recurrent(owner, 500));
    assert_eq!(rc, ReturnCode::Success);
    let (rc, disarm) = acct.stop(ClientId(2));
    assert_eq!(rc, ReturnCode::Fail);
    assert!(!disarm);
    // the heuristic is still active: a new request is rejected
    let (rc, _) = acct.measure(Heuristic::Instant(owner));
    assert_eq!(rc, ReturnCode::Busy);
}

#[test]
fn stop_of_non_recurrent_heuristic_fails() {
    let mut acct = EnergyAccount::new(4);
    let client = ClientId(1);
    let (rc, _) = acct.measure(Heuristic::After(client, 100));
    assert_eq!(rc, ReturnCode::Success);
    let (rc, disarm) = acct.stop(client);
    assert_eq!(rc, ReturnCode::Fail);
    assert!(!disarm);
    let (rc, _) = acct.measure(Heuristic::Instant(client));
    assert_eq!(rc, ReturnCode::Busy);
}

#[test]
fn stop_by_owner_clears_heuristic_and_disarms() {
    let mut acct = EnergyAccount::new(4);
    let owner = ClientId(1);
    let (rc, _) = acct.measure(Heuristic::Recurrent(owner, 500));
    assert_eq!(rc, ReturnCode::Success);
    let (rc, disarm) = acct.stop(owner);
    assert_eq!(rc, ReturnCode::Success);
    assert!(disarm);
    let (rc, _) = acct.measure(Heuristic::Instant(owner));
    assert_eq!(rc, ReturnCode::Success);
}

#[test]
fn alarm_without_active_heuristic_is_invalid_state() {
    let acct = EnergyAccount::new(4);
    let (rc, action) = acct.alarm();
    assert_eq!(rc, ReturnCode::InvalidState);
    assert_eq!(action, AcctAction::Nothing);
}

#[test]
fn alarm_with_instant_heuristic_is_invalid_state() {
    let mut acct = EnergyAccount::new(4);
    let (rc, _) = acct.measure(Heuristic::Instant(ClientId(1)));
    assert_eq!(rc, ReturnCode::Success);
    let (rc, action) = acct.alarm();
    assert_eq!(rc, ReturnCode::InvalidState);
    assert_eq!(action, AcctAction::Nothing);
}

#[test]
fn sample_without_active_heuristic_is_dropped() {
    let mut acct = EnergyAccount::new(4);
    let action = acct.sample_ready(raw_for_milliamps(30), 16);
    assert_eq!(action, AcctAction::Nothing);
    assert_eq!(acct.usage_of(ClientId(1)), None);
}

#[test]
fn ledger_keeps_one_entry_per_client() {
    let mut acct = EnergyAccount::new(4);
    let client = ClientId(7);
    acct.account(client, 5);
    acct.account(client, 6);
    acct.account(client, 7);
    assert_eq!(acct.usage_of(client), Some(18));
    assert_eq!(acct.usage_of(ClientId(8)), None);
}

#[test]
fn full_ledger_drops_new_client_without_corruption() {
    let mut acct = EnergyAccount::new(2);
    acct.account(ClientId(1), 5);
    acct.account(ClientId(2), 7);
    acct.account(ClientId(3), 9);
    assert_eq!(acct.usage_of(ClientId(3)), None);
    assert_eq!(acct.usage_of(ClientId(1)), Some(5));
    assert_eq!(acct.usage_of(ClientId(2)), Some(7));
    // existing clients still accumulate while the ledger is full
    acct.account(ClientId(1), 1);
    assert_eq!(acct.usage_of(ClientId(1)), Some(6));
}

#[test]
fn usage_accumulation_saturates() {
    let mut acct = EnergyAccount::new(2);
    let client = ClientId(1);
    acct.account(client, u64::MAX - 1);
    acct.account(client, 5);
    assert_eq!(acct.usage_of(client), Some(u64::MAX));
}

#[test]
fn usage_of_unknown_client_is_absent() {
    let acct = EnergyAccount::new(4);
    assert_eq!(acct.usage_of(ClientId(42)), None);
}

#[test]
fn zero_capacity_ledger_drops_everything() {
    let mut acct = EnergyAccount::new(0);
    acct.account(ClientId(1), 5);
    assert_eq!(acct.usage_of(ClientId(1)), None);
}

#[test]
fn command_surface_reports_usage() {
    let mut acct = EnergyAccount::new(4);
    let caller = ClientId(4);
    assert_eq!(acct.command(0, 0, 0, caller), ReturnCode::Success);
    assert_eq!(acct.command(5, 0, 0, caller), ReturnCode::SuccessWithValue(0));
    acct.account(caller, 33);
    assert_eq!(acct.command(5, 0, 0, caller), ReturnCode::SuccessWithValue(33));
    assert_eq!(acct.command(1, 0, 0, caller), ReturnCode::NotSupported);
    assert_eq!(acct.command(9, 0, 0, caller), ReturnCode::NotSupported);
}

#[test]
fn measure_through_capability_trait() {
    let mut acct = EnergyAccount::new(4);
    let client = ClientId(1);
    let (rc, action) = EnergyAccounting::measure(&mut acct, Heuristic::After(client, 40));
    assert_eq!(rc, ReturnCode::Success);
    assert_eq!(action, AcctAction::Arm(40));
    let (rc, disarm) = EnergyAccounting::stop(&mut acct, client);
    assert_eq!(rc, ReturnCode::Fail);
    assert!(!disarm);
}

#[test]
fn entry_carries_client_and_usage() {
    let e = Entry::new(ClientId(3), 17);
    assert_eq!(e.client, ClientId(3));
    assert_eq!(e.used, 17);
}
