use brauanlage::peripheral::{switch_bank, switch_relay, Peripheral, Schuetz};
use brauanlage::structs::CommandError;

#[test]
fn new_relay_is_off() {
    let relay = Schuetz::new(7);
    assert!(!relay.enabled);
    assert_eq!(relay.trigger_pin, 7);
}

#[test]
fn trigger_toggles_and_names_the_pin() {
    let mut relay = Schuetz::new(7);
    assert_eq!(relay.trigger(), 7);
    assert!(relay.enabled);
    assert_eq!(relay.trigger(), 7);
    assert!(!relay.enabled);
}

#[test]
fn switch_pulses_only_on_change() {
    let mut relay = Schuetz::new(9);
    assert_eq!(relay.switch(false), None);
    assert_eq!(relay.switch(true), Some(9));
    assert_eq!(relay.switch(true), None);
    assert!(relay.enabled);
    assert_eq!(relay.switch(false), Some(9));
    assert!(!relay.enabled);
}

#[test]
fn rig_is_wired_as_documented() {
    let rig = Peripheral::new();
    let heaters: Vec<(bool, u8)> = rig.temps.iter().map(|r| (r.enabled, r.trigger_pin)).collect();
    let pumps: Vec<(bool, u8)> = rig.pumps.iter().map(|r| (r.enabled, r.trigger_pin)).collect();
    assert_eq!(heaters, vec![(false, 1), (false, 2)]);
    assert_eq!(pumps, vec![(false, 3), (false, 4), (false, 5)]);
}

#[test]
fn asking_twice_for_the_same_state_pulses_once() {
    let mut rig = Peripheral::new();
    let first = rig.switch_pump_relay(2, true);
    let second = rig.switch_pump_relay(2, true);
    assert_eq!(first, Ok(Some(5)));
    assert_eq!(second, Ok(None));
    assert!(rig.pumps[2].enabled);
    assert_eq!(rig.get_pump_states(), vec![false, false, true]);
}

#[test]
fn heater_relays_switch_like_pumps() {
    let mut rig = Peripheral::new();
    assert_eq!(rig.switch_temperature_relay(1, true), Ok(Some(2)));
    assert_eq!(rig.switch_temperature_relay(1, true), Ok(None));
    assert_eq!(rig.switch_temperature_relay(0, false), Ok(None));
    assert!(rig.temps[1].enabled);
    assert!(!rig.temps[0].enabled);
    assert_eq!(rig.get_pump_states(), vec![false, false, false]);
}

#[test]
fn matching_pulses_the_pumps_that_differ() {
    let mut rig = Peripheral::new();
    assert_eq!(rig.match_pump_relays(&vec![true, false, true]), Ok(vec![3, 5]));
    assert_eq!(rig.get_pump_states(), vec![true, false, true]);
    assert_eq!(rig.match_pump_relays(&vec![true, true, false]), Ok(vec![4, 5]));
    assert_eq!(rig.get_pump_states(), vec![true, true, false]);
    // a short list leaves the rest alone
    assert_eq!(rig.match_pump_relays(&vec![false]), Ok(vec![3]));
    assert_eq!(rig.get_pump_states(), vec![false, true, false]);
    assert_eq!(rig.match_pump_relays(&vec![]), Ok(vec![]));
}

#[test]
fn off_pulses_what_is_on_heaters_first() {
    let mut rig = Peripheral::new();
    rig.switch_pump_relay(0, true).unwrap();
    rig.switch_pump_relay(2, true).unwrap();
    rig.switch_temperature_relay(1, true).unwrap();
    assert_eq!(rig.off(), vec![2, 3, 5]);
    assert_eq!(rig.get_pump_states(), vec![false, false, false]);
    assert!(!rig.temps[0].enabled && !rig.temps[1].enabled);
    assert_eq!(rig.off(), Vec::<u8>::new());
}

#[test]
fn bank_follows_requests_and_skips_none() {
    let mut bank = vec![Schuetz::new(10), Schuetz::new(11), Schuetz::new(12)];
    bank[1].trigger();
    let pulses = switch_bank(&mut bank, &vec![Some(true), Some(false), None]);
    assert_eq!(pulses, Ok(vec![10, 11]));
    let states: Vec<bool> = bank.iter().map(|r| r.enabled).collect();
    assert_eq!(states, vec![true, false, false]);
    let pulses = switch_bank(&mut bank, &vec![None, Some(false)]);
    assert_eq!(pulses, Ok(vec![]));
}

fn states(bank: &[Schuetz]) -> Vec<(bool, u8)> {
    bank.iter().map(|r| (r.enabled, r.trigger_pin)).collect()
}

#[test]
fn request_for_a_relay_past_the_bank_is_turned_down() {
    let mut rig = Peripheral::new();
    rig.switch_pump_relay(1, true).unwrap();
    rig.switch_temperature_relay(0, true).unwrap();
    let heaters = states(&rig.temps);
    let pumps = states(&rig.pumps);
    assert_eq!(rig.switch_pump_relay(3, true), Err(CommandError::IndexOutOfBounds));
    assert_eq!(rig.switch_pump_relay(usize::MAX, false), Err(CommandError::IndexOutOfBounds));
    assert_eq!(rig.switch_temperature_relay(2, true), Err(CommandError::IndexOutOfBounds));
    assert_eq!(states(&rig.temps), heaters);
    assert_eq!(states(&rig.pumps), pumps);
    // the last relay of each bank is still there
    assert_eq!(rig.switch_pump_relay(2, true), Ok(Some(5)));
    assert_eq!(rig.switch_temperature_relay(1, true), Ok(Some(2)));
}

#[test]
fn list_longer_than_the_bank_is_turned_down_as_a_whole() {
    let mut rig = Peripheral::new();
    rig.switch_pump_relay(0, true).unwrap();
    let pumps = states(&rig.pumps);
    assert_eq!(rig.match_pump_relays(&vec![false, true, true, true]), Err(CommandError::IndexOutOfBounds));
    assert_eq!(states(&rig.pumps), pumps);
    let mut bank = vec![Schuetz::new(10)];
    assert_eq!(switch_bank(&mut bank, &vec![Some(true), None]), Err(CommandError::IndexOutOfBounds));
    assert_eq!(states(&bank), vec![(false, 10)]);
    assert_eq!(switch_bank(&mut bank, &vec![Some(true)]), Ok(vec![10]));
}

#[test]
fn one_relay_of_a_bank() {
    let mut bank = vec![Schuetz::new(10), Schuetz::new(11)];
    assert_eq!(switch_relay(&mut bank, 1, true), Ok(Some(11)));
    assert_eq!(switch_relay(&mut bank, 1, true), Ok(None));
    assert_eq!(switch_relay(&mut bank, 2, true), Err(CommandError::IndexOutOfBounds));
    assert_eq!(states(&bank), vec![(false, 10), (true, 11)]);
    let mut empty: Vec<Schuetz> = Vec::new();
    assert_eq!(switch_relay(&mut empty, 0, true), Err(CommandError::IndexOutOfBounds));
}
