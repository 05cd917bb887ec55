use brauanlage::regulator::{decide, decide_zone, get_new_heater_state, HeaterState, DEFAULT_TOLERANCE};

// Temperatures are in thousandths of a degree.

#[test]
fn hysteresis_around_sixty_degrees() {
    assert_eq!(decide_zone(60000, 58000, 1000, 1000), Some(true));
    assert_eq!(decide_zone(60000, 62000, 1000, 1000), Some(false));
    assert_eq!(decide_zone(60000, 60500, 1000, 1000), None);
}

#[test]
fn dead_band_includes_its_borders() {
    assert_eq!(decide_zone(60000, 61000, 1000, 1000), None);
    assert_eq!(decide_zone(60000, 61001, 1000, 1000), Some(false));
    assert_eq!(decide_zone(60000, 59000, 1000, 1000), None);
    assert_eq!(decide_zone(60000, 58999, 1000, 1000), Some(true));
}

#[test]
fn nothing_switches_inside_the_smaller_buffer() {
    for goal in [-5000, 0, 20000, 60000] {
        for offset in -500..=500 {
            assert_eq!(decide_zone(goal, goal + offset, 500, 2000), None);
            assert_eq!(decide_zone(goal, goal + offset, 2000, 500), None);
        }
    }
}

#[test]
fn buffers_may_differ() {
    assert_eq!(decide_zone(100, 120, 10, 50), Some(false));
    assert_eq!(decide_zone(100, 60, 10, 50), None);
    assert_eq!(decide_zone(100, 49, 10, 50), Some(true));
}

#[test]
fn extreme_temperatures_do_not_wrap() {
    assert_eq!(decide_zone(i32::MAX, i32::MAX, i32::MAX, i32::MAX), None);
    assert_eq!(decide_zone(i32::MAX, i32::MIN, 1, 1), Some(true));
    assert_eq!(decide_zone(i32::MIN, i32::MAX, 1, 1), Some(false));
    assert_eq!(decide_zone(i32::MIN, i32::MIN, i32::MAX, i32::MAX), None);
}

#[test]
fn decide_has_one_entry_per_zone() {
    let goal = vec![60000, 60000, 60000];
    let current = vec![58000, 62000, 60500];
    assert_eq!(decide(&goal, &current, 1000, 1000), vec![Some(true), Some(false), None]);
}

#[test]
fn decide_stops_at_the_shorter_list() {
    assert_eq!(decide(&vec![10, 10, 10], &vec![0], 1, 1), vec![Some(true)]);
    assert_eq!(decide(&vec![10], &vec![20, 0, 0], 1, 1), vec![Some(false)]);
    assert_eq!(decide(&vec![], &vec![1, 2], 1, 1), Vec::<Option<bool>>::new());
}

#[test]
fn default_tolerance_is_half_a_degree() {
    assert_eq!(DEFAULT_TOLERANCE, 500);
    assert_eq!(get_new_heater_state(20501, 20000), HeaterState::DISABLED);
    assert_eq!(get_new_heater_state(20500, 20000), HeaterState::IDLE);
    assert_eq!(get_new_heater_state(19500, 20000), HeaterState::IDLE);
    assert_eq!(get_new_heater_state(19499, 20000), HeaterState::ENABLED);
}
