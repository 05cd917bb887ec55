//! Hysteresis regulator: decides per thermal zone whether the heater relay
//! has to be switched, from the goal and the measured temperature.
//!
//! Temperatures are integers in thousandths of a degree, the unit in which
//! the one-wire sensors report them.

use vstd::prelude::*;

verus! {

/// What the regulator asks of one heater.
#[derive(PartialEq, Eq, Clone, Copy, Debug, Structural)]
pub enum HeaterState {
    /// Too cold: the heater has to run.
    ENABLED,
    /// Too warm: the heater has to stop.
    DISABLED,
    /// Inside the dead band: keep doing what you did.
    IDLE,
}

/// Dead band used on both sides of the goal when none is configured:
/// half a degree.
pub const DEFAULT_TOLERANCE: i32 = 500;

/// The hysteresis rule for one zone, over mathematical integers: off above
/// the goal by more than the heating buffer, on below it by more than the
/// cooling buffer, no change in between. With buffers that add up to less
/// than zero a temperature can be both; then the heater goes off.
pub open spec fn zone_decision(goal: int, current: int, heating_buffer: int, cooling_buffer: int) -> Option<bool> {
    if current > goal + heating_buffer {
        Some(false)
    } else if current < goal - cooling_buffer {
        Some(true)
    } else {
        None
    }
}

/// Decides for one zone. `Some(false)` switches the heater off, `Some(true)`
/// switches it on, `None` leaves it as it is.
pub fn decide_zone(goal: i32, current: i32, heating_buffer: i32, cooling_buffer: i32) -> (r: Option<bool>)
    ensures
        r == zone_decision(goal as int, current as int, heating_buffer as int, cooling_buffer as int),
{
    let g: i64 = goal as i64;
    let c: i64 = current as i64;
    if c > g + heating_buffer as i64 {
        Some(false)
    } else if c < g - cooling_buffer as i64 {
        Some(true)
    } else {
        None
    }
}

/// The decision for one zone with the default dead band on both sides.
pub open spec fn heater_state(temperature: int, goal: int) -> HeaterState {
    match zone_decision(goal, temperature, DEFAULT_TOLERANCE as int, DEFAULT_TOLERANCE as int) {
        Some(true) => HeaterState::ENABLED,
        Some(false) => HeaterState::DISABLED,
        None => HeaterState::IDLE,
    }
}

/// New state of a heater that keeps its zone within the default tolerance.
pub fn get_new_heater_state(temperature: i32, goal: i32) -> (r: HeaterState)
    ensures
        r == heater_state(temperature as int, goal as int),
{
    match decide_zone(goal, temperature, DEFAULT_TOLERANCE, DEFAULT_TOLERANCE) {
        Some(true) => HeaterState::ENABLED,
        Some(false) => HeaterState::DISABLED,
        None => HeaterState::IDLE,
    }
}

/// The smaller of two lengths.
pub open spec fn shorter(a: nat, b: nat) -> nat {
    if a <= b { a } else { b }
}

/// The decisions for all zones: one entry per zone that has both a goal and a
/// measured temperature.
pub open spec fn decisions(
    goal: Seq<i32>,
    current: Seq<i32>,
    heating_buffer: int,
    cooling_buffer: int,
) -> Seq<Option<bool>> {
    Seq::new(
        shorter(goal.len(), current.len()),
        |i: int| zone_decision(goal[i] as int, current[i] as int, heating_buffer, cooling_buffer),
    )
}

/// Decides for every zone whether its heater has to be switched.
pub fn decide(
    goal: &Vec<i32>,
    current: &Vec<i32>,
    heating_buffer: i32,
    cooling_buffer: i32,
) -> (r: Vec<Option<bool>>)
    ensures
        r@ == decisions(goal@, current@, heating_buffer as int, cooling_buffer as int),
{
    let n: usize = if goal.len() <= current.len() { goal.len() } else { current.len() };
    let mut r: Vec<Option<bool>> = Vec::new();
    let mut i: usize = 0;
    while i < n
        invariant
            i <= n,
            n == shorter(goal@.len(), current@.len()),
            r@.len() == i,
            forall|j: int| 0 <= j < i ==> r@[j] == zone_decision(
                goal@[j] as int,
                current@[j] as int,
                heating_buffer as int,
                cooling_buffer as int,
            ),
        decreases n - i,
    {
        r.push(decide_zone(goal[i], current[i], heating_buffer, cooling_buffer));
        i += 1;
    }
    r
}

/// The distance between two temperatures.
pub open spec fn distance(a: int, b: int) -> int {
    if a <= b { b - a } else { a - b }
}

/// Inside the dead band nothing is switched: where the measured temperature
/// is no further from the goal than the smaller of the two buffers, the
/// decision is to leave the heater as it is.
pub proof fn lemma_dead_band_holds(goal: int, current: int, heating_buffer: int, cooling_buffer: int)
    requires
        distance(current, goal) <= heating_buffer,
        distance(current, goal) <= cooling_buffer,
    ensures
        zone_decision(goal, current, heating_buffer, cooling_buffer) is None,
{
}

/// The same for a whole rig: where every zone is inside the dead band, no
/// entry of the decisions asks for a switch.
pub proof fn lemma_dead_band_holds_everywhere(
    goal: Seq<i32>,
    current: Seq<i32>,
    heating_buffer: int,
    cooling_buffer: int,
)
    requires
        forall|i: int|
            0 <= i < shorter(goal.len(), current.len()) ==> distance(
                #[trigger] current[i] as int,
                goal[i] as int,
            ) <= heating_buffer && distance(current[i] as int, goal[i] as int) <= cooling_buffer,
    ensures
        forall|i: int|
            0 <= i < decisions(goal, current, heating_buffer, cooling_buffer).len()
                ==> #[trigger] decisions(goal, current, heating_buffer, cooling_buffer)[i] is None,
{
    assert forall|i: int|
        0 <= i < decisions(goal, current, heating_buffer, cooling_buffer).len() implies #[trigger] decisions(
        goal,
        current,
        heating_buffer,
        cooling_buffer,
    )[i] is None by {
        let _ = current[i];
        lemma_dead_band_holds(goal[i] as int, current[i] as int, heating_buffer, cooling_buffer);
    }
}

} // verus!
