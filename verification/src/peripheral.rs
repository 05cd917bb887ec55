//! The relay bank: which relay is on, and which trigger pins have to be
//! pulsed to bring the bank into a requested state.
//!
//! A relay is toggled by one short pulse on its trigger pin. The functions
//! here keep the recorded states and hand back the pins to pulse, in the order
//! in which the pulses are due; sending the pulses is left to the caller.

use vstd::prelude::*;
use crate::structs::CommandError;

verus! {

/// One relay: its recorded state and the pin that toggles it.
#[derive(Clone, Copy, Debug)]
pub struct Schuetz {
    pub enabled: bool,
    pub trigger_pin: u8,
}

impl Schuetz {
    /// A relay on `pin` that is off.
    pub fn new(pin: u8) -> (r: Self)
        ensures
            r == (Schuetz { enabled: false, trigger_pin: pin }),
    {
        Schuetz { enabled: false, trigger_pin: pin }
    }

    /// Toggles the recorded state and returns the pin that has to be pulsed.
    pub fn trigger(&mut self) -> (pin: u8)
        ensures
            pin == old(self).trigger_pin,
            *final(self) == (Schuetz { enabled: !old(self).enabled, trigger_pin: old(self).trigger_pin }),
    {
        self.enabled = !self.enabled;
        self.trigger_pin
    }

    /// The relay after a request: `Some(state)` asks for `state`, `None` for
    /// no change.
    pub open spec fn switched(self, request: Option<bool>) -> Schuetz {
        match request {
            Some(state) => Schuetz { enabled: state, trigger_pin: self.trigger_pin },
            None => self,
        }
    }

    /// The pulse that a request costs: the relay's pin where the request asks
    /// for the state that the relay is not in, else none.
    pub open spec fn pulse(self, request: Option<bool>) -> Seq<u8> {
        match request {
            Some(state) => if self.enabled != state { seq![self.trigger_pin] } else { Seq::empty() },
            None => Seq::empty(),
        }
    }

    /// Brings the relay into `state`. Returns the pin to pulse, or `None`
    /// when the relay is in that state already.
    pub fn switch(&mut self, state: bool) -> (pin: Option<u8>)
        ensures
            *final(self) == old(self).switched(Some(state)),
            pin == if old(self).enabled != state { Some(old(self).trigger_pin) } else { None },
    {
        if self.enabled != state {
            Some(self.trigger())
        } else {
            None
        }
    }
}

/// A bank after a list of requests, one per relay from the first on; relays
/// past the end of the list keep their state.
pub open spec fn switched_bank(bank: Seq<Schuetz>, requests: Seq<Option<bool>>) -> Seq<Schuetz> {
    Seq::new(bank.len(), |i: int| if i < requests.len() { bank[i].switched(requests[i]) } else { bank[i] })
}

/// The pins to pulse for the first `n` requests of a list, in the order of
/// the relays.
pub open spec fn bank_pulses(bank: Seq<Schuetz>, requests: Seq<Option<bool>>, n: int) -> Seq<u8>
    decreases n,
{
    if n <= 0 {
        Seq::empty()
    } else {
        bank_pulses(bank, requests, n - 1) + bank[n - 1].pulse(requests[n - 1])
    }
}

/// A list of goal states as requests.
pub open spec fn goals_as_requests(states: Seq<bool>) -> Seq<Option<bool>> {
    Seq::new(states.len(), |i: int| Some(states[i]))
}

/// The request to switch off, for each of `n` relays.
pub open spec fn off_requests(n: nat) -> Seq<Option<bool>> {
    Seq::new(n, |i: int| Some(false))
}

/// A bank after a list of requests was handed in. A list that is longer
/// than the bank asks for a relay that is not there: it is turned down and
/// the bank stays as it is.
pub open spec fn bank_after(bank: Seq<Schuetz>, requests: Seq<Option<bool>>) -> Seq<Schuetz> {
    if requests.len() <= bank.len() {
        switched_bank(bank, requests)
    } else {
        bank
    }
}

/// The answer to a list of requests: the pins to pulse, in the order of the
/// relays, or the error for a list that is longer than the bank.
pub open spec fn bank_answer(bank: Seq<Schuetz>, requests: Seq<Option<bool>>) -> Result<Seq<u8>, CommandError> {
    if requests.len() <= bank.len() {
        Ok(bank_pulses(bank, requests, requests.len() as int))
    } else {
        Err(CommandError::IndexOutOfBounds)
    }
}

/// A bank after one relay was asked for a state. An index past the bank is
/// turned down and the bank stays as it is.
pub open spec fn relay_after(bank: Seq<Schuetz>, index: int, state: bool) -> Seq<Schuetz> {
    if 0 <= index < bank.len() {
        bank.update(index, bank[index].switched(Some(state)))
    } else {
        bank
    }
}

/// The answer to a request for one relay: the pin to pulse, `None` where
/// the relay is in that state already, or the error for an index past the
/// bank.
pub open spec fn relay_answer(bank: Seq<Schuetz>, index: int, state: bool) -> Result<Option<u8>, CommandError> {
    if 0 <= index < bank.len() {
        Ok(if bank[index].enabled != state { Some(bank[index].trigger_pin) } else { None })
    } else {
        Err(CommandError::IndexOutOfBounds)
    }
}

/// Brings relay `index` of a bank into `state`. Returns the pin to pulse,
/// `None` when no pulse is due, or the error when the bank has no such
/// relay; then nothing has changed.
pub fn switch_relay(bank: &mut Vec<Schuetz>, index: usize, state: bool) -> (r: Result<Option<u8>, CommandError>)
    ensures
        final(bank)@ == relay_after(old(bank)@, index as int, state),
        r == relay_answer(old(bank)@, index as int, state),
{
    if index >= bank.len() {
        return Err(CommandError::IndexOutOfBounds);
    }
    let pin = bank[index].switch(state);
    assert(bank@ =~= relay_after(old(bank)@, index as int, state));
    Ok(pin)
}

/// Applies a list of requests to a bank, relay by relay, and collects the
/// pins to pulse. A list that is longer than the bank is turned down; then
/// nothing has changed.
pub fn switch_bank(bank: &mut Vec<Schuetz>, requests: &Vec<Option<bool>>) -> (r: Result<Vec<u8>, CommandError>)
    ensures
        final(bank)@ == bank_after(old(bank)@, requests@),
        match bank_answer(old(bank)@, requests@) {
            Ok(pulses) => r is Ok && r->Ok_0@ == pulses,
            Err(e) => r == Err::<Vec<u8>, CommandError>(e),
        },
{
    if requests.len() > bank.len() {
        return Err(CommandError::IndexOutOfBounds);
    }
    let mut pulses: Vec<u8> = Vec::new();
    let mut i: usize = 0;
    while i < requests.len()
        invariant
            i <= requests.len() <= bank.len(),
            bank.len() == old(bank).len(),
            forall|j: int| 0 <= j < i ==> bank@[j] == old(bank)@[j].switched(requests@[j]),
            forall|j: int| i <= j < bank.len() ==> bank@[j] == old(bank)@[j],
            pulses@ == bank_pulses(old(bank)@, requests@, i as int),
        decreases requests.len() - i,
    {
        match requests[i] {
            Some(state) => {
                let pin = bank[i].switch(state);
                match pin {
                    Some(p) => { pulses.push(p); },
                    None => {},
                }
            },
            None => {},
        }
        i += 1;
    }
    assert(bank@ =~= switched_bank(old(bank)@, requests@));
    Ok(pulses)
}

/// The relays of the rig: one heater relay per thermal zone, and the pumps.
pub struct Peripheral {
    pub temps: Vec<Schuetz>,
    pub pumps: Vec<Schuetz>,
}

/// The heaters of the rig as it is wired: on pins 1 and 2, both off.
pub open spec fn wired_heaters() -> Seq<Schuetz> {
    seq![
        Schuetz { enabled: false, trigger_pin: 1 },
        Schuetz { enabled: false, trigger_pin: 2 },
    ]
}

/// The pumps of the rig as it is wired: on pins 3, 4 and 5, all off.
pub open spec fn wired_pumps() -> Seq<Schuetz> {
    seq![
        Schuetz { enabled: false, trigger_pin: 3 },
        Schuetz { enabled: false, trigger_pin: 4 },
        Schuetz { enabled: false, trigger_pin: 5 },
    ]
}

/// The recorded states of a bank.
pub open spec fn bank_states(bank: Seq<Schuetz>) -> Seq<bool> {
    Seq::new(bank.len(), |i: int| bank[i].enabled)
}

/// Switches every relay of a bank off and collects the pins to pulse.
fn bank_off(bank: &mut Vec<Schuetz>) -> (pulses: Vec<u8>)
    ensures
        final(bank)@ == switched_bank(old(bank)@, off_requests(old(bank)@.len())),
        pulses@ == bank_pulses(old(bank)@, off_requests(old(bank)@.len()), old(bank)@.len() as int),
{
    let ghost requests = off_requests(bank@.len());
    let mut pulses: Vec<u8> = Vec::new();
    let mut i: usize = 0;
    while i < bank.len()
        invariant
            i <= bank.len(),
            bank.len() == old(bank).len(),
            requests == off_requests(old(bank)@.len()),
            forall|j: int| 0 <= j < i ==> bank@[j] == old(bank)@[j].switched(Some(false)),
            forall|j: int| i <= j < bank.len() ==> bank@[j] == old(bank)@[j],
            pulses@ == bank_pulses(old(bank)@, requests, i as int),
        decreases bank.len() - i,
    {
        if bank[i].enabled {
            let pin = bank[i].trigger();
            pulses.push(pin);
        }
        i += 1;
    }
    pulses
}

impl Peripheral {
    /// The relay bank of the rig as it is wired, everything off.
    pub fn new() -> (r: Self)
        ensures
            r.temps@ == wired_heaters(),
            r.pumps@ == wired_pumps(),
    {
        let mut temps: Vec<Schuetz> = Vec::new();
        temps.push(Schuetz::new(1));
        temps.push(Schuetz::new(2));
        let mut pumps: Vec<Schuetz> = Vec::new();
        pumps.push(Schuetz::new(3));
        pumps.push(Schuetz::new(4));
        pumps.push(Schuetz::new(5));
        Peripheral { temps, pumps }
    }

    /// Brings the heater relay of zone `index` into `state`. Returns the pin
    /// to pulse, `None` when no pulse is due, or the error when there is no
    /// such zone; then nothing has changed.
    pub fn switch_temperature_relay(&mut self, index: usize, state: bool) -> (r: Result<Option<u8>, CommandError>)
        ensures
            final(self).temps@ == relay_after(old(self).temps@, index as int, state),
            final(self).pumps@ == old(self).pumps@,
            r == relay_answer(old(self).temps@, index as int, state),
    {
        switch_relay(&mut self.temps, index, state)
    }

    /// Brings pump relay `index` into `state`. Returns the pin to pulse,
    /// `None` when no pulse is due, or the error when there is no such pump;
    /// then nothing has changed.
    pub fn switch_pump_relay(&mut self, index: usize, state: bool) -> (r: Result<Option<u8>, CommandError>)
        ensures
            final(self).pumps@ == relay_after(old(self).pumps@, index as int, state),
            final(self).temps@ == old(self).temps@,
            r == relay_answer(old(self).pumps@, index as int, state),
    {
        switch_relay(&mut self.pumps, index, state)
    }

    /// Brings the pumps into the given states, the first state for the first
    /// pump; pumps past the end of the list stay as they are. Returns the
    /// pins to pulse, in the order of the pumps. A list with more states
    /// than there are pumps is turned down; then nothing has changed.
    pub fn match_pump_relays(&mut self, states: &Vec<bool>) -> (r: Result<Vec<u8>, CommandError>)
        ensures
            final(self).pumps@ == bank_after(old(self).pumps@, goals_as_requests(states@)),
            final(self).temps@ == old(self).temps@,
            match bank_answer(old(self).pumps@, goals_as_requests(states@)) {
                Ok(pulses) => r is Ok && r->Ok_0@ == pulses,
                Err(e) => r == Err::<Vec<u8>, CommandError>(e),
            },
    {
        if states.len() > self.pumps.len() {
            return Err(CommandError::IndexOutOfBounds);
        }
        let ghost requests = goals_as_requests(states@);
        let mut pulses: Vec<u8> = Vec::new();
        let mut index: usize = 0;
        while index < states.len()
            invariant
                index <= states.len() <= self.pumps.len(),
                self.pumps.len() == old(self).pumps.len(),
                self.temps@ == old(self).temps@,
                requests == goals_as_requests(states@),
                forall|j: int| 0 <= j < index ==> self.pumps@[j] == old(self).pumps@[j].switched(requests[j]),
                forall|j: int| index <= j < self.pumps.len() ==> self.pumps@[j] == old(self).pumps@[j],
                pulses@ == bank_pulses(old(self).pumps@, requests, index as int),
            decreases states.len() - index,
        {
            match self.switch_pump_relay(index, states[index]) {
                Ok(Some(p)) => { pulses.push(p); },
                _ => {},
            }
            index = index + 1;
        }
        assert(self.pumps@ =~= switched_bank(old(self).pumps@, requests));
        Ok(pulses)
    }

    /// Switches every relay off, heaters first. Returns the pins to pulse.
    pub fn off(&mut self) -> (pulses: Vec<u8>)
        ensures
            forall|i: int| 0 <= i < final(self).temps@.len() ==> !(#[trigger] final(self).temps@[i]).enabled,
            forall|i: int| 0 <= i < final(self).pumps@.len() ==> !(#[trigger] final(self).pumps@[i]).enabled,
            final(self).temps@ == switched_bank(old(self).temps@, off_requests(old(self).temps@.len())),
            final(self).pumps@ == switched_bank(old(self).pumps@, off_requests(old(self).pumps@.len())),
            pulses@ == bank_pulses(
                old(self).temps@,
                off_requests(old(self).temps@.len()),
                old(self).temps@.len() as int,
            ) + bank_pulses(
                old(self).pumps@,
                off_requests(old(self).pumps@.len()),
                old(self).pumps@.len() as int,
            ),
    {
        let mut pulses = bank_off(&mut self.temps);
        let mut more = bank_off(&mut self.pumps);
        pulses.append(&mut more);
        pulses
    }

    /// The recorded state of each pump.
    pub fn get_pump_states(&self) -> (schuetze: Vec<bool>)
        ensures
            schuetze@ == bank_states(self.pumps@),
    {
        let mut schuetze: Vec<bool> = Vec::new();
        let mut i: usize = 0;
        while i < self.pumps.len()
            invariant
                i <= self.pumps.len(),
                schuetze@ == bank_states(self.pumps@.take(i as int)),
            decreases self.pumps.len() - i,
        {
            schuetze.push(self.pumps[i].enabled);
            i += 1;
        }
        schuetze
    }
}

/// Asking twice costs one pulse at most: after a relay was brought into a
/// state, the same request finds it there, costs no pulse and changes
/// nothing.
pub proof fn lemma_switch_is_idempotent(relay: Schuetz, state: bool)
    ensures
        relay.switched(Some(state)).enabled == state,
        relay.switched(Some(state)).trigger_pin == relay.trigger_pin,
        relay.switched(Some(state)).pulse(Some(state)) == Seq::<u8>::empty(),
        relay.switched(Some(state)).switched(Some(state)) == relay.switched(Some(state)),
        relay.pulse(Some(state)).len() <= 1,
{
}

/// Requests that cost no pulse change nothing: where the first `n` requests
/// of a list cost no pulse, the first `n` relays are in the states they were
/// asked for already.
pub proof fn lemma_no_pulse_no_change(bank: Seq<Schuetz>, requests: Seq<Option<bool>>, n: int)
    requires
        0 <= n <= bank.len(),
        n <= requests.len(),
        bank_pulses(bank, requests, n).len() == 0,
    ensures
        forall|i: int| 0 <= i < n ==> #[trigger] bank[i].switched(requests[i]) == bank[i],
    decreases n,
{
    if n > 0 {
        lemma_no_pulse_no_change(bank, requests, n - 1);
    }
}

/// After the request to switch off, every relay of a bank is off and on
/// its old pin.
pub proof fn lemma_off_means_off(bank: Seq<Schuetz>)
    ensures
        switched_bank(bank, off_requests(bank.len())).len() == bank.len(),
        forall|i: int|
            0 <= i < bank.len() ==> !(#[trigger] switched_bank(bank, off_requests(bank.len()))[i]).enabled
                && switched_bank(bank, off_requests(bank.len()))[i].trigger_pin == bank[i].trigger_pin,
{
}

/// After a bank was matched to a list of goals, the relays that have a goal
/// show it, the others are as they were, and every relay is on its old pin.
pub proof fn lemma_matched_bank_shows_goals(bank: Seq<Schuetz>, states: Seq<bool>)
    requires
        states.len() <= bank.len(),
    ensures
        switched_bank(bank, goals_as_requests(states)).len() == bank.len(),
        forall|i: int|
            0 <= i < states.len() ==> (#[trigger] switched_bank(bank, goals_as_requests(states))[i]).enabled
                == states[i],
        forall|i: int|
            states.len() <= i < bank.len() ==> #[trigger] switched_bank(bank, goals_as_requests(states))[i]
                == bank[i],
        forall|i: int|
            0 <= i < bank.len() ==> (#[trigger] switched_bank(bank, goals_as_requests(states))[i]).trigger_pin
                == bank[i].trigger_pin,
{
}

/// The pulses for a list of requests are at most one per request.
pub proof fn lemma_pulses_are_bounded(bank: Seq<Schuetz>, requests: Seq<Option<bool>>, n: int)
    requires
        0 <= n,
    ensures
        bank_pulses(bank, requests, n).len() <= n,
    decreases n,
{
    if n > 0 {
        lemma_pulses_are_bounded(bank, requests, n - 1);
    }
}

} // verus!
