//! The process controller: it owns the recipe, the temperature goals in
//! force and the relay bank, and turns clock readings, measurements and
//! commands into the next state and the pins to pulse.
//!
//! Every function that switches relays returns the pins that have to be
//! pulsed, in order. The caller sends the pulses.

use vstd::prelude::*;
use crate::peripheral::{
    bank_pulses, bank_states, goals_as_requests, lemma_matched_bank_shows_goals, off_requests,
    switch_bank, switched_bank, wired_heaters, wired_pumps, Peripheral, Schuetz,
};
use crate::regulator::{decide, decisions, DEFAULT_TOLERANCE};
use crate::structs::{
    empty_step, lemma_steps_view_append, lemma_steps_view_update, steps_view, Command, CommandError,
    CommandModel, FullStatus, PumpOverride, RecipeModel, RecipeState, RecipeStatus, RecipeStep,
    StatusModel, StepModel, TempOverride,
};

verus! {

/// The controller.
pub struct Control {
    temperatures: Vec<i32>,
    temps_set: Vec<i32>,
    heating_buffer: i32,
    cooling_buffer: i32,
    recipe_status: RecipeStatus,
    peripheral: Peripheral,
}

/// The controller as a mathematical value.
pub struct ControlModel {
    /// Temperatures measured last, one per zone.
    pub measured: Seq<i32>,
    /// Temperature goals in force, one per zone.
    pub goals: Seq<i32>,
    /// How far above the goal a zone may get before its heater is stopped.
    pub heating_buffer: i32,
    /// How far below the goal a zone may get before its heater is started.
    pub cooling_buffer: i32,
    pub recipe: RecipeModel,
    pub heaters: Seq<Schuetz>,
    pub pumps: Seq<Schuetz>,
}

/// A state of the controller together with the pins to pulse on the way
/// there.
pub struct Effect {
    pub state: ControlModel,
    pub pulses: Seq<u8>,
}

/// The command of a cycle, if there is one, as a mathematical value.
pub open spec fn command_view(command: Option<Command>) -> Option<CommandModel> {
    match command {
        Some(c) => Some(c@),
        None => None,
    }
}

/// What one cycle of the controller hands back.
pub struct Cycle {
    /// The pins to pulse, in order.
    pub pulses: Vec<u8>,
    /// The state after the cycle.
    pub status: FullStatus,
    /// Why the command of this cycle was turned down, if it was.
    pub rejected: Option<CommandError>,
}

/// One cycle as a mathematical value.
pub struct CycleModel {
    pub state: ControlModel,
    pub pulses: Seq<u8>,
    pub rejected: Option<CommandError>,
}

impl View for Control {
    type V = ControlModel;

    closed spec fn view(&self) -> ControlModel {
        ControlModel {
            measured: self.temperatures@,
            goals: self.temps_set@,
            heating_buffer: self.heating_buffer,
            cooling_buffer: self.cooling_buffer,
            recipe: self.recipe_status@,
            heaters: self.peripheral.temps@,
            pumps: self.peripheral.pumps@,
        }
    }
}

impl ControlModel {
    /// Whether a step has one temperature goal per zone and one goal per
    /// pump of this rig.
    pub open spec fn fits(self, step: StepModel) -> bool {
        step.temperatures.len() == self.heaters.len() && step.schuetze.len() == self.pumps.len()
    }

    /// Whether every step of a list fits this rig.
    pub open spec fn all_fit(self, steps: Seq<StepModel>) -> bool {
        forall|i: int| 0 <= i < steps.len() ==> self.fits(#[trigger] steps[i])
    }

    /// The invariant of the controller: the recipe has a step, the index
    /// points into it, and goals in force and steps fit the rig.
    pub open spec fn wf(self) -> bool {
        &&& self.recipe.steps.len() >= 1
        &&& 0 <= self.recipe.index < self.recipe.steps.len()
        &&& self.goals.len() == self.heaters.len()
        &&& self.all_fit(self.recipe.steps)
    }

    /// The requests that the regulator makes of the heaters.
    pub open spec fn heater_requests(self) -> Seq<Option<bool>> {
        decisions(self.goals, self.measured, self.heating_buffer as int, self.cooling_buffer as int)
    }

    /// After every relay was switched off.
    pub open spec fn shut_down(self) -> Effect {
        Effect {
            state: ControlModel {
                heaters: switched_bank(self.heaters, off_requests(self.heaters.len())),
                pumps: switched_bank(self.pumps, off_requests(self.pumps.len())),
                ..self
            },
            pulses: bank_pulses(self.heaters, off_requests(self.heaters.len()), self.heaters.len() as int)
                + bank_pulses(self.pumps, off_requests(self.pumps.len()), self.pumps.len() as int),
        }
    }

    /// After the regulator has looked at the measured temperatures: each
    /// heater follows the hysteresis rule.
    pub open spec fn regulated(self) -> Effect {
        Effect {
            state: ControlModel { heaters: switched_bank(self.heaters, self.heater_requests()), ..self },
            pulses: bank_pulses(self.heaters, self.heater_requests(), self.heater_requests().len() as int),
        }
    }

    /// What a cycle does to the relays before it looks at the recipe. While a
    /// step runs or waits, the regulator works; once the process is finished,
    /// every relay is switched off; before a start nothing is switched.
    pub open spec fn supervised(self) -> Effect {
        if self.recipe.state == RecipeState::RUNNING || self.recipe.state == RecipeState::WAITING {
            self.regulated()
        } else if self.recipe.state == RecipeState::FINISHED {
            self.shut_down()
        } else {
            Effect { state: self, pulses: Seq::empty() }
        }
    }

    /// After the goals of the active step were put in force: its
    /// temperatures are the goals of the regulator, and the pumps are in the
    /// states it asks for.
    pub open spec fn applied(self) -> Effect {
        let step = self.recipe.active();
        Effect {
            state: ControlModel {
                goals: step.temperatures,
                pumps: switched_bank(self.pumps, goals_as_requests(step.schuetze)),
                ..self
            },
            pulses: bank_pulses(self.pumps, goals_as_requests(step.schuetze), step.schuetze.len() as int),
        }
    }

    /// After a start at `now`: the active step runs, with its goals in force.
    pub open spec fn started(self, now: u64) -> Effect {
        ControlModel { recipe: self.recipe.started(now), ..self }.applied()
    }

    /// After a skip at `now`: the active step is left, and where that starts
    /// the next step, its goals are in force.
    pub open spec fn skipped(self, now: u64) -> Effect {
        let next = ControlModel { recipe: self.recipe.advanced(now), ..self };
        if self.recipe.advance_starts() {
            next.applied()
        } else {
            Effect { state: next, pulses: Seq::empty() }
        }
    }

    /// After the progress was evaluated at `now`: the active step is left if
    /// it is due, as by a skip.
    pub open spec fn evaluated(self, now: u64) -> Effect {
        if self.recipe.due(now) {
            self.skipped(now)
        } else {
            Effect { state: self, pulses: Seq::empty() }
        }
    }

    /// After a pause: every relay is off, and a step that ran waits.
    pub open spec fn stopped(self) -> Effect {
        let off = self.shut_down();
        Effect {
            state: ControlModel {
                recipe: RecipeModel {
                    state: if self.recipe.state == RecipeState::RUNNING {
                        RecipeState::WAITING
                    } else {
                        self.recipe.state
                    },
                    ..self.recipe
                },
                ..off.state
            },
            pulses: off.pulses,
        }
    }

    /// The same controller with the active step of its recipe replaced.
    pub open spec fn with_active(self, step: StepModel) -> ControlModel {
        ControlModel {
            recipe: RecipeModel { steps: self.recipe.steps.update(self.recipe.index, step), ..self.recipe },
            ..self
        }
    }

    /// Whether overridden goals go to the relays and the regulator at once:
    /// they do while the step runs.
    pub open spec fn forwards(self) -> bool {
        self.recipe.state == RecipeState::RUNNING
    }

    /// After the temperature goals of the active step were replaced. The new
    /// goals need one entry per zone.
    pub open spec fn goals_overridden(self, new_goals: Seq<i32>) -> Result<ControlModel, CommandError> {
        if new_goals.len() != self.heaters.len() {
            Err(CommandError::WrongLength)
        } else {
            let next = self.with_active(StepModel { temperatures: new_goals, ..self.recipe.active() });
            Ok(if self.forwards() { ControlModel { goals: new_goals, ..next } } else { next })
        }
    }

    /// After one temperature goal of the active step was replaced. No other
    /// goal changes.
    pub open spec fn goal_overridden(self, index: int, temp: i32) -> Result<ControlModel, CommandError> {
        if index >= self.heaters.len() {
            Err(CommandError::IndexOutOfBounds)
        } else {
            let step = self.recipe.active();
            let next = self.with_active(
                StepModel { temperatures: step.temperatures.update(index, temp), ..step },
            );
            Ok(if self.forwards() { ControlModel { goals: self.goals.update(index, temp), ..next } } else { next })
        }
    }

    /// After the pump goals of the active step were replaced. The new goals
    /// need one entry per pump.
    pub open spec fn pumps_overridden(self, new_states: Seq<bool>) -> Result<Effect, CommandError> {
        if new_states.len() != self.pumps.len() {
            Err(CommandError::WrongLength)
        } else {
            let next = self.with_active(StepModel { schuetze: new_states, ..self.recipe.active() });
            Ok(if self.forwards() {
                Effect {
                    state: ControlModel {
                        pumps: switched_bank(self.pumps, goals_as_requests(new_states)),
                        ..next
                    },
                    pulses: bank_pulses(self.pumps, goals_as_requests(new_states), new_states.len() as int),
                }
            } else {
                Effect { state: next, pulses: Seq::empty() }
            })
        }
    }

    /// After one pump goal of the active step was replaced. No other goal
    /// changes, and no other pump is switched.
    pub open spec fn pump_overridden(self, index: int, state: bool) -> Result<Effect, CommandError> {
        if index >= self.pumps.len() {
            Err(CommandError::IndexOutOfBounds)
        } else {
            let step = self.recipe.active();
            let next = self.with_active(StepModel { schuetze: step.schuetze.update(index, state), ..step });
            Ok(if self.forwards() {
                Effect {
                    state: ControlModel {
                        pumps: self.pumps.update(index, self.pumps[index].switched(Some(state))),
                        ..next
                    },
                    pulses: self.pumps[index].pulse(Some(state)),
                }
            } else {
                Effect { state: next, pulses: Seq::empty() }
            })
        }
    }

    /// After the duration of the active step was replaced.
    pub open spec fn duration_overridden(self, duration: u64) -> ControlModel {
        self.with_active(StepModel { duration, ..self.recipe.active() })
    }

    /// After a recipe was loaded. A recipe without a step, or with a step
    /// that does not fit the rig, is turned down. Once the process is
    /// finished the new steps replace the old ones and the process stands
    /// before the first of them; before that they are appended. Loading
    /// into an empty or finished process makes it a loaded one.
    pub open spec fn loaded(self, steps: Seq<StepModel>) -> Result<ControlModel, CommandError> {
        if steps.len() == 0 || !self.all_fit(steps) {
            Err(CommandError::MalformedRecipe)
        } else if self.recipe.state == RecipeState::FINISHED {
            Ok(ControlModel {
                recipe: RecipeModel { steps, index: 0, state: RecipeState::LOADED, ..self.recipe },
                ..self
            })
        } else if self.recipe.state == RecipeState::EMPTY {
            Ok(ControlModel {
                recipe: RecipeModel {
                    steps: self.recipe.steps + steps,
                    state: RecipeState::LOADED,
                    ..self.recipe
                },
                ..self
            })
        } else {
            Ok(ControlModel {
                recipe: RecipeModel { steps: self.recipe.steps + steps, ..self.recipe },
                ..self
            })
        }
    }

    /// After a command at `now`, or why it is turned down.
    pub open spec fn processed(self, command: CommandModel, now: u64) -> Result<Effect, CommandError> {
        match command {
            CommandModel::SKIP => Ok(self.skipped(now)),
            CommandModel::START => Ok(self.started(now)),
            CommandModel::STOP => Ok(self.stopped()),
            CommandModel::OVTEMP { index, temp } => match self.goal_overridden(index, temp) {
                Ok(state) => Ok(Effect { state, pulses: Seq::empty() }),
                Err(e) => Err(e),
            },
            CommandModel::OVPUMP { index, state } => self.pump_overridden(index, state),
            CommandModel::OVTEMPS(goals) => match self.goals_overridden(goals) {
                Ok(state) => Ok(Effect { state, pulses: Seq::empty() }),
                Err(e) => Err(e),
            },
            CommandModel::OVPUMPS(states) => self.pumps_overridden(states),
            CommandModel::OVDURATION(duration) => Ok(
                Effect { state: self.duration_overridden(duration), pulses: Seq::empty() },
            ),
            CommandModel::RECIPE(steps) => match self.loaded(steps) {
                Ok(state) => Ok(Effect { state, pulses: Seq::empty() }),
                Err(e) => Err(e),
            },
            CommandModel::STEP(step) => match self.loaded(seq![step]) {
                Ok(state) => Ok(Effect { state, pulses: Seq::empty() }),
                Err(e) => Err(e),
            },
        }
    }

    /// One cycle at `now`: the measured temperatures are taken over, the
    /// relays are supervised, the progress is evaluated, and then the
    /// command, if there is one, is carried out. A command that is turned
    /// down changes nothing.
    pub open spec fn cycled(self, now: u64, measured: Seq<i32>, command: Option<CommandModel>) -> CycleModel {
        let supervised = ControlModel { measured, ..self }.supervised();
        let evaluated = supervised.state.evaluated(now);
        let pulses = supervised.pulses + evaluated.pulses;
        match command {
            None => CycleModel { state: evaluated.state, pulses, rejected: None },
            Some(c) => match evaluated.state.processed(c, now) {
                Ok(done) => CycleModel { state: done.state, pulses: pulses + done.pulses, rejected: None },
                Err(e) => CycleModel { state: evaluated.state, pulses, rejected: Some(e) },
            },
        }
    }

    /// The snapshot of a state.
    pub open spec fn status(self) -> StatusModel {
        StatusModel {
            recipe: self.recipe,
            temperatures: self.measured,
            temps_set: self.goals,
            schuetze: bank_states(self.pumps),
        }
    }
}

impl Control {
    /// The controller that `new` makes.
    pub open spec fn new_model(now: u64) -> ControlModel {
        ControlModel {
            measured: Seq::empty(),
            goals: seq![0i32, 0i32],
            heating_buffer: DEFAULT_TOLERANCE,
            cooling_buffer: DEFAULT_TOLERANCE,
            recipe: RecipeModel {
                steps: seq![empty_step()],
                index: 0,
                state: RecipeState::EMPTY,
                timestamp: now,
            },
            heaters: wired_heaters(),
            pumps: wired_pumps(),
        }
    }

    /// A controller for the rig as it is wired, without a recipe: nothing
    /// measured yet, all goals zero, the default dead band, every relay off.
    pub fn new(now: u64) -> (r: Self)
        ensures
            r@.wf(),
            r@ == Self::new_model(now),
    {
        let mut temps_set: Vec<i32> = Vec::new();
        temps_set.push(0);
        temps_set.push(0);
        let r = Control {
            temperatures: Vec::new(),
            temps_set,
            heating_buffer: DEFAULT_TOLERANCE,
            cooling_buffer: DEFAULT_TOLERANCE,
            recipe_status: RecipeStatus::new(now),
            peripheral: Peripheral::new(),
        };
        assert(r@.goals =~= seq![0i32, 0i32]);
        r
    }

    /// Sets the dead band of the regulator.
    pub fn set_buffers(&mut self, heating_buffer: i32, cooling_buffer: i32)
        ensures
            final(self)@ == (ControlModel { heating_buffer, cooling_buffer, ..old(self)@ }),
    {
        self.heating_buffer = heating_buffer;
        self.cooling_buffer = cooling_buffer;
    }

    /// Recipe and progress.
    pub fn recipe_status(&self) -> (r: &RecipeStatus)
        ensures
            r@ == self@.recipe,
    {
        &self.recipe_status
    }

    /// The active step of the recipe.
    pub fn current_step(&self) -> (r: &RecipeStep)
        requires
            self@.wf(),
        ensures
            r@ == self@.recipe.active(),
    {
        &self.recipe_status.recipe_steps[self.recipe_status.step_index]
    }

    /// The relay bank.
    pub fn peripheral(&self) -> (r: &Peripheral)
        ensures
            r.temps@ == self@.heaters,
            r.pumps@ == self@.pumps,
    {
        &self.peripheral
    }

    /// The temperatures measured last.
    pub fn temperatures(&self) -> (r: &Vec<i32>)
        ensures
            r@ == self@.measured,
    {
        &self.temperatures
    }

    /// The temperature goals in force.
    pub fn temps_set(&self) -> (r: &Vec<i32>)
        ensures
            r@ == self@.goals,
    {
        &self.temps_set
    }

    /// Takes over the temperatures that were measured.
    pub fn update_temperatures(&mut self, measured: Vec<i32>)
        ensures
            final(self)@ == (ControlModel { measured: measured@, ..old(self)@ }),
    {
        self.temperatures = measured;
    }

    /// Switches every relay off.
    pub fn shutdown(&mut self) -> (pulses: Vec<u8>)
        ensures
            final(self)@ == old(self)@.shut_down().state,
            pulses@ == old(self)@.shut_down().pulses,
            old(self)@.wf() ==> final(self)@.wf(),
    {
        self.peripheral.off()
    }

    /// Lets the regulator look at the measured temperatures and switch the
    /// heaters. Returns the pins to pulse.
    pub fn check_temperatures(&mut self) -> (pulses: Vec<u8>)
        requires
            old(self)@.wf(),
        ensures
            final(self)@ == old(self)@.regulated().state,
            pulses@ == old(self)@.regulated().pulses,
            final(self)@.wf(),
    {
        let requests = decide(&self.temps_set, &self.temperatures, self.heating_buffer, self.cooling_buffer);
        // there are no more requests than goals, and one heater per goal
        match switch_bank(&mut self.peripheral.temps, &requests) {
            Ok(pulses) => pulses,
            Err(_) => Vec::new(),
        }
    }

    /// Brings the pumps into the states that the active step asks for.
    /// Returns the pins to pulse.
    pub fn update_schuetze(&mut self) -> (pulses: Vec<u8>)
        requires
            old(self)@.wf(),
        ensures
            final(self)@ == (ControlModel { goals: old(self)@.goals, ..old(self)@.applied().state }),
            pulses@ == old(self)@.applied().pulses,
            final(self)@.wf(),
    {
        let step = &self.recipe_status.recipe_steps[self.recipe_status.step_index];
        assert(self@.fits(self@.recipe.steps[self@.recipe.index]));
        // every step of the recipe has one goal per pump
        match self.peripheral.match_pump_relays(&step.schuetze) {
            Ok(pulses) => pulses,
            Err(_) => Vec::new(),
        }
    }

    /// Puts the temperature goals of the active step in force.
    pub fn update_goals(&mut self)
        requires
            old(self)@.wf(),
        ensures
            final(self)@ == (ControlModel { goals: old(self)@.recipe.active().temperatures, ..old(self)@ }),
            final(self)@.wf(),
    {
        let step = &self.recipe_status.recipe_steps[self.recipe_status.step_index];
        self.temps_set = step.temperatures.clone();
    }

    /// Starts the active step at `now` and puts its goals in force. Returns
    /// the pins to pulse.
    pub fn start_step(&mut self, now: u64) -> (pulses: Vec<u8>)
        requires
            old(self)@.wf(),
        ensures
            final(self)@ == old(self)@.started(now).state,
            pulses@ == old(self)@.started(now).pulses,
            final(self)@.wf(),
    {
        self.recipe_status.start_step(now);
        self.update_goals();
        self.update_schuetze()
    }

    /// Leaves the active step at `now`. Where that starts the next step, its
    /// goals are put in force. Returns the pins to pulse.
    pub fn next_step(&mut self, now: u64) -> (pulses: Vec<u8>)
        requires
            old(self)@.wf(),
        ensures
            final(self)@ == old(self)@.skipped(now).state,
            pulses@ == old(self)@.skipped(now).pulses,
            final(self)@.wf(),
    {
        if self.recipe_status.next_step(now) {
            self.update_goals();
            self.update_schuetze()
        } else {
            Vec::new()
        }
    }

    /// Evaluates the progress at `now`: leaves the active step if it has run
    /// for its duration. Returns the pins to pulse.
    pub fn check_recipe(&mut self, now: u64) -> (pulses: Vec<u8>)
        requires
            old(self)@.wf(),
        ensures
            final(self)@ == old(self)@.evaluated(now).state,
            pulses@ == old(self)@.evaluated(now).pulses,
            final(self)@.wf(),
    {
        if self.recipe_status.is_due(now) {
            self.next_step(now)
        } else {
            Vec::new()
        }
    }

    /// Pauses the process: every relay is switched off, and a step that runs
    /// waits for the next start. Returns the pins to pulse.
    pub fn stop(&mut self) -> (pulses: Vec<u8>)
        requires
            old(self)@.wf(),
        ensures
            final(self)@ == old(self)@.stopped().state,
            pulses@ == old(self)@.stopped().pulses,
            final(self)@.wf(),
    {
        if self.recipe_status.state == RecipeState::RUNNING {
            self.recipe_status.state = RecipeState::WAITING;
        }
        self.peripheral.off()
    }

    /// Replaces the temperature goals of the active step. While the step
    /// runs, the new goals are in force at once.
    pub fn manual_goal_override(&mut self, new_goals: Vec<i32>) -> (r: Result<(), CommandError>)
        requires
            old(self)@.wf(),
        ensures
            match old(self)@.goals_overridden(new_goals@) {
                Ok(next) => r is Ok && final(self)@ == next,
                Err(e) => r == Err::<(), CommandError>(e) && final(self)@ == old(self)@,
            },
            final(self)@.wf(),
    {
        if new_goals.len() != self.peripheral.temps.len() {
            return Err(CommandError::WrongLength);
        }
        if self.recipe_status.state == RecipeState::RUNNING {
            self.temps_set = new_goals.clone();
        }
        let ghost steps = self.recipe_status.recipe_steps@;
        let ghost index = self.recipe_status.step_index as int;
        let step = self.recipe_status.current_step();
        step.temperatures = new_goals;
        proof {
            lemma_steps_view_update(steps, index, self.recipe_status.recipe_steps@[index]);
        }
        Ok(())
    }

    /// Replaces the pump goals of the active step. While the step runs, the
    /// pumps are brought into the new states at once. Returns the pins to
    /// pulse.
    pub fn manual_pump_override(&mut self, new_states: Vec<bool>) -> (r: Result<Vec<u8>, CommandError>)
        requires
            old(self)@.wf(),
        ensures
            match old(self)@.pumps_overridden(new_states@) {
                Ok(next) => r is Ok && final(self)@ == next.state && r->Ok_0@ == next.pulses,
                Err(e) => r == Err::<Vec<u8>, CommandError>(e) && final(self)@ == old(self)@,
            },
            final(self)@.wf(),
    {
        if new_states.len() != self.peripheral.pumps.len() {
            return Err(CommandError::WrongLength);
        }
        let pulses = if self.recipe_status.state == RecipeState::RUNNING {
            match self.peripheral.match_pump_relays(&new_states) {
                Ok(pulses) => pulses,
                Err(_) => Vec::new(),
            }
        } else {
            Vec::new()
        };
        let ghost steps = self.recipe_status.recipe_steps@;
        let ghost index = self.recipe_status.step_index as int;
        let step = self.recipe_status.current_step();
        step.schuetze = new_states;
        proof {
            lemma_steps_view_update(steps, index, self.recipe_status.recipe_steps@[index]);
        }
        Ok(pulses)
    }

    /// Replaces one temperature goal of the active step. While the step
    /// runs, the new goal is in force at once. No other goal changes.
    pub fn manual_goal_override_single(&mut self, oride: TempOverride) -> (r: Result<(), CommandError>)
        requires
            old(self)@.wf(),
        ensures
            match old(self)@.goal_overridden(oride.index as int, oride.temp) {
                Ok(next) => r is Ok && final(self)@ == next,
                Err(e) => r == Err::<(), CommandError>(e) && final(self)@ == old(self)@,
            },
            final(self)@.wf(),
    {
        if oride.index >= self.peripheral.temps.len() {
            return Err(CommandError::IndexOutOfBounds);
        }
        if self.recipe_status.state == RecipeState::RUNNING {
            self.temps_set[oride.index] = oride.temp;
        }
        let ghost steps = self.recipe_status.recipe_steps@;
        let ghost index = self.recipe_status.step_index as int;
        let step = self.recipe_status.current_step();
        step.temperatures[oride.index] = oride.temp;
        proof {
            lemma_steps_view_update(steps, index, self.recipe_status.recipe_steps@[index]);
        }
        Ok(())
    }

    /// Replaces one pump goal of the active step. While the step runs, that
    /// pump is brought into the new state at once. Returns the pins to pulse.
    pub fn manual_pump_override_single(&mut self, oride: PumpOverride) -> (r: Result<Vec<u8>, CommandError>)
        requires
            old(self)@.wf(),
        ensures
            match old(self)@.pump_overridden(oride.index as int, oride.state) {
                Ok(next) => r is Ok && final(self)@ == next.state && r->Ok_0@ == next.pulses,
                Err(e) => r == Err::<Vec<u8>, CommandError>(e) && final(self)@ == old(self)@,
            },
            final(self)@.wf(),
    {
        if oride.index >= self.peripheral.pumps.len() {
            return Err(CommandError::IndexOutOfBounds);
        }
        let mut pulses: Vec<u8> = Vec::new();
        if self.recipe_status.state == RecipeState::RUNNING {
            match self.peripheral.switch_pump_relay(oride.index, oride.state) {
                Ok(Some(pin)) => { pulses.push(pin); },
                _ => {},
            }
        }
        let ghost steps = self.recipe_status.recipe_steps@;
        let ghost index = self.recipe_status.step_index as int;
        let step = self.recipe_status.current_step();
        step.schuetze[oride.index] = oride.state;
        proof {
            lemma_steps_view_update(steps, index, self.recipe_status.recipe_steps@[index]);
        }
        Ok(pulses)
    }

    /// Replaces the duration of the active step.
    pub fn manual_override_duration(&mut self, duration: u64)
        requires
            old(self)@.wf(),
        ensures
            final(self)@ == old(self)@.duration_overridden(duration),
            final(self)@.wf(),
    {
        let ghost steps = self.recipe_status.recipe_steps@;
        let ghost index = self.recipe_status.step_index as int;
        let step = self.recipe_status.current_step();
        step.duration = duration;
        proof {
            lemma_steps_view_update(steps, index, self.recipe_status.recipe_steps@[index]);
        }
    }

    /// Whether every step of a list fits the rig.
    pub fn recipe_fits(&self, steps: &Vec<RecipeStep>) -> (r: bool)
        ensures
            r == self@.all_fit(steps_view(steps@)),
    {
        let mut i: usize = 0;
        while i < steps.len()
            invariant
                i <= steps.len(),
                forall|j: int| 0 <= j < i ==> self@.fits(#[trigger] steps_view(steps@)[j]),
            decreases steps.len() - i,
        {
            if steps[i].temperatures.len() != self.peripheral.temps.len() || steps[i].schuetze.len()
                != self.peripheral.pumps.len() {
                assert(!self@.fits(steps_view(steps@)[i as int]));
                return false;
            }
            i += 1;
        }
        true
    }

    /// Loads a recipe.
    pub fn import_recipe(&mut self, steps: Vec<RecipeStep>) -> (r: Result<(), CommandError>)
        requires
            old(self)@.wf(),
        ensures
            match old(self)@.loaded(steps_view(steps@)) {
                Ok(next) => r is Ok && final(self)@ == next,
                Err(e) => r == Err::<(), CommandError>(e) && final(self)@ == old(self)@,
            },
            final(self)@.wf(),
    {
        if steps.len() == 0 || !self.recipe_fits(&steps) {
            return Err(CommandError::MalformedRecipe);
        }
        let mut steps = steps;
        match self.recipe_status.state {
            RecipeState::FINISHED => {
                self.recipe_status.recipe_steps = steps;
                self.recipe_status.step_index = 0;
                self.recipe_status.state = RecipeState::LOADED;
            },
            RecipeState::EMPTY => {
                proof {
                    lemma_steps_view_append(self.recipe_status.recipe_steps@, steps@);
                }
                self.recipe_status.recipe_steps.append(&mut steps);
                self.recipe_status.state = RecipeState::LOADED;
            },
            _ => {
                proof {
                    lemma_steps_view_append(self.recipe_status.recipe_steps@, steps@);
                }
                self.recipe_status.recipe_steps.append(&mut steps);
            },
        }
        Ok(())
    }

    /// Carries out a command at `now`. Returns the pins to pulse, or why the
    /// command was turned down; then nothing has changed.
    pub fn process_command(&mut self, command: Command, now: u64) -> (r: Result<Vec<u8>, CommandError>)
        requires
            old(self)@.wf(),
        ensures
            match old(self)@.processed(command@, now) {
                Ok(next) => r is Ok && final(self)@ == next.state && r->Ok_0@ == next.pulses,
                Err(e) => r == Err::<Vec<u8>, CommandError>(e) && final(self)@ == old(self)@,
            },
            final(self)@.wf(),
    {
        match command {
            Command::SKIP => Ok(self.next_step(now)),
            Command::START => Ok(self.start_step(now)),
            Command::STOP => Ok(self.stop()),
            Command::OVTEMP(value) => match self.manual_goal_override_single(value) {
                Ok(()) => Ok(Vec::new()),
                Err(e) => Err(e),
            },
            Command::OVPUMP(value) => self.manual_pump_override_single(value),
            Command::OVTEMPS(value) => match self.manual_goal_override(value) {
                Ok(()) => Ok(Vec::new()),
                Err(e) => Err(e),
            },
            Command::OVPUMPS(value) => self.manual_pump_override(value),
            Command::OVDURATION(value) => {
                self.manual_override_duration(value);
                Ok(Vec::new())
            },
            Command::RECIPE(value) => match self.import_recipe(value) {
                Ok(()) => Ok(Vec::new()),
                Err(e) => Err(e),
            },
            Command::STEP(value) => {
                let mut steps: Vec<RecipeStep> = Vec::new();
                steps.push(value);
                assert(steps_view(steps@) =~= seq![value@]);
                match self.import_recipe(steps) {
                    Ok(()) => Ok(Vec::new()),
                    Err(e) => Err(e),
                }
            },
        }
    }

    /// The snapshot of the present state.
    pub fn snapshot(&self) -> (status: FullStatus)
        ensures
            status@ == self@.status(),
    {
        FullStatus {
            recipe_status: self.recipe_status.clone(),
            temperatures: self.temperatures.clone(),
            temps_set: self.temps_set.clone(),
            schuetze: self.peripheral.get_pump_states(),
        }
    }

    /// One cycle of the controller at `now`, with the temperatures that were
    /// measured and the command that has arrived, if any.
    pub fn control_run(&mut self, now: u64, measured: Vec<i32>, command: Option<Command>) -> (r: Cycle)
        requires
            old(self)@.wf(),
        ensures
            final(self)@ == old(self)@.cycled(now, measured@, command_view(command)).state,
            r.pulses@ == old(self)@.cycled(now, measured@, command_view(command)).pulses,
            r.rejected == old(self)@.cycled(now, measured@, command_view(command)).rejected,
            r.status@ == final(self)@.status(),
            final(self)@.wf(),
    {
        self.update_temperatures(measured);
        let mut pulses = match self.recipe_status.state {
            RecipeState::RUNNING | RecipeState::WAITING => self.check_temperatures(),
            RecipeState::FINISHED => self.shutdown(),
            _ => Vec::new(),
        };
        let mut more = self.check_recipe(now);
        pulses.append(&mut more);
        let mut rejected: Option<CommandError> = None;
        match command {
            Some(c) => match self.process_command(c, now) {
                Ok(last) => {
                    let mut last = last;
                    pulses.append(&mut last);
                },
                Err(e) => {
                    rejected = Some(e);
                },
            },
            None => {},
        }
        Cycle { pulses, status: self.snapshot(), rejected }
    }
}

/// An override of one temperature goal is local. It sets that goal of the
/// active step and, while the step runs, that goal of the regulator; every
/// other goal of the step and of the regulator, every other step, the
/// progress and the relays stay as they are.
pub proof fn lemma_single_override_is_local(m: ControlModel, index: int, temp: i32)
    requires
        m.wf(),
        0 <= index < m.heaters.len(),
    ensures
        m.goal_overridden(index, temp) is Ok,
        ({
            let next = m.goal_overridden(index, temp)->Ok_0;
            let before = m.recipe.active().temperatures;
            let after = next.recipe.active().temperatures;
            &&& after.len() == before.len()
            &&& after[index] == temp
            &&& forall|j: int| 0 <= j < before.len() && j != index ==> after[j] == before[j]
            &&& next.goals.len() == m.goals.len()
            &&& forall|j: int| 0 <= j < m.goals.len() && j != index ==> next.goals[j] == m.goals[j]
            &&& next.goals[index] == if m.forwards() { temp } else { m.goals[index] }
            &&& next.recipe.steps.len() == m.recipe.steps.len()
            &&& forall|k: int|
                0 <= k < m.recipe.steps.len() && k != m.recipe.index ==> next.recipe.steps[k]
                    == m.recipe.steps[k]
            &&& next.recipe.active().duration == m.recipe.active().duration
            &&& next.recipe.active().schuetze == m.recipe.active().schuetze
            &&& next.recipe.active().automatic == m.recipe.active().automatic
            &&& next.recipe.index == m.recipe.index
            &&& next.recipe.state == m.recipe.state
            &&& next.recipe.timestamp == m.recipe.timestamp
            &&& next.measured == m.measured
            &&& next.heaters == m.heaters
            &&& next.pumps == m.pumps
            &&& next.wf()
        }),
{
}

/// A start puts the goals of the active step in force: afterwards the step
/// runs from `now`, the regulator works towards the temperatures of the
/// step, and the pumps are in the states that the step asks for.
pub proof fn lemma_start_applies_the_step(m: ControlModel, now: u64)
    requires
        m.wf(),
    ensures
        m.started(now).state.wf(),
        m.started(now).state.recipe.state == RecipeState::RUNNING,
        m.started(now).state.recipe.timestamp == now,
        m.started(now).state.recipe.index == m.recipe.index,
        m.started(now).state.recipe.steps == m.recipe.steps,
        m.started(now).state.goals == m.recipe.active().temperatures,
        bank_states(m.started(now).state.pumps) == m.recipe.active().schuetze,
        m.started(now).state.heaters == m.heaters,
{
    lemma_matched_bank_shows_goals(m.pumps, m.recipe.active().schuetze);
}

/// The clock moves the process once per step, however often the progress
/// is evaluated. After an evaluation at `now`, an evaluation at `later`
/// changes nothing and pulses nothing, unless a step is running whose own
/// duration has passed by `later`.
pub proof fn lemma_evaluation_settles(m: ControlModel, now: u64, later: u64)
    requires
        m.wf(),
        m.evaluated(now).state.recipe.state == RecipeState::RUNNING ==> m.evaluated(
            now,
        ).state.recipe.elapsed(later) < m.evaluated(now).state.recipe.active().duration,
    ensures
        m.evaluated(now).state.evaluated(later).state == m.evaluated(now).state,
        m.evaluated(now).state.evaluated(later).pulses == Seq::<u8>::empty(),
{
}

} // verus!
