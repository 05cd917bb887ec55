//! The recipe, its steps and the status of the process that runs it.

use vstd::prelude::*;

verus! {

/// Where the process stands.
#[derive(PartialEq, Eq, Clone, Copy, Debug, Structural)]
pub enum RecipeState {
    /// Nothing has been loaded yet.
    EMPTY,
    /// Steps have been loaded, the process has not been started.
    LOADED,
    /// The active step is running and its timer counts.
    RUNNING,
    /// The process waits for a manual start of the active step.
    WAITING,
    /// The last step has ended.
    FINISHED,
}

/// Duration of a step that never ends by itself.
pub const UNBOUNDED: u64 = u64::MAX;

/// One phase of a recipe.
pub struct RecipeStep {
    /// Temperature goal of each thermal zone, in thousandths of a degree.
    pub temperatures: Vec<i32>,
    /// Duration in seconds; `UNBOUNDED` for a step that only ends by hand.
    pub duration: u64,
    /// Goal state of each pump relay: `true` is on.
    pub schuetze: Vec<bool>,
    /// Whether the step starts by itself when the one before it ends.
    pub automatic: bool,
}

/// A step as a mathematical value.
pub struct StepModel {
    pub temperatures: Seq<i32>,
    pub duration: u64,
    pub schuetze: Seq<bool>,
    pub automatic: bool,
}

impl View for RecipeStep {
    type V = StepModel;

    open spec fn view(&self) -> StepModel {
        StepModel {
            temperatures: self.temperatures@,
            duration: self.duration,
            schuetze: self.schuetze@,
            automatic: self.automatic,
        }
    }
}

impl Clone for RecipeStep {
    fn clone(&self) -> (r: Self)
        ensures
            r@ == self@,
    {
        RecipeStep {
            temperatures: self.temperatures.clone(),
            duration: self.duration,
            schuetze: self.schuetze.clone(),
            automatic: self.automatic,
        }
    }
}

/// The placeholder step of a process without a recipe.
pub open spec fn empty_step() -> StepModel {
    StepModel {
        temperatures: seq![0i32, 0i32],
        duration: UNBOUNDED,
        schuetze: seq![false, false, false],
        automatic: false,
    }
}

impl RecipeStep {
    /// A step for two zones and three pumps that asks for nothing and never
    /// ends by itself.
    pub fn new_empty() -> (r: Self)
        ensures
            r@ == empty_step(),
    {
        let mut temperatures: Vec<i32> = Vec::new();
        temperatures.push(0);
        temperatures.push(0);
        let mut schuetze: Vec<bool> = Vec::new();
        schuetze.push(false);
        schuetze.push(false);
        schuetze.push(false);
        let r = RecipeStep { temperatures, duration: UNBOUNDED, schuetze, automatic: false };
        assert(r@.temperatures =~= empty_step().temperatures);
        assert(r@.schuetze =~= empty_step().schuetze);
        r
    }
}

/// The steps of a vector as mathematical values.
pub open spec fn steps_view(steps: Seq<RecipeStep>) -> Seq<StepModel> {
    Seq::new(steps.len(), |i: int| steps[i]@)
}

/// Recipe and progress of the process.
pub struct RecipeStatus {
    pub recipe_steps: Vec<RecipeStep>,
    pub step_index: usize,
    pub state: RecipeState,
    /// Clock reading, in seconds, at which the active step was started.
    pub step_timestamp: u64,
}

/// Recipe and progress as a mathematical value.
pub struct RecipeModel {
    pub steps: Seq<StepModel>,
    pub index: int,
    pub state: RecipeState,
    pub timestamp: u64,
}

impl View for RecipeStatus {
    type V = RecipeModel;

    open spec fn view(&self) -> RecipeModel {
        RecipeModel {
            steps: steps_view(self.recipe_steps@),
            index: self.step_index as int,
            state: self.state,
            timestamp: self.step_timestamp,
        }
    }
}

impl RecipeStatus {
    /// The active step, to be changed in place. The index has to point into
    /// the recipe.
    pub fn current_step(&mut self) -> (r: &mut RecipeStep)
        requires
            old(self).step_index < old(self).recipe_steps.len(),
        ensures
            *r == old(self).recipe_steps@[old(self).step_index as int],
            final(self).recipe_steps@ == old(self).recipe_steps@.update(old(self).step_index as int, *final(r)),
            final(self).step_index == old(self).step_index,
            final(self).state == old(self).state,
            final(self).step_timestamp == old(self).step_timestamp,
    {
        &mut self.recipe_steps[self.step_index]
    }
}

impl RecipeModel {
    /// A recipe always has a step to stand on.
    pub open spec fn wf(self) -> bool {
        self.steps.len() >= 1 && self.index >= 0
    }

    /// The index of the active step, or of the last step where the recorded
    /// index points past the end.
    pub open spec fn valid_index(self) -> int {
        if self.index < self.steps.len() {
            self.index
        } else {
            self.steps.len() - 1
        }
    }

    /// The same process with its index brought back into the recipe.
    pub open spec fn clamped(self) -> RecipeModel {
        RecipeModel { index: self.valid_index(), ..self }
    }

    /// The active step.
    pub open spec fn active(self) -> StepModel {
        self.steps[self.valid_index()]
    }

    /// Whether the active step is the last one.
    pub open spec fn at_last_step(self) -> bool {
        self.valid_index() + 1 >= self.steps.len()
    }

    /// Seconds since the active step was started. A clock that reads less than
    /// the start counts as no time passed.
    pub open spec fn elapsed(self, now: u64) -> int {
        if now >= self.timestamp {
            now - self.timestamp
        } else {
            0
        }
    }

    /// Whether the active step has run for its duration.
    pub open spec fn due(self, now: u64) -> bool {
        &&& self.state == RecipeState::RUNNING
        &&& self.active().duration != UNBOUNDED
        &&& self.elapsed(now) >= self.active().duration
    }

    /// After a start: the active step runs, and its timer begins at `now`.
    pub open spec fn started(self, now: u64) -> RecipeModel {
        RecipeModel { index: self.valid_index(), state: RecipeState::RUNNING, timestamp: now, ..self }
    }

    /// Whether leaving the active step starts the next one by itself.
    pub open spec fn advance_starts(self) -> bool {
        !self.at_last_step() && self.steps[self.valid_index() + 1].automatic
    }

    /// After leaving the active step. From the last step the process is
    /// finished. Else the next step becomes the active one: it runs from `now`
    /// if it starts by itself, and waits for a start if it does not.
    pub open spec fn advanced(self, now: u64) -> RecipeModel {
        if self.at_last_step() {
            RecipeModel { index: self.valid_index(), state: RecipeState::FINISHED, ..self }
        } else if self.advance_starts() {
            RecipeModel {
                index: self.valid_index() + 1,
                state: RecipeState::RUNNING,
                timestamp: now,
                ..self
            }
        } else {
            RecipeModel { index: self.valid_index() + 1, state: RecipeState::WAITING, ..self }
        }
    }

    /// After an evaluation at `now`: the active step is left if it is due.
    pub open spec fn evaluated(self, now: u64) -> RecipeModel {
        if self.due(now) {
            self.advanced(now)
        } else {
            self.clamped()
        }
    }

    /// Whether an evaluation at `now` starts a step.
    pub open spec fn evaluation_starts(self, now: u64) -> bool {
        self.due(now) && self.advance_starts()
    }

    /// After leaving the active step `n` times in a row.
    pub open spec fn skipped(self, n: nat, now: u64) -> RecipeModel
        decreases n,
    {
        if n == 0 {
            self
        } else {
            self.skipped((n - 1) as nat, now).advanced(now)
        }
    }
}

impl RecipeStatus {
    /// Brings an index that points past the end back to the last step.
    pub fn clamp_index(&mut self)
        requires
            old(self)@.wf(),
        ensures
            final(self)@ == old(self)@.clamped(),
    {
        if self.step_index >= self.recipe_steps.len() {
            self.step_index = self.recipe_steps.len() - 1;
        }
    }

    /// Starts the active step at `now`.
    pub fn start_step(&mut self, now: u64)
        requires
            old(self)@.wf(),
        ensures
            final(self)@ == old(self)@.started(now),
    {
        self.clamp_index();
        self.state = RecipeState::RUNNING;
        self.step_timestamp = now;
    }

    /// Leaves the active step at `now`. Returns whether this started the
    /// next step.
    pub fn next_step(&mut self, now: u64) -> (starts: bool)
        requires
            old(self)@.wf(),
        ensures
            final(self)@ == old(self)@.advanced(now),
            starts == old(self)@.advance_starts(),
    {
        self.clamp_index();
        assert(self.step_index < self.recipe_steps.len());
        let next_step_index = self.step_index + 1;
        if self.recipe_steps.len() > next_step_index {
            self.step_index = next_step_index;
            if self.recipe_steps[next_step_index].automatic {
                self.state = RecipeState::RUNNING;
                self.step_timestamp = now;
                true
            } else {
                self.state = RecipeState::WAITING;
                false
            }
        } else {
            self.state = RecipeState::FINISHED;
            false
        }
    }

    /// Whether the active step has run for its duration at `now`.
    pub fn is_due(&self, now: u64) -> (due: bool)
        requires
            self@.wf(),
        ensures
            due == self@.due(now),
    {
        let index = if self.step_index < self.recipe_steps.len() {
            self.step_index
        } else {
            self.recipe_steps.len() - 1
        };
        let duration = self.recipe_steps[index].duration;
        let elapsed = if now >= self.step_timestamp { now - self.step_timestamp } else { 0 };
        self.state == RecipeState::RUNNING && duration != UNBOUNDED && elapsed >= duration
    }

    /// Evaluates the progress at `now`: leaves the active step if it is due.
    /// Returns whether this started the next step.
    pub fn check_recipe(&mut self, now: u64) -> (starts: bool)
        requires
            old(self)@.wf(),
        ensures
            final(self)@ == old(self)@.evaluated(now),
            starts == old(self)@.evaluation_starts(now),
    {
        if self.is_due(now) {
            self.next_step(now)
        } else {
            self.clamp_index();
            false
        }
    }

    /// A process without a recipe: one placeholder step, nothing loaded.
    pub fn new(now: u64) -> (r: Self)
        ensures
            r@ == (RecipeModel {
                steps: seq![empty_step()],
                index: 0,
                state: RecipeState::EMPTY,
                timestamp: now,
            }),
    {
        let mut recipe_steps: Vec<RecipeStep> = Vec::new();
        recipe_steps.push(RecipeStep::new_empty());
        let r = RecipeStatus { recipe_steps, step_index: 0, state: RecipeState::EMPTY, step_timestamp: now };
        assert(r@.steps =~= seq![empty_step()]);
        r
    }
}

/// Replaces one temperature goal of a step.
pub struct TempOverride {
    pub index: usize,
    pub temp: i32,
}

/// Replaces one pump goal of a step.
pub struct PumpOverride {
    pub index: usize,
    pub state: bool,
}

/// What can be asked of the process.
pub enum Command {
    /// Start the active step.
    START,
    /// Pause: every relay off, a running step waits.
    STOP,
    /// Leave the active step.
    SKIP,
    /// Load a recipe.
    RECIPE(Vec<RecipeStep>),
    /// Load one more step.
    STEP(RecipeStep),
    /// Replace the temperature goals of the active step.
    OVTEMPS(Vec<i32>),
    /// Replace the pump goals of the active step.
    OVPUMPS(Vec<bool>),
    /// Replace one temperature goal of the active step.
    OVTEMP(TempOverride),
    /// Replace one pump goal of the active step.
    OVPUMP(PumpOverride),
    /// Replace the duration of the active step.
    OVDURATION(u64),
}

/// A command as a mathematical value.
pub enum CommandModel {
    START,
    STOP,
    SKIP,
    RECIPE(Seq<StepModel>),
    STEP(StepModel),
    OVTEMPS(Seq<i32>),
    OVPUMPS(Seq<bool>),
    OVTEMP { index: int, temp: i32 },
    OVPUMP { index: int, state: bool },
    OVDURATION(u64),
}

impl View for Command {
    type V = CommandModel;

    open spec fn view(&self) -> CommandModel {
        match *self {
            Command::START => CommandModel::START,
            Command::STOP => CommandModel::STOP,
            Command::SKIP => CommandModel::SKIP,
            Command::RECIPE(steps) => CommandModel::RECIPE(steps_view(steps@)),
            Command::STEP(step) => CommandModel::STEP(step@),
            Command::OVTEMPS(temps) => CommandModel::OVTEMPS(temps@),
            Command::OVPUMPS(states) => CommandModel::OVPUMPS(states@),
            Command::OVTEMP(value) => CommandModel::OVTEMP { index: value.index as int, temp: value.temp },
            Command::OVPUMP(value) => CommandModel::OVPUMP { index: value.index as int, state: value.state },
            Command::OVDURATION(duration) => CommandModel::OVDURATION(duration),
        }
    }
}

/// Why a command was turned down. A command that is turned down changes
/// nothing.
#[derive(PartialEq, Eq, Clone, Copy, Debug, Structural)]
pub enum CommandError {
    /// The recipe has no step, or a step whose goals do not fit the rig.
    MalformedRecipe,
    /// The list of goals has not one entry per zone or pump.
    WrongLength,
    /// There is no zone or pump with that index.
    IndexOutOfBounds,
}

/// Snapshot of the process: recipe and progress, measured temperatures,
/// temperature goals in force, and the recorded states of the pumps.
pub struct FullStatus {
    pub recipe_status: RecipeStatus,
    pub temperatures: Vec<i32>,
    pub temps_set: Vec<i32>,
    pub schuetze: Vec<bool>,
}

/// A snapshot as a mathematical value.
pub struct StatusModel {
    pub recipe: RecipeModel,
    pub temperatures: Seq<i32>,
    pub temps_set: Seq<i32>,
    pub schuetze: Seq<bool>,
}

impl View for FullStatus {
    type V = StatusModel;

    open spec fn view(&self) -> StatusModel {
        StatusModel {
            recipe: self.recipe_status@,
            temperatures: self.temperatures@,
            temps_set: self.temps_set@,
            schuetze: self.schuetze@,
        }
    }
}

impl Clone for RecipeStatus {
    fn clone(&self) -> (r: Self)
        ensures
            r@ == self@,
    {
        let mut recipe_steps: Vec<RecipeStep> = Vec::new();
        let mut i: usize = 0;
        while i < self.recipe_steps.len()
            invariant
                i <= self.recipe_steps.len(),
                recipe_steps.len() == i,
                forall|j: int| 0 <= j < i ==> recipe_steps@[j]@ == self.recipe_steps@[j]@,
            decreases self.recipe_steps.len() - i,
        {
            recipe_steps.push(self.recipe_steps[i].clone());
            i += 1;
        }
        let r = RecipeStatus {
            recipe_steps,
            step_index: self.step_index,
            state: self.state,
            step_timestamp: self.step_timestamp,
        };
        assert(r@.steps =~= self@.steps);
        r
    }
}

/// The view of a vector of steps follows the vector when a step is replaced.
pub proof fn lemma_steps_view_update(steps: Seq<RecipeStep>, i: int, step: RecipeStep)
    requires
        0 <= i < steps.len(),
    ensures
        steps_view(steps.update(i, step)) == steps_view(steps).update(i, step@),
{
}

/// The view of a vector of steps follows the vector when steps are appended.
pub proof fn lemma_steps_view_append(a: Seq<RecipeStep>, b: Seq<RecipeStep>)
    ensures
        steps_view(a + b) == steps_view(a) + steps_view(b),
{
}

/// Skipping walks the recipe step by step: after `n` skips from step `i` the
/// active step is `i + n`, as long as the recipe has that many steps, and the
/// process is not finished as long as the first skip started from a step that
/// is running.
pub proof fn lemma_skip_walks(m: RecipeModel, n: nat, now: u64)
    requires
        m.wf(),
        m.index < m.steps.len(),
        m.state == RecipeState::RUNNING,
        m.index + n < m.steps.len(),
    ensures
        m.skipped(n, now).steps == m.steps,
        m.skipped(n, now).index == m.index + n,
        m.skipped(n, now).state == RecipeState::RUNNING || m.skipped(n, now).state
            == RecipeState::WAITING,
    decreases n,
{
    if n > 0 {
        lemma_skip_walks(m, (n - 1) as nat, now);
    }
}

/// Once finished, a skip changes nothing, however often it is repeated.
pub proof fn lemma_skip_when_finished(m: RecipeModel, n: nat, now: u64)
    requires
        m.wf(),
        m.index == m.steps.len() - 1,
        m.state == RecipeState::FINISHED,
    ensures
        m.skipped(n, now) == m,
    decreases n,
{
    if n > 0 {
        lemma_skip_when_finished(m, (n - 1) as nat, now);
    }
}

/// Skipping to the end. From a running step `i` of a recipe of `len` steps,
/// `len - 1 - i` skips reach the last step, the skip after that finishes the
/// process on that step, and every further skip leaves index and state as
/// they are.
pub proof fn lemma_skip_to_finish(m: RecipeModel, extra: nat, now: u64)
    requires
        m.wf(),
        m.index < m.steps.len(),
        m.state == RecipeState::RUNNING,
    ensures
        ({
            let to_last = (m.steps.len() - 1 - m.index) as nat;
            let at_last = m.skipped(to_last, now);
            let finished = m.skipped(to_last + 1, now);
            &&& at_last.index == m.steps.len() - 1
            &&& at_last.state != RecipeState::FINISHED
            &&& finished.index == m.steps.len() - 1
            &&& finished.state == RecipeState::FINISHED
            &&& finished.steps == m.steps
            &&& finished.advanced(now) == finished
            &&& m.skipped(to_last + 1 + extra, now) == finished
        }),
{
    let to_last = (m.steps.len() - 1 - m.index) as nat;
    lemma_skip_walks(m, to_last, now);
    let finished = m.skipped(to_last + 1, now);
    lemma_skip_split(m, to_last + 1, extra, now);
    lemma_skip_when_finished(finished, extra, now);
}

/// Skipping `a + b` times is skipping `a` times and then `b` times.
pub proof fn lemma_skip_split(m: RecipeModel, a: nat, b: nat, now: u64)
    ensures
        m.skipped(a + b, now) == m.skipped(a, now).skipped(b, now),
    decreases b,
{
    if b > 0 {
        lemma_skip_split(m, a, (b - 1) as nat, now);
    }
}

/// A step is left by the clock once, however often the progress is
/// evaluated. After an evaluation at `now`, an evaluation at `later` changes
/// nothing, unless a step is running whose own duration has passed by
/// `later`.
pub proof fn lemma_evaluation_settles(m: RecipeModel, now: u64, later: u64)
    requires
        m.wf(),
        m.evaluated(now).state == RecipeState::RUNNING ==> m.evaluated(now).elapsed(later)
            < m.evaluated(now).active().duration,
    ensures
        m.evaluated(now).evaluated(later) == m.evaluated(now),
{
}

/// The step that the clock has just started is not left at the same reading
/// of the clock, unless its duration is zero.
pub proof fn lemma_no_double_advance(m: RecipeModel, now: u64)
    requires
        m.wf(),
        m.evaluation_starts(now),
        m.evaluated(now).active().duration > 0,
    ensures
        m.evaluated(now).evaluated(now) == m.evaluated(now),
{
}

} // verus!
