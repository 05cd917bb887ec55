//! The seam between the controller and the remote interface: the snapshot
//! that is published, the commands that arrive, and how both are converted to
//! and from the controller's own values.

use vstd::prelude::*;
use crate::messages::{messages_view, Rcp, RcpModel, RcpStatus, RcpStep, RcpStepModel, RelayStatus, TempStatus};
use crate::structs::{
    steps_view, Command, CommandError, CommandModel, FullStatus, RecipeModel, RecipeState,
    RecipeStatus, RecipeStep, StatusModel, StepModel,
};

verus! {

/// The published snapshot: states of the pumps, temperature goals in force,
/// recipe and progress.
#[derive(Debug)]
pub struct AnlagenStatus {
    pub relays: RelayStatus,
    pub temps_set: TempStatus,
    pub rcp: Rcp,
}

/// A published snapshot as a mathematical value.
pub struct AnlagenModel {
    pub relays: Seq<bool>,
    pub temps_set: Seq<i32>,
    pub rcp: RcpModel,
}

impl View for AnlagenStatus {
    type V = AnlagenModel;

    open spec fn view(&self) -> AnlagenModel {
        AnlagenModel { relays: self.relays@, temps_set: self.temps_set@, rcp: self.rcp@ }
    }
}

impl Clone for AnlagenStatus {
    fn clone(&self) -> (r: Self)
        ensures
            r@ == self@,
    {
        AnlagenStatus {
            relays: self.relays.clone(),
            temps_set: self.temps_set.clone(),
            rcp: self.rcp.clone(),
        }
    }
}

/// What the remote interface can ask for.
pub enum BrauCommand {
    Next,
    Start,
    Pause,
    TakeRcp(Rcp),
    UpdateTemp(TempStatus),
    UpdateRelays(RelayStatus),
}

/// A count or a number of seconds as it travels: what does not fit into 32
/// bits travels as the largest number that does.
pub open spec fn clip(v: int) -> i32 {
    if v > i32::MAX {
        i32::MAX
    } else if v < 0 {
        0
    } else {
        v as i32
    }
}

/// The status under which a state of the process travels.
pub open spec fn status_of(state: RecipeState) -> RcpStatus {
    match state {
        RecipeState::EMPTY => RcpStatus::Uninitialized,
        RecipeState::LOADED => RcpStatus::Initial,
        RecipeState::RUNNING => RcpStatus::Started,
        RecipeState::WAITING => RcpStatus::Paused,
        RecipeState::FINISHED => RcpStatus::Finished,
    }
}

/// The state of the process that a status stands for.
pub open spec fn state_of(status: RcpStatus) -> RecipeState {
    match status {
        RcpStatus::Uninitialized => RecipeState::EMPTY,
        RcpStatus::Initial => RecipeState::LOADED,
        RcpStatus::Started => RecipeState::RUNNING,
        RcpStatus::Paused => RecipeState::WAITING,
        RcpStatus::Finished => RecipeState::FINISHED,
    }
}

/// The message for a step at a position of its recipe. A duration that does
/// not fit travels as the largest that does; so does that of a step without
/// an end, which comes back as a step of that many seconds.
pub open spec fn message_of_step(step: StepModel, position: int) -> RcpStepModel {
    RcpStepModel {
        index: clip(position),
        duration: clip(step.duration as int),
        temps: step.temperatures,
        relays: step.schuetze,
        autostart: step.automatic,
    }
}

/// The messages for the steps of a recipe.
pub open spec fn messages_of_steps(steps: Seq<StepModel>) -> Seq<RcpStepModel> {
    Seq::new(steps.len(), |i: int| message_of_step(steps[i], i))
}

/// What a process shows of its recipe before anything was loaded or started:
/// no step, and the start of no step.
pub open spec fn no_recipe() -> RcpModel {
    RcpModel {
        steps: Seq::empty(),
        status: RcpStatus::Uninitialized.number(),
        step_started_timestamp: 0,
        step_index: 0,
    }
}

/// The message for a recipe and its progress. An empty process shows no
/// recipe: the placeholder step that it stands on, and the clock reading
/// that it was made at, are not part of what is published.
pub open spec fn message_of_recipe(recipe: RecipeModel) -> RcpModel {
    if recipe.state == RecipeState::EMPTY {
        no_recipe()
    } else {
        RcpModel {
            steps: messages_of_steps(recipe.steps),
            status: status_of(recipe.state).number(),
            step_started_timestamp: clip(recipe.timestamp as int),
            step_index: clip(recipe.index),
        }
    }
}

/// The snapshot that observers see first: no recipe, every goal zero, every
/// pump off.
pub open spec fn first_snapshot() -> AnlagenModel {
    AnlagenModel { relays: seq![false, false, false], temps_set: seq![0i32, 0i32], rcp: no_recipe() }
}

/// The published form of a snapshot.
pub open spec fn published_form(status: StatusModel) -> AnlagenModel {
    AnlagenModel {
        relays: status.schuetze,
        temps_set: status.temps_set,
        rcp: message_of_recipe(status.recipe),
    }
}

/// Whether a step message can be a step: its duration is not negative.
pub open spec fn is_step(message: RcpStepModel) -> bool {
    message.duration >= 0
}

/// The step that a message describes. The position that the message carries
/// is not part of a step: a step's position is where it stands.
pub open spec fn step_of_message(message: RcpStepModel) -> StepModel {
    StepModel {
        temperatures: message.temps,
        duration: message.duration as u64,
        schuetze: message.relays,
        automatic: message.autostart,
    }
}

/// The steps that a list of messages describes.
pub open spec fn steps_of_messages(messages: Seq<RcpStepModel>) -> Seq<StepModel> {
    Seq::new(messages.len(), |i: int| step_of_message(messages[i]))
}

/// Whether every message of a list can be a step.
pub open spec fn all_steps(messages: Seq<RcpStepModel>) -> bool {
    forall|i: int| 0 <= i < messages.len() ==> is_step(#[trigger] messages[i])
}

/// The command of the controller that a command of the remote interface
/// stands for. A recipe with a step of negative duration stands for none.
pub open spec fn command_of(command: BrauCommand) -> Result<CommandModel, CommandError> {
    match command {
        BrauCommand::Next => Ok(CommandModel::SKIP),
        BrauCommand::Start => Ok(CommandModel::START),
        BrauCommand::Pause => Ok(CommandModel::STOP),
        BrauCommand::TakeRcp(rcp) => if all_steps(rcp@.steps) {
            Ok(CommandModel::RECIPE(steps_of_messages(rcp@.steps)))
        } else {
            Err(CommandError::MalformedRecipe)
        },
        BrauCommand::UpdateTemp(status) => Ok(CommandModel::OVTEMPS(status@)),
        BrauCommand::UpdateRelays(status) => Ok(CommandModel::OVPUMPS(status@)),
    }
}

/// A number of seconds, or a count, as it travels.
fn clip_u64(v: u64) -> (r: i32)
    ensures
        r == clip(v as int),
{
    if v > i32::MAX as u64 {
        i32::MAX
    } else {
        v as i32
    }
}

impl RcpStatus {
    /// The status under which a state of the process travels.
    pub fn from_state(state: RecipeState) -> (r: Self)
        ensures
            r == status_of(state),
    {
        match state {
            RecipeState::EMPTY => RcpStatus::Uninitialized,
            RecipeState::LOADED => RcpStatus::Initial,
            RecipeState::RUNNING => RcpStatus::Started,
            RecipeState::WAITING => RcpStatus::Paused,
            RecipeState::FINISHED => RcpStatus::Finished,
        }
    }

    /// The state of the process that the status stands for.
    pub fn to_state(&self) -> (r: RecipeState)
        ensures
            r == state_of(*self),
    {
        match self {
            RcpStatus::Uninitialized => RecipeState::EMPTY,
            RcpStatus::Initial => RecipeState::LOADED,
            RcpStatus::Started => RecipeState::RUNNING,
            RcpStatus::Paused => RecipeState::WAITING,
            RcpStatus::Finished => RecipeState::FINISHED,
        }
    }
}

impl RcpStep {
    /// The message for a step at a position of its recipe.
    pub fn from_step(step: &RecipeStep, position: usize) -> (r: Self)
        ensures
            r@ == message_of_step(step@, position as int),
    {
        RcpStep {
            index: clip_u64(position as u64),
            duration: clip_u64(step.duration),
            temps: step.temperatures.clone(),
            relays: step.schuetze.clone(),
            autostart: step.automatic,
        }
    }

    /// The step that the message describes, or `None` where its duration is
    /// negative.
    pub fn to_step(&self) -> (r: Option<RecipeStep>)
        ensures
            match r {
                Some(step) => is_step(self@) && step@ == step_of_message(self@),
                None => !is_step(self@),
            },
    {
        if self.duration < 0 {
            None
        } else {
            Some(
                RecipeStep {
                    temperatures: self.temps.clone(),
                    duration: self.duration as u64,
                    schuetze: self.relays.clone(),
                    automatic: self.autostart,
                },
            )
        }
    }
}

impl Rcp {
    /// The message for a recipe and its progress.
    pub fn from_status(status: &RecipeStatus) -> (r: Self)
        ensures
            r@ == message_of_recipe(status@),
    {
        if status.state == RecipeState::EMPTY {
            let r = Rcp {
                steps: Vec::new(),
                status: RcpStatus::Uninitialized.to_i32(),
                step_started_timestamp: 0,
                step_index: 0,
            };
            assert(r@.steps =~= no_recipe().steps);
            return r;
        }
        let mut steps: Vec<RcpStep> = Vec::new();
        let mut i: usize = 0;
        while i < status.recipe_steps.len()
            invariant
                i <= status.recipe_steps.len(),
                steps.len() == i,
                forall|j: int| 0 <= j < i ==> steps@[j]@ == message_of_step(status.recipe_steps@[j]@, j),
            decreases status.recipe_steps.len() - i,
        {
            steps.push(RcpStep::from_step(&status.recipe_steps[i], i));
            i += 1;
        }
        let r = Rcp {
            steps,
            status: RcpStatus::from_state(status.state).to_i32(),
            step_started_timestamp: clip_u64(status.step_timestamp),
            step_index: clip_u64(status.step_index as u64),
        };
        assert(r@.steps =~= messages_of_steps(status@.steps));
        r
    }

    /// The steps that the recipe describes, or `None` where one of them has
    /// a negative duration.
    pub fn to_steps(&self) -> (r: Option<Vec<RecipeStep>>)
        ensures
            match r {
                Some(steps) => all_steps(self@.steps) && steps_view(steps@) == steps_of_messages(self@.steps),
                None => !all_steps(self@.steps),
            },
    {
        let mut steps: Vec<RecipeStep> = Vec::new();
        let mut i: usize = 0;
        while i < self.steps.len()
            invariant
                i <= self.steps.len(),
                steps.len() == i,
                forall|j: int| 0 <= j < i ==> is_step(#[trigger] self@.steps[j]),
                forall|j: int| 0 <= j < i ==> steps@[j]@ == step_of_message(self.steps@[j]@),
            decreases self.steps.len() - i,
        {
            match self.steps[i].to_step() {
                Some(step) => {
                    steps.push(step);
                },
                None => {
                    assert(!is_step(self@.steps[i as int]));
                    return None;
                },
            }
            i += 1;
        }
        Some(steps)
    }
}

impl AnlagenStatus {
    /// The published form of a snapshot.
    pub fn from_status(status: &FullStatus) -> (r: Self)
        ensures
            r@ == published_form(status@),
    {
        AnlagenStatus {
            relays: RelayStatus { stati: status.schuetze.clone() },
            temps_set: TempStatus { temps: status.temps_set.clone() },
            rcp: Rcp::from_status(&status.recipe_status),
        }
    }
}

impl BrauCommand {
    /// The command of the controller that this command stands for.
    pub fn into_command(self) -> (r: Result<Command, CommandError>)
        ensures
            match command_of(self) {
                Ok(command) => r is Ok && r->Ok_0@ == command,
                Err(e) => r == Err::<Command, CommandError>(e),
            },
    {
        match self {
            BrauCommand::Next => Ok(Command::SKIP),
            BrauCommand::Start => Ok(Command::START),
            BrauCommand::Pause => Ok(Command::STOP),
            BrauCommand::TakeRcp(rcp) => match rcp.to_steps() {
                Some(steps) => Ok(Command::RECIPE(steps)),
                None => Err(CommandError::MalformedRecipe),
            },
            BrauCommand::UpdateTemp(status) => Ok(Command::OVTEMPS(status.temps)),
            BrauCommand::UpdateRelays(status) => Ok(Command::OVPUMPS(status.stati)),
        }
    }
}

/// A state of the process comes back from its status unchanged.
pub proof fn lemma_state_round_trip(state: RecipeState)
    ensures
        state_of(status_of(state)) == state,
{
}

/// A step comes back from its message unchanged, as long as its duration
/// fits into the message.
pub proof fn lemma_step_round_trip(step: StepModel, position: int)
    requires
        step.duration <= i32::MAX,
    ensures
        is_step(message_of_step(step, position)),
        step_of_message(message_of_step(step, position)) == step,
{
}

} // verus!
