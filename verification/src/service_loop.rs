//! The service loop: the single writer that takes clock, measurements and
//! remote commands turn by turn, runs the controller and publishes the
//! snapshot for the observers.

use vstd::prelude::*;
use crate::control::{Control, ControlModel, CycleModel};
use crate::peripheral::{lemma_no_pulse_no_change, off_requests, switched_bank};
use crate::publisher::{PublisherModel, StatusPublisher, Subscriber};
use crate::service::{command_of, first_snapshot, published_form, AnlagenStatus, BrauCommand};
use crate::structs::{Command, CommandError, RecipeState};

verus! {

/// Controller and publisher, owned by the loop.
pub struct ServiceLoop {
    control: Control,
    publisher: StatusPublisher,
}

/// The service loop as a mathematical value.
pub struct ServiceModel {
    pub control: ControlModel,
    pub publisher: PublisherModel,
}

/// What one turn of the loop hands back.
pub struct Turn {
    /// The pins to pulse, in order.
    pub pulses: Vec<u8>,
    /// Why the command of this turn was turned down, if it was.
    pub rejected: Option<CommandError>,
    /// Whether a snapshot was published.
    pub published: bool,
}

/// One turn as a mathematical value.
pub struct TurnModel {
    pub state: ServiceModel,
    pub pulses: Seq<u8>,
    pub rejected: Option<CommandError>,
    pub published: bool,
}

impl View for ServiceLoop {
    type V = ServiceModel;

    closed spec fn view(&self) -> ServiceModel {
        ServiceModel { control: self.control@, publisher: self.publisher@ }
    }
}

/// The cycle of the controller that a turn with a remote command runs. A
/// command that stands for no command of the controller is turned down, and
/// the cycle runs without a command.
pub open spec fn turn_cycle(
    control: ControlModel,
    now: u64,
    measured: Seq<i32>,
    command: Option<BrauCommand>,
) -> CycleModel {
    match command {
        None => control.cycled(now, measured, None),
        Some(c) => match command_of(c) {
            Ok(converted) => control.cycled(now, measured, Some(converted)),
            Err(e) => CycleModel { rejected: Some(e), ..control.cycled(now, measured, None) },
        },
    }
}

/// Whether a turn publishes: it does after every command, after every
/// pulse, and whenever the process has moved.
pub open spec fn worth_publishing(before: ControlModel, cycle: CycleModel, had_command: bool) -> bool {
    ||| had_command
    ||| cycle.pulses.len() > 0
    ||| cycle.state.recipe.state != before.recipe.state
    ||| cycle.state.recipe.index != before.recipe.index
}

impl ServiceModel {
    /// The invariant of the loop is that of its controller.
    pub open spec fn wf(self) -> bool {
        self.control.wf()
    }

    /// After the snapshot of the controller was published.
    pub open spec fn announced(self) -> ServiceModel {
        ServiceModel {
            publisher: self.publisher.published(published_form(self.control.status())),
            ..self
        }
    }

    /// One turn at `now`: the controller runs a cycle, and the snapshot is
    /// published if the turn is worth it.
    pub open spec fn turned(self, now: u64, measured: Seq<i32>, command: Option<BrauCommand>) -> TurnModel {
        let cycle = turn_cycle(self.control, now, measured, command);
        let published = worth_publishing(self.control, cycle, command is Some);
        let next = ServiceModel { control: cycle.state, ..self };
        TurnModel {
            state: if published { next.announced() } else { next },
            pulses: cycle.pulses,
            rejected: cycle.rejected,
            published,
        }
    }

    /// After a shutdown: every relay is off, and the snapshot is published.
    pub open spec fn halted(self) -> ServiceModel {
        ServiceModel { control: self.control.shut_down().state, ..self }.announced()
    }
}

impl ServiceLoop {
    /// A loop around a new controller. The publisher holds the snapshot of
    /// an empty process: no recipe, every goal zero, every pump off.
    pub fn new(now: u64) -> (r: Self)
        ensures
            r@.wf(),
            r@.control == Control::new_model(now),
            r@.publisher == (PublisherModel { latest: first_snapshot(), sequence: 0 }),
    {
        let control = Control::new(now);
        let initial = AnlagenStatus::from_status(&control.snapshot());
        proof {
            lemma_new_process_shows_first_snapshot(now);
        }
        ServiceLoop { control, publisher: StatusPublisher::new(initial) }
    }

    /// The controller.
    pub fn control(&self) -> (r: &Control)
        ensures
            r@ == self@.control,
    {
        &self.control
    }

    /// The publisher.
    pub fn publisher(&self) -> (r: &StatusPublisher)
        ensures
            r@ == self@.publisher,
    {
        &self.publisher
    }

    /// A new observer of the published snapshots.
    pub fn subscribe(&self) -> (r: Subscriber)
        ensures
            r@ is None,
    {
        self.publisher.subscribe()
    }

    /// Hands the latest snapshot to an observer that has not seen it.
    pub fn poll(&self, subscriber: &mut Subscriber) -> (r: Option<AnlagenStatus>)
        ensures
            final(subscriber)@ == Some(self@.publisher.sequence),
            match self@.publisher.delivers(old(subscriber)@) {
                Some(status) => r is Some && r->Some_0@ == status,
                None => r is None,
            },
    {
        self.publisher.poll(subscriber)
    }

    /// One turn of the loop at `now`, with the temperatures that were
    /// measured and the remote command that has arrived, if any.
    pub fn service_loop(&mut self, now: u64, measured: Vec<i32>, command: Option<BrauCommand>) -> (r: Turn)
        requires
            old(self)@.wf(),
        ensures
            final(self)@ == old(self)@.turned(now, measured@, command).state,
            r.pulses@ == old(self)@.turned(now, measured@, command).pulses,
            r.rejected == old(self)@.turned(now, measured@, command).rejected,
            r.published == old(self)@.turned(now, measured@, command).published,
            final(self)@.wf(),
    {
        let had_command = command.is_some();
        let state_before = self.control.recipe_status().state;
        let index_before = self.control.recipe_status().step_index;
        let mut turned_down: Option<CommandError> = None;
        let converted: Option<Command> = match command {
            None => None,
            Some(c) => match c.into_command() {
                Ok(converted) => Some(converted),
                Err(e) => {
                    turned_down = Some(e);
                    None
                },
            },
        };
        let cycle = self.control.control_run(now, measured, converted);
        let rejected = match turned_down {
            Some(e) => Some(e),
            None => cycle.rejected,
        };
        let published = had_command || cycle.pulses.len() > 0 || self.control.recipe_status().state
            != state_before || self.control.recipe_status().step_index != index_before;
        if published {
            self.publisher.publish(AnlagenStatus::from_status(&cycle.status));
        }
        Turn { pulses: cycle.pulses, rejected, published }
    }

    /// Switches every relay off and publishes the snapshot. Returns the pins
    /// to pulse.
    pub fn shutdown(&mut self) -> (pulses: Vec<u8>)
        requires
            old(self)@.wf(),
        ensures
            final(self)@ == old(self)@.halted(),
            pulses@ == old(self)@.control.shut_down().pulses,
            final(self)@.wf(),
    {
        let pulses = self.control.shutdown();
        self.publisher.publish(AnlagenStatus::from_status(&self.control.snapshot()));
        pulses
    }
}

/// A turn that publishes nothing has changed nothing that is published:
/// the pumps, the goals in force, the recipe and its progress are as they
/// were, so the snapshot that the observers hold is still true.
pub proof fn lemma_quiet_turn_changes_nothing_published(
    s: ServiceModel,
    now: u64,
    measured: Seq<i32>,
    command: Option<BrauCommand>,
)
    requires
        s.wf(),
        !s.turned(now, measured, command).published,
    ensures
        s.turned(now, measured, command).state.publisher == s.publisher,
        published_form(s.turned(now, measured, command).state.control.status()) == published_form(
            s.control.status(),
        ),
        s.turned(now, measured, command).pulses.len() == 0,
        s.turned(now, measured, command).rejected is None,
{
    if s.control.recipe.state == RecipeState::FINISHED {
        let pumps = s.control.pumps;
        lemma_no_pulse_no_change(pumps, off_requests(pumps.len()), pumps.len() as int);
        assert(switched_bank(pumps, off_requests(pumps.len())) =~= pumps);
    }
}

/// Whenever it was made, a new controller shows the same snapshot: no
/// recipe, every goal zero, every pump off.
pub proof fn lemma_new_process_shows_first_snapshot(now: u64)
    ensures
        published_form(Control::new_model(now).status()) == first_snapshot(),
{
    let shown = published_form(Control::new_model(now).status());
    assert(shown.relays =~= first_snapshot().relays);
    assert(shown.temps_set =~= first_snapshot().temps_set);
}

} // verus!
