use std::time::{Duration, SystemTime};

use brauanlage::clock::{seconds_after_epoch, seconds_since_epoch, ClockError};
use brauanlage::control::Control;
use brauanlage::get_sys_time_in_secs;
use brauanlage::messages::{Rcp, RcpStatus, RcpStep, RelayStatus, TempStatus};
use brauanlage::publisher::StatusPublisher;
use brauanlage::service::{AnlagenStatus, BrauCommand};
use brauanlage::structs::{Command, CommandError, RecipeState, RecipeStatus, RecipeStep};

fn snapshot(marker: i32) -> AnlagenStatus {
    AnlagenStatus {
        relays: RelayStatus { stati: vec![false, false] },
        temps_set: TempStatus { temps: vec![marker] },
        rcp: Rcp { steps: Vec::new(), status: 1, step_started_timestamp: 0, step_index: 0 },
    }
}

fn message(duration: i32) -> RcpStep {
    RcpStep { index: 0, duration, temps: vec![1, 2], relays: vec![true, false, true], autostart: true }
}

#[test]
fn clock_reads_a_time_of_this_century() {
    let now = get_sys_time_in_secs();
    assert!(matches!(now, Ok(seconds) if seconds > 1_600_000_000));
}

#[test]
fn status_names_and_numbers() {
    let all = [
        (RcpStatus::Uninitialized, "Uninitialized", 0),
        (RcpStatus::Initial, "Initial", 1),
        (RcpStatus::Started, "Started", 2),
        (RcpStatus::Paused, "Paused", 3),
        (RcpStatus::Finished, "Finished", 4),
    ];
    for (status, name, number) in all {
        assert_eq!(status.as_str_name(), name);
        assert_eq!(RcpStatus::from_str_name(name), Some(status));
        assert_eq!(status.to_i32(), number);
        assert_eq!(RcpStatus::from_i32(number), Some(status));
    }
    assert_eq!(RcpStatus::from_str_name("started"), None);
    assert_eq!(RcpStatus::from_str_name(""), None);
    assert_eq!(RcpStatus::from_i32(5), None);
    assert_eq!(RcpStatus::from_i32(-1), None);
}

#[test]
fn states_travel_as_statuses() {
    let pairs = [
        (RecipeState::EMPTY, RcpStatus::Uninitialized),
        (RecipeState::LOADED, RcpStatus::Initial),
        (RecipeState::RUNNING, RcpStatus::Started),
        (RecipeState::WAITING, RcpStatus::Paused),
        (RecipeState::FINISHED, RcpStatus::Finished),
    ];
    for (state, status) in pairs {
        assert_eq!(RcpStatus::from_state(state), status);
        assert_eq!(status.to_state(), state);
    }
}

#[test]
fn step_message_carries_position_and_clipped_duration() {
    let mut step = RecipeStep::new_empty();
    step.temperatures = vec![10, 20];
    step.schuetze = vec![true, false, false];
    step.duration = 90;
    step.automatic = true;
    let message = RcpStep::from_step(&step, 3);
    assert_eq!(message.index, 3);
    assert_eq!(message.duration, 90);
    assert_eq!(message.temps, vec![10, 20]);
    assert_eq!(message.relays, vec![true, false, false]);
    assert!(message.autostart);
    let unbounded = RcpStep::from_step(&RecipeStep::new_empty(), 0);
    assert_eq!(unbounded.duration, i32::MAX);
}

#[test]
fn step_comes_back_from_its_message() {
    let step = message(30).to_step().unwrap();
    assert_eq!(step.duration, 30);
    assert_eq!(step.temperatures, vec![1, 2]);
    assert_eq!(step.schuetze, vec![true, false, true]);
    assert!(step.automatic);
    assert!(message(0).to_step().is_some());
    assert!(message(-1).to_step().is_none());
}

#[test]
fn recipe_message_of_a_status() {
    let mut second = RecipeStep::new_empty();
    second.duration = 8;
    let status = RecipeStatus {
        recipe_steps: vec![RecipeStep::new_empty(), second],
        step_index: 1,
        state: RecipeState::WAITING,
        step_timestamp: 5_000_000_000,
    };
    let rcp = Rcp::from_status(&status);
    assert_eq!(rcp.status, 3);
    assert_eq!(rcp.step_index, 1);
    assert_eq!(rcp.step_started_timestamp, i32::MAX);
    assert_eq!(rcp.steps.len(), 2);
    assert_eq!(rcp.steps[0].index, 0);
    assert_eq!(rcp.steps[1].index, 1);
    assert_eq!(rcp.steps[1].duration, 8);
}

#[test]
fn recipe_with_a_negative_duration_is_no_recipe() {
    let good = Rcp { steps: vec![message(1), message(2)], status: 0, step_started_timestamp: 0, step_index: 0 };
    let steps = good.to_steps().unwrap();
    assert_eq!(steps.len(), 2);
    assert_eq!(steps[1].duration, 2);
    let bad = Rcp { steps: vec![message(1), message(-2)], status: 0, step_started_timestamp: 0, step_index: 0 };
    assert!(bad.to_steps().is_none());
}

#[test]
fn remote_commands_become_controller_commands() {
    assert!(matches!(BrauCommand::Next.into_command(), Ok(Command::SKIP)));
    assert!(matches!(BrauCommand::Start.into_command(), Ok(Command::START)));
    assert!(matches!(BrauCommand::Pause.into_command(), Ok(Command::STOP)));
    let temps = BrauCommand::UpdateTemp(TempStatus { temps: vec![4, 5] }).into_command();
    assert!(matches!(temps, Ok(Command::OVTEMPS(goals)) if goals == vec![4, 5]));
    let relays = BrauCommand::UpdateRelays(RelayStatus { stati: vec![true] }).into_command();
    assert!(matches!(relays, Ok(Command::OVPUMPS(states)) if states == vec![true]));
    let rcp = Rcp { steps: vec![message(7)], status: 0, step_started_timestamp: 0, step_index: 0 };
    let recipe = BrauCommand::TakeRcp(rcp).into_command();
    assert!(matches!(recipe, Ok(Command::RECIPE(steps)) if steps.len() == 1 && steps[0].duration == 7));
    let rcp = Rcp { steps: vec![message(-7)], status: 0, step_started_timestamp: 0, step_index: 0 };
    assert!(matches!(BrauCommand::TakeRcp(rcp).into_command(), Err(CommandError::MalformedRecipe)));
}

#[test]
fn published_form_of_a_cycle() {
    let mut control = Control::new(0);
    control.manual_goal_override(vec![30000, 40000]).unwrap();
    control.manual_pump_override(vec![false, true, false]).unwrap();
    control.start_step(12);
    let cycle = control.control_run(13, vec![30000, 40000], None);
    let published = AnlagenStatus::from_status(&cycle.status);
    assert_eq!(published.relays.stati, vec![false, true, false]);
    assert_eq!(published.temps_set.temps, vec![30000, 40000]);
    assert_eq!(published.rcp.status, 2);
    assert_eq!(published.rcp.step_index, 0);
    assert_eq!(published.rcp.step_started_timestamp, 12);
    assert_eq!(published.rcp.steps.len(), 1);
    assert_eq!(published.rcp.steps[0].temps, vec![30000, 40000]);
}

#[test]
fn observer_gets_current_snapshot_first() {
    let publisher = StatusPublisher::new(snapshot(0));
    let mut observer = publisher.subscribe();
    assert_eq!(publisher.poll(&mut observer).unwrap().temps_set.temps, vec![0]);
    assert!(publisher.poll(&mut observer).is_none());
}

#[test]
fn late_observer_gets_the_latest_snapshot_first() {
    let mut publisher = StatusPublisher::new(snapshot(0));
    for n in 1..=5 {
        publisher.publish(snapshot(n));
    }
    let mut observer = publisher.subscribe();
    assert_eq!(publisher.poll(&mut observer).unwrap().temps_set.temps, vec![5]);
    assert!(publisher.poll(&mut observer).is_none());
    assert_eq!(publisher.current().temps_set.temps, vec![5]);
}

#[test]
fn observer_that_keeps_up_gets_every_snapshot_in_order() {
    let mut publisher = StatusPublisher::new(snapshot(0));
    let mut observer = publisher.subscribe();
    let mut seen = vec![publisher.poll(&mut observer).unwrap().temps_set.temps[0]];
    for n in 1..=4 {
        publisher.publish(snapshot(n));
        seen.push(publisher.poll(&mut observer).unwrap().temps_set.temps[0]);
        assert!(publisher.poll(&mut observer).is_none());
    }
    assert_eq!(seen, vec![0, 1, 2, 3, 4]);
}

#[test]
fn slow_observer_gets_only_the_latest() {
    let mut publisher = StatusPublisher::new(snapshot(0));
    let mut slow = publisher.subscribe();
    let mut fast = publisher.subscribe();
    publisher.poll(&mut slow);
    publisher.poll(&mut fast);
    publisher.publish(snapshot(1));
    assert_eq!(publisher.poll(&mut fast).unwrap().temps_set.temps, vec![1]);
    publisher.publish(snapshot(2));
    publisher.publish(snapshot(3));
    assert_eq!(publisher.poll(&mut slow).unwrap().temps_set.temps, vec![3]);
    assert_eq!(publisher.poll(&mut fast).unwrap().temps_set.temps, vec![3]);
    assert!(publisher.poll(&mut slow).is_none());
}

#[test]
fn reading_after_the_epoch_gives_its_whole_seconds() {
    assert_eq!(seconds_since_epoch(Ok(Duration::from_millis(90_999))), Ok(90));
    assert_eq!(seconds_since_epoch(Ok(Duration::from_secs(0))), Ok(0));
}

#[test]
fn reading_before_the_epoch_is_an_error() {
    let later = SystemTime::UNIX_EPOCH + Duration::from_secs(5);
    let elapsed = SystemTime::UNIX_EPOCH.duration_since(later);
    assert!(elapsed.is_err());
    assert_eq!(
        seconds_since_epoch(elapsed),
        Err(ClockError::BeforeEpoch)
    );
}

#[test]
fn whole_seconds_of_a_reading_after_the_epoch() {
    assert_eq!(seconds_after_epoch(Ok(Duration::from_millis(1_999))), 1);
    assert_eq!(seconds_after_epoch(Ok(Duration::from_secs(1_700_000_000))), 1_700_000_000);
    let reading = SystemTime::now().duration_since(SystemTime::UNIX_EPOCH);
    assert!(reading.is_ok());
    assert!(seconds_after_epoch(reading) > 1_600_000_000);
}

#[test]
fn empty_status_travels_without_steps() {
    let status = RecipeStatus::new(1_700_000_000);
    let rcp = Rcp::from_status(&status);
    assert!(rcp.steps.is_empty());
    assert_eq!(rcp.status, 0);
    assert_eq!(rcp.step_index, 0);
    assert_eq!(rcp.step_started_timestamp, 0);
    let mut loaded = RecipeStatus::new(1_700_000_000);
    loaded.state = RecipeState::LOADED;
    let rcp = Rcp::from_status(&loaded);
    assert_eq!(rcp.steps.len(), 1);
    assert_eq!(rcp.steps[0].duration, i32::MAX);
    assert_eq!(rcp.status, 1);
    assert_eq!(rcp.step_started_timestamp, 1_700_000_000);
}
