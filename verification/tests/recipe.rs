use brauanlage::structs::{RecipeState, RecipeStatus, RecipeStep};

fn step(duration: u64, automatic: bool) -> RecipeStep {
    let mut step = RecipeStep::new_empty();
    step.duration = duration;
    step.automatic = automatic;
    step
}

fn recipe(steps: Vec<RecipeStep>) -> RecipeStatus {
    RecipeStatus { recipe_steps: steps, step_index: 0, state: RecipeState::LOADED, step_timestamp: 0 }
}

#[test]
fn empty_step_asks_for_nothing() {
    let step = RecipeStep::new_empty();
    assert_eq!(step.temperatures, vec![0, 0]);
    assert_eq!(step.schuetze, vec![false, false, false]);
    assert_eq!(step.duration, u64::MAX);
    assert!(!step.automatic);
}

#[test]
fn new_status_has_a_placeholder_step() {
    let status = RecipeStatus::new(17);
    assert_eq!(status.recipe_steps.len(), 1);
    assert_eq!(status.step_index, 0);
    assert_eq!(status.state, RecipeState::EMPTY);
    assert_eq!(status.step_timestamp, 17);
}

#[test]
fn two_step_recipe_runs_pauses_and_finishes() {
    let mut status = recipe(vec![step(5, true), step(10, false)]);
    status.start_step(0);
    assert_eq!(status.state, RecipeState::RUNNING);
    assert_eq!(status.step_index, 0);
    assert!(!status.check_recipe(4));
    assert_eq!(status.step_index, 0);
    assert!(!status.check_recipe(5));
    assert_eq!(status.step_index, 1);
    assert_eq!(status.state, RecipeState::WAITING);
    // waiting: the clock does nothing
    assert!(!status.check_recipe(1000));
    assert_eq!(status.state, RecipeState::WAITING);
    status.start_step(20);
    assert_eq!(status.state, RecipeState::RUNNING);
    assert_eq!(status.step_timestamp, 20);
    assert!(!status.check_recipe(29));
    assert_eq!(status.state, RecipeState::RUNNING);
    assert!(!status.check_recipe(30));
    assert_eq!(status.state, RecipeState::FINISHED);
    assert_eq!(status.step_index, 1);
}

#[test]
fn autostart_keeps_running_with_a_fresh_timer() {
    let mut status = recipe(vec![step(5, false), step(10, true)]);
    status.start_step(100);
    assert!(status.check_recipe(105));
    assert_eq!(status.state, RecipeState::RUNNING);
    assert_eq!(status.step_index, 1);
    assert_eq!(status.step_timestamp, 105);
    assert!(!status.check_recipe(105));
    assert_eq!(status.step_index, 1);
}

#[test]
fn skip_from_the_last_step_finishes_and_stays() {
    let mut status = recipe(vec![step(5, true), step(5, true), step(5, true)]);
    status.start_step(0);
    assert!(status.next_step(1));
    assert!(status.next_step(1));
    assert_eq!(status.step_index, 2);
    assert_eq!(status.state, RecipeState::RUNNING);
    assert!(!status.next_step(1));
    assert_eq!(status.state, RecipeState::FINISHED);
    assert_eq!(status.step_index, 2);
    assert!(!status.next_step(1));
    assert_eq!(status.state, RecipeState::FINISHED);
    assert_eq!(status.step_index, 2);
}

#[test]
fn index_past_the_end_is_brought_back() {
    let mut status = recipe(vec![step(5, true), step(5, true)]);
    status.step_index = 9;
    status.clamp_index();
    assert_eq!(status.step_index, 1);

    let mut status = recipe(vec![step(5, true), step(5, true)]);
    status.step_index = 9;
    assert!(!status.check_recipe(0));
    assert_eq!(status.step_index, 1);
    assert_eq!(status.state, RecipeState::LOADED);

    let mut status = recipe(vec![step(5, true), step(5, true)]);
    status.step_index = 9;
    status.state = RecipeState::RUNNING;
    assert!(status.is_due(5));
    assert!(!status.next_step(5));
    assert_eq!(status.step_index, 1);
    assert_eq!(status.state, RecipeState::FINISHED);
}

#[test]
fn due_only_while_running() {
    let mut status = recipe(vec![step(5, true)]);
    assert!(!status.is_due(100));
    status.state = RecipeState::WAITING;
    assert!(!status.is_due(100));
    status.state = RecipeState::RUNNING;
    assert!(status.is_due(5));
    assert!(!status.is_due(4));
}

#[test]
fn current_step_can_be_changed_in_place() {
    let mut status = recipe(vec![step(5, true), step(6, true)]);
    status.step_index = 1;
    status.current_step().duration = 60;
    assert_eq!(status.recipe_steps[1].duration, 60);
    assert_eq!(status.recipe_steps[0].duration, 5);
}

#[test]
fn clones_are_equal_in_every_field() {
    let mut first = step(12, true);
    first.temperatures = vec![1, 2];
    first.schuetze = vec![true, false, true];
    let status = recipe(vec![first, step(3, false)]);
    let copy = status.clone();
    assert_eq!(copy.recipe_steps.len(), 2);
    assert_eq!(copy.recipe_steps[0].temperatures, vec![1, 2]);
    assert_eq!(copy.recipe_steps[0].schuetze, vec![true, false, true]);
    assert_eq!(copy.recipe_steps[0].duration, 12);
    assert!(copy.recipe_steps[0].automatic);
    assert_eq!(copy.recipe_steps[1].duration, 3);
    assert_eq!(copy.state, RecipeState::LOADED);
}
