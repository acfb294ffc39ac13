use behavior_sim::behavior::{
    behavior_from_selection, evaluate_behavior_completion, guidance_command_for_behavior,
    plan_agent_step, transition_behavior, AgentStep, Behavior, BehaviorCompletionStatus,
    BehaviorSelection, GuidanceCommand,
};

type Point = (f32, f32);

fn distance(a: Point, b: Point) -> f32 {
    ((a.0 - b.0) * (a.0 - b.0) + (a.1 - b.1) * (a.1 - b.1)).sqrt()
}

const ARRIVAL_TOLERANCE: f32 = 50.0;
const SAFE_DISTANCE: f32 = 500.0;

fn completion_at(behavior: Behavior<Point>, agent: Point) -> BehaviorCompletionStatus {
    evaluate_behavior_completion(
        behavior,
        |p: Point| distance(agent, p) < ARRIVAL_TOLERANCE,
        |p: Point| distance(agent, p) > SAFE_DISTANCE,
    )
}

#[test]
fn idle_is_never_complete() {
    assert_eq!(
        completion_at(Behavior::Idle, (0.0, 0.0)),
        BehaviorCompletionStatus::InProgress
    );
    assert_eq!(
        completion_at(Behavior::Idle, (1000.0, -1000.0)),
        BehaviorCompletionStatus::InProgress
    );
}

#[test]
fn move_to_completes_inside_arrival_tolerance() {
    let behavior = Behavior::MoveTo { destination: (100.0, 0.0) };
    assert_eq!(completion_at(behavior, (60.0, 0.0)), BehaviorCompletionStatus::Complete);
    assert_eq!(completion_at(behavior, (50.0, 0.0)), BehaviorCompletionStatus::InProgress);
    assert_eq!(completion_at(behavior, (-300.0, 0.0)), BehaviorCompletionStatus::InProgress);
}

#[test]
fn move_away_completes_beyond_safe_distance() {
    let behavior = Behavior::MoveAwayFrom { threat_location: (0.0, 0.0) };
    assert_eq!(completion_at(behavior, (300.0, 400.0)), BehaviorCompletionStatus::InProgress);
    assert_eq!(completion_at(behavior, (301.0, 400.0)), BehaviorCompletionStatus::Complete);
    assert_eq!(completion_at(behavior, (10.0, 0.0)), BehaviorCompletionStatus::InProgress);
}

#[test]
fn move_to_asks_only_the_arrival_predicate_about_the_destination() {
    let behavior = Behavior::MoveTo { destination: (7, 9) };
    let status = evaluate_behavior_completion(
        behavior,
        |p: (i32, i32)| p == (7, 9),
        |_p: (i32, i32)| panic!("the safety predicate is not consulted"),
    );
    assert_eq!(status, BehaviorCompletionStatus::Complete);
}

#[test]
fn transition_keeps_behavior_in_progress() {
    let moving = Behavior::MoveTo { destination: (1, 2) };
    let fleeing = Behavior::MoveAwayFrom { threat_location: (3, 4) };
    assert_eq!(transition_behavior(moving, BehaviorCompletionStatus::InProgress), moving);
    assert_eq!(transition_behavior(fleeing, BehaviorCompletionStatus::InProgress), fleeing);
    assert_eq!(
        transition_behavior(Behavior::<(i32, i32)>::Idle, BehaviorCompletionStatus::InProgress),
        Behavior::Idle
    );
}

#[test]
fn transition_idles_completed_behavior() {
    let moving = Behavior::MoveTo { destination: (1, 2) };
    let fleeing = Behavior::MoveAwayFrom { threat_location: (3, 4) };
    assert_eq!(transition_behavior(moving, BehaviorCompletionStatus::Complete), Behavior::Idle);
    assert_eq!(transition_behavior(fleeing, BehaviorCompletionStatus::Complete), Behavior::Idle);
    assert_eq!(
        transition_behavior(Behavior::<(i32, i32)>::Idle, BehaviorCompletionStatus::Complete),
        Behavior::Idle
    );
}

#[test]
fn transition_is_idempotent() {
    let moving = Behavior::MoveTo { destination: (1, 2) };
    for status in [BehaviorCompletionStatus::InProgress, BehaviorCompletionStatus::Complete] {
        let once = transition_behavior(moving, status);
        assert_eq!(transition_behavior(once, status), once);
    }
}

#[test]
fn guidance_mirrors_behavior() {
    assert_eq!(
        guidance_command_for_behavior(Behavior::<(i32, i32)>::Idle),
        GuidanceCommand::StayStill
    );
    assert_eq!(
        guidance_command_for_behavior(Behavior::MoveTo { destination: (5, 6) }),
        GuidanceCommand::MoveToward { destination: (5, 6) }
    );
    assert_eq!(
        guidance_command_for_behavior(Behavior::MoveAwayFrom { threat_location: (-5, 6) }),
        GuidanceCommand::MoveAwayFrom { threat_location: (-5, 6) }
    );
}

#[test]
fn selection_builds_behavior_at_target() {
    let target = (-100, -100);
    assert_eq!(behavior_from_selection(BehaviorSelection::Idle, target), Behavior::Idle);
    assert_eq!(
        behavior_from_selection(BehaviorSelection::MoveTo, target),
        Behavior::MoveTo { destination: target }
    );
    assert_eq!(
        behavior_from_selection(BehaviorSelection::MoveAwayFrom, target),
        Behavior::MoveAwayFrom { threat_location: target }
    );
}

#[test]
fn selection_round_trips_through_behavior() {
    for selection in [
        BehaviorSelection::Idle,
        BehaviorSelection::MoveTo,
        BehaviorSelection::MoveAwayFrom,
    ] {
        let behavior = behavior_from_selection(selection, (4, 2));
        assert_eq!(behavior.selection(), selection);
        let expected = if selection == BehaviorSelection::Idle { None } else { Some((4, 2)) };
        assert_eq!(behavior.location(), expected);
    }
}

#[test]
fn completed_step_stops_agent_at_once() {
    let behavior = Behavior::MoveTo { destination: (0.0, 0.0) };
    let step = plan_agent_step(
        behavior,
        |p: Point| distance((10.0, 10.0), p) < ARRIVAL_TOLERANCE,
        |p: Point| distance((10.0, 10.0), p) > SAFE_DISTANCE,
    );
    assert_eq!(
        step,
        AgentStep {
            completion: BehaviorCompletionStatus::Complete,
            next_behavior: Behavior::Idle,
            guidance: GuidanceCommand::StayStill,
        }
    );
}

#[test]
fn step_in_progress_keeps_steering() {
    let behavior = Behavior::MoveAwayFrom { threat_location: (0.0, 0.0) };
    let step = plan_agent_step(
        behavior,
        |p: Point| distance((10.0, 10.0), p) < ARRIVAL_TOLERANCE,
        |p: Point| distance((10.0, 10.0), p) > SAFE_DISTANCE,
    );
    assert_eq!(step.completion, BehaviorCompletionStatus::InProgress);
    assert_eq!(step.next_behavior, behavior);
    assert_eq!(step.guidance, GuidanceCommand::MoveAwayFrom { threat_location: (0.0, 0.0) });
}

#[test]
fn idle_agent_stays_idle_over_many_steps() {
    let mut behavior: Behavior<Point> = Behavior::Idle;
    for _ in 0..10 {
        let step = plan_agent_step(behavior, |_p: Point| true, |_p: Point| true);
        assert_eq!(step.guidance, GuidanceCommand::StayStill);
        behavior = step.next_behavior;
    }
    assert_eq!(behavior, Behavior::Idle);
}
