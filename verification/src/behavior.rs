//! The agent's behavior state machine: what the agent is trying to do, when that
//! goal is reached, and which guidance command each behavior issues.
//!
//! Locations are a type parameter `P`: the state machine only carries them from a
//! behavior to the guidance command it issues, and never looks inside. Whether the
//! agent has reached a destination, or is clear of a threat, is a geometric
//! question about the agent's own position; it is handed in as a predicate on
//! locations.
use vstd::prelude::*;

verus! {

/// What an agent is currently trying to do.
#[derive(Clone, Copy, Debug, PartialEq)]
pub enum Behavior<P> {
    /// Stand still and wait for a new behavior.
    Idle,
    /// Travel until the agent is close enough to `destination`.
    MoveTo { destination: P },
    /// Flee until the agent is far enough from `threat_location`.
    MoveAwayFrom { threat_location: P },
}

/// Whether the current behavior has reached its goal.
#[derive(Clone, Copy, Debug, PartialEq, Eq)]
pub enum BehaviorCompletionStatus {
    InProgress,
    Complete,
}

/// The kind of behavior a user can ask for, without its location.
#[derive(Clone, Copy, Debug, PartialEq, Eq)]
pub enum BehaviorSelection {
    Idle,
    MoveTo,
    MoveAwayFrom,
}

/// The steering order that a behavior gives to the motion layer.
#[derive(Clone, Copy, Debug, PartialEq)]
pub enum GuidanceCommand<P> {
    StayStill,
    MoveToward { destination: P },
    MoveAwayFrom { threat_location: P },
}

/// The outcome of one simulation step for one agent: whether the behavior it
/// started the step with was complete, the behavior it keeps, and the guidance
/// command that the kept behavior issues.
#[derive(Clone, Copy, Debug, PartialEq)]
pub struct AgentStep<P> {
    pub completion: BehaviorCompletionStatus,
    pub next_behavior: Behavior<P>,
    pub guidance: GuidanceCommand<P>,
}

/// The location a behavior refers to, if any.
pub open spec fn behavior_location<P>(behavior: Behavior<P>) -> Option<P> {
    match behavior {
        Behavior::Idle => None,
        Behavior::MoveTo { destination } => Some(destination),
        Behavior::MoveAwayFrom { threat_location } => Some(threat_location),
    }
}

/// The kind of a behavior.
pub open spec fn behavior_kind<P>(behavior: Behavior<P>) -> BehaviorSelection {
    match behavior {
        Behavior::Idle => BehaviorSelection::Idle,
        Behavior::MoveTo { .. } => BehaviorSelection::MoveTo,
        Behavior::MoveAwayFrom { .. } => BehaviorSelection::MoveAwayFrom,
    }
}

/// `status` is a completion status that the agent's observations allow for
/// `behavior`: an idle agent is never done, a moving agent is done exactly when
/// the arrival predicate holds at its destination, and a fleeing agent is done
/// exactly when the safety predicate holds at the threat's location.
pub open spec fn completion_observed<P, A: Fn(P) -> bool, S: Fn(P) -> bool>(
    behavior: Behavior<P>,
    is_within_arrival_tolerance: A,
    is_beyond_safe_distance: S,
    status: BehaviorCompletionStatus,
) -> bool {
    match behavior {
        Behavior::Idle => status == BehaviorCompletionStatus::InProgress,
        Behavior::MoveTo { destination } => call_ensures(
            is_within_arrival_tolerance,
            (destination,),
            status == BehaviorCompletionStatus::Complete,
        ),
        Behavior::MoveAwayFrom { threat_location } => call_ensures(
            is_beyond_safe_distance,
            (threat_location,),
            status == BehaviorCompletionStatus::Complete,
        ),
    }
}

/// The predicates may be asked about the location the behavior refers to.
pub open spec fn observations_allowed<P, A: Fn(P) -> bool, S: Fn(P) -> bool>(
    behavior: Behavior<P>,
    is_within_arrival_tolerance: A,
    is_beyond_safe_distance: S,
) -> bool {
    match behavior {
        Behavior::Idle => true,
        Behavior::MoveTo { destination } => call_requires(is_within_arrival_tolerance, (destination,)),
        Behavior::MoveAwayFrom { threat_location } => call_requires(
            is_beyond_safe_distance,
            (threat_location,),
        ),
    }
}

/// The behavior that follows `current` given its completion status.
pub open spec fn next_behavior<P>(current: Behavior<P>, completion: BehaviorCompletionStatus) -> Behavior<P> {
    match completion {
        BehaviorCompletionStatus::InProgress => current,
        BehaviorCompletionStatus::Complete => Behavior::Idle,
    }
}

/// The guidance command a behavior issues.
pub open spec fn guidance_for<P>(behavior: Behavior<P>) -> GuidanceCommand<P> {
    match behavior {
        Behavior::Idle => GuidanceCommand::StayStill,
        Behavior::MoveTo { destination } => GuidanceCommand::MoveToward { destination },
        Behavior::MoveAwayFrom { threat_location } => GuidanceCommand::MoveAwayFrom { threat_location },
    }
}

/// The behavior a user's selection asks for, aimed at `target`.
pub open spec fn selected_behavior<P>(selection: BehaviorSelection, target: P) -> Behavior<P> {
    match selection {
        BehaviorSelection::Idle => Behavior::Idle,
        BehaviorSelection::MoveTo => Behavior::MoveTo { destination: target },
        BehaviorSelection::MoveAwayFrom => Behavior::MoveAwayFrom { threat_location: target },
    }
}

impl<P: Copy> Behavior<P> {
    /// The location this behavior refers to: the destination, the threat, or
    /// none for an idle agent.
    pub fn location(&self) -> (location: Option<P>)
        ensures
            location == behavior_location(*self),
    {
        match *self {
            Behavior::Idle => None,
            Behavior::MoveTo { destination } => Some(destination),
            Behavior::MoveAwayFrom { threat_location } => Some(threat_location),
        }
    }

    /// The kind of this behavior.
    pub fn selection(&self) -> (kind: BehaviorSelection)
        ensures
            kind == behavior_kind(*self),
    {
        match *self {
            Behavior::Idle => BehaviorSelection::Idle,
            Behavior::MoveTo { .. } => BehaviorSelection::MoveTo,
            Behavior::MoveAwayFrom { .. } => BehaviorSelection::MoveAwayFrom,
        }
    }
}

/// Decides whether `behavior` has reached its goal. Idle never completes; moving
/// to a destination completes once the agent is within the arrival tolerance of
/// it; moving away from a threat completes once the agent is beyond the safe
/// distance from it. The two predicates answer those questions for the agent's
/// current position.
pub fn evaluate_behavior_completion<P: Copy, A: Fn(P) -> bool, S: Fn(P) -> bool>(
    behavior: Behavior<P>,
    is_within_arrival_tolerance: A,
    is_beyond_safe_distance: S,
) -> (status: BehaviorCompletionStatus)
    requires
        observations_allowed(behavior, is_within_arrival_tolerance, is_beyond_safe_distance),
    ensures
        completion_observed(behavior, is_within_arrival_tolerance, is_beyond_safe_distance, status),
{
    match behavior {
        Behavior::Idle => BehaviorCompletionStatus::InProgress,
        Behavior::MoveTo { destination } => {
            if is_within_arrival_tolerance(destination) {
                BehaviorCompletionStatus::Complete
            } else {
                BehaviorCompletionStatus::InProgress
            }
        },
        Behavior::MoveAwayFrom { threat_location } => {
            if is_beyond_safe_distance(threat_location) {
                BehaviorCompletionStatus::Complete
            } else {
                BehaviorCompletionStatus::InProgress
            }
        },
    }
}

/// A behavior in progress is kept; a completed behavior gives way to `Idle`.
pub fn transition_behavior<P: Copy>(
    current_behavior: Behavior<P>,
    behavior_completion: BehaviorCompletionStatus,
) -> (next: Behavior<P>)
    ensures
        next == next_behavior(current_behavior, behavior_completion),
{
    match current_behavior {
        Behavior::Idle => Behavior::Idle,
        Behavior::MoveTo { destination } => match behavior_completion {
            BehaviorCompletionStatus::InProgress => Behavior::MoveTo { destination },
            BehaviorCompletionStatus::Complete => Behavior::Idle,
        },
        Behavior::MoveAwayFrom { threat_location } => match behavior_completion {
            BehaviorCompletionStatus::InProgress => Behavior::MoveAwayFrom { threat_location },
            BehaviorCompletionStatus::Complete => Behavior::Idle,
        },
    }
}

/// The guidance command that `behavior` issues: stay still when idle, steer
/// toward the destination, or steer away from the threat.
pub fn guidance_command_for_behavior<P: Copy>(behavior: Behavior<P>) -> (command: GuidanceCommand<P>)
    ensures
        command == guidance_for(behavior),
{
    match behavior {
        Behavior::Idle => GuidanceCommand::StayStill,
        Behavior::MoveTo { destination } => GuidanceCommand::MoveToward { destination },
        Behavior::MoveAwayFrom { threat_location } => {
            GuidanceCommand::MoveAwayFrom { threat_location }
        },
    }
}

/// The behavior that a selection button asks for, aimed at the selected target.
pub fn behavior_from_selection<P: Copy>(
    behavior_selection: BehaviorSelection,
    target_world_position: P,
) -> (behavior: Behavior<P>)
    ensures
        behavior == selected_behavior(behavior_selection, target_world_position),
{
    match behavior_selection {
        BehaviorSelection::Idle => Behavior::Idle,
        BehaviorSelection::MoveTo => Behavior::MoveTo { destination: target_world_position },
        BehaviorSelection::MoveAwayFrom => Behavior::MoveAwayFrom {
            threat_location: target_world_position,
        },
    }
}

/// The decisions of one simulation step for one agent: the completion of the
/// behavior it holds, the behavior it keeps, and the guidance that the kept
/// behavior issues (so a behavior that has just completed already stops the
/// agent in the same step).
pub fn plan_agent_step<P: Copy, A: Fn(P) -> bool, S: Fn(P) -> bool>(
    current_behavior: Behavior<P>,
    is_within_arrival_tolerance: A,
    is_beyond_safe_distance: S,
) -> (step: AgentStep<P>)
    requires
        observations_allowed(current_behavior, is_within_arrival_tolerance, is_beyond_safe_distance),
    ensures
        completion_observed(
            current_behavior,
            is_within_arrival_tolerance,
            is_beyond_safe_distance,
            step.completion,
        ),
        step.next_behavior == next_behavior(current_behavior, step.completion),
        step.guidance == guidance_for(step.next_behavior),
{
    let completion = evaluate_behavior_completion(
        current_behavior,
        is_within_arrival_tolerance,
        is_beyond_safe_distance,
    );
    let next = transition_behavior(current_behavior, completion);
    let guidance = guidance_command_for_behavior(next);
    AgentStep { completion, next_behavior: next, guidance }
}

/// An idle agent stays idle and still, whatever it observes.
pub proof fn lemma_idle_is_absorbing<P>(completion: BehaviorCompletionStatus)
    ensures
        next_behavior(Behavior::<P>::Idle, completion) == Behavior::<P>::Idle,
        guidance_for(next_behavior(Behavior::<P>::Idle, completion)) == GuidanceCommand::<P>::StayStill,
{
}

/// A step never invents a new goal: the next behavior is the current one or `Idle`.
pub proof fn lemma_transition_keeps_or_idles<P>(current: Behavior<P>, completion: BehaviorCompletionStatus)
    ensures
        next_behavior(current, completion) == current || next_behavior(current, completion)
            == Behavior::<P>::Idle,
{
}

/// Applying the same completion status twice changes nothing more than applying it once.
pub proof fn lemma_transition_idempotent<P>(current: Behavior<P>, completion: BehaviorCompletionStatus)
    ensures
        next_behavior(next_behavior(current, completion), completion) == next_behavior(
            current,
            completion,
        ),
{
}

/// A behavior that completes stops the agent in the same step.
pub proof fn lemma_completion_stops_agent<P>(current: Behavior<P>)
    ensures
        guidance_for(next_behavior(current, BehaviorCompletionStatus::Complete))
            == GuidanceCommand::<P>::StayStill,
{
}

/// Distinct behaviors issue distinct guidance commands, and an agent is told to
/// stay still exactly when it is idle.
pub proof fn lemma_guidance_mirrors_behavior<P>(first: Behavior<P>, second: Behavior<P>)
    ensures
        guidance_for(first) == guidance_for(second) ==> first == second,
        (guidance_for(first) == GuidanceCommand::<P>::StayStill) <==> (first == Behavior::<P>::Idle),
{
}

/// A selected behavior is of the selected kind and, unless idle, aims at the
/// selected target.
pub proof fn lemma_selection_round_trip<P>(selection: BehaviorSelection, target: P)
    ensures
        behavior_kind(selected_behavior(selection, target)) == selection,
        behavior_location(selected_behavior(selection, target)) == (if selection
            == BehaviorSelection::Idle {
            None
        } else {
            Some(target)
        }),
{
}

/// Every behavior is what its own kind and location select (an idle behavior is
/// selected whatever the target).
pub proof fn lemma_behavior_is_its_selection<P>(behavior: Behavior<P>, any_target: P)
    ensures
        selected_behavior(
            behavior_kind(behavior),
            match behavior_location(behavior) {
                Some(location) => location,
                None => any_target,
            },
        ) == behavior,
{
}

} // verus!
