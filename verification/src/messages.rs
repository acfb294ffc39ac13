//! Behavior change requests addressed to agents, and how a batch of them is
//! applied to the agents' behaviors.
//!
//! Agents are named by their entity's bit pattern (`u64`).
use vstd::prelude::*;
use crate::behavior::Behavior;

verus! {

/// A change to an agent's behavior.
#[derive(Clone, Copy, Debug, PartialEq)]
pub enum BehaviorChange<P> {
    /// Replace the agent's behavior with the given one.
    SetBehavior(Behavior<P>),
}

/// A behavior change addressed to one agent entity.
#[derive(Clone, Copy, Debug, PartialEq)]
pub struct BehaviorChangeMessage<P> {
    pub agent_entity: u64,
    pub behavior_change: BehaviorChange<P>,
}

/// An agent entity together with the behavior it currently holds.
#[derive(Clone, Copy, Debug, PartialEq)]
pub struct AgentBehavior<P> {
    pub entity: u64,
    pub behavior: Behavior<P>,
}

/// The behavior an agent holds after one change.
pub open spec fn changed_behavior<P>(current: Behavior<P>, change: BehaviorChange<P>) -> Behavior<P> {
    match change {
        BehaviorChange::SetBehavior(requested) => requested,
    }
}

/// The behavior that `agent` holds after the messages are applied in order,
/// starting from `current`; messages addressed to other entities leave it alone.
pub open spec fn behavior_after_messages<P>(
    current: Behavior<P>,
    agent: u64,
    messages: Seq<BehaviorChangeMessage<P>>,
) -> Behavior<P>
    decreases messages.len(),
{
    if messages.len() == 0 {
        current
    } else {
        let earlier = behavior_after_messages(current, agent, messages.drop_last());
        let message = messages.last();
        if message.agent_entity == agent {
            changed_behavior(earlier, message.behavior_change)
        } else {
            earlier
        }
    }
}

/// The behavior requested by the last message addressed to `agent`, if any.
pub open spec fn last_request_for<P>(agent: u64, messages: Seq<BehaviorChangeMessage<P>>) -> Option<
    Behavior<P>,
>
    decreases messages.len(),
{
    if messages.len() == 0 {
        None
    } else if messages.last().agent_entity == agent {
        match messages.last().behavior_change {
            BehaviorChange::SetBehavior(requested) => Some(requested),
        }
    } else {
        last_request_for(agent, messages.drop_last())
    }
}

/// The behavior an agent holds after `behavior_change`: the requested one,
/// whatever it held before.
pub fn behavior_after_applying_change<P: Copy>(
    current_behavior: Behavior<P>,
    behavior_change: BehaviorChange<P>,
) -> (next: Behavior<P>)
    ensures
        next == changed_behavior(current_behavior, behavior_change),
{
    match behavior_change {
        BehaviorChange::SetBehavior(requested_behavior) => requested_behavior,
    }
}

/// Applies the messages, in order, to every agent they are addressed to.
/// Messages for entities that are not among the agents are ignored; the agents
/// keep their entities and their order.
pub fn apply_behavior_changes<P: Copy>(
    incoming_behavior_changes: &Vec<BehaviorChangeMessage<P>>,
    agent_behaviors: &mut Vec<AgentBehavior<P>>,
)
    ensures
        final(agent_behaviors)@.len() == old(agent_behaviors)@.len(),
        forall|k: int|
            0 <= k < old(agent_behaviors)@.len() ==> {
                &&& (#[trigger] final(agent_behaviors)@[k]).entity == old(agent_behaviors)@[k].entity
                &&& final(agent_behaviors)@[k].behavior == behavior_after_messages(
                    old(agent_behaviors)@[k].behavior,
                    old(agent_behaviors)@[k].entity,
                    incoming_behavior_changes@,
                )
            },
{
    let ghost original = agent_behaviors@;
    let message_count = incoming_behavior_changes.len();
    let agent_count = agent_behaviors.len();
    let mut i: usize = 0;
    while i < message_count
        invariant
            message_count == incoming_behavior_changes@.len(),
            agent_count == original.len(),
            i <= message_count,
            agent_behaviors@.len() == original.len(),
            forall|k: int|
                0 <= k < original.len() ==> {
                    &&& (#[trigger] agent_behaviors@[k]).entity == original[k].entity
                    &&& agent_behaviors@[k].behavior == behavior_after_messages(
                        original[k].behavior,
                        original[k].entity,
                        incoming_behavior_changes@.take(i as int),
                    )
                },
        decreases message_count - i,
    {
        let message = incoming_behavior_changes[i];
        proof {
            assert(incoming_behavior_changes@.take(i + 1).drop_last()
                =~= incoming_behavior_changes@.take(i as int));
            assert(incoming_behavior_changes@.take(i + 1).last() == message);
        }
        let mut j: usize = 0;
        while j < agent_count
            invariant
                message_count == incoming_behavior_changes@.len(),
                agent_count == original.len(),
                i < message_count,
                j <= agent_count,
                message == incoming_behavior_changes@[i as int],
                agent_behaviors@.len() == original.len(),
                incoming_behavior_changes@.take(i + 1).drop_last()
                    == incoming_behavior_changes@.take(i as int),
                incoming_behavior_changes@.take(i + 1).last() == message,
                forall|k: int|
                    0 <= k < original.len() ==> (#[trigger] agent_behaviors@[k]).entity
                        == original[k].entity,
                forall|k: int|
                    0 <= k < j ==> (#[trigger] agent_behaviors@[k]).behavior
                        == behavior_after_messages(
                        original[k].behavior,
                        original[k].entity,
                        incoming_behavior_changes@.take(i + 1),
                    ),
                forall|k: int|
                    j <= k < original.len() ==> (#[trigger] agent_behaviors@[k]).behavior
                        == behavior_after_messages(
                        original[k].behavior,
                        original[k].entity,
                        incoming_behavior_changes@.take(i as int),
                    ),
            decreases agent_count - j,
        {
            let agent = agent_behaviors[j];
            if agent.entity == message.agent_entity {
                let next = behavior_after_applying_change(agent.behavior, message.behavior_change);
                agent_behaviors[j] = AgentBehavior { entity: agent.entity, behavior: next };
            }
            j = j + 1;
        }
        i = i + 1;
    }
    proof {
        assert(incoming_behavior_changes@.take(message_count as int) =~= incoming_behavior_changes@);
    }
}

/// Last write wins: after a batch of messages, an agent holds the behavior
/// requested by the last message addressed to it, or its old behavior if none was.
pub proof fn lemma_last_request_wins<P>(
    current: Behavior<P>,
    agent: u64,
    messages: Seq<BehaviorChangeMessage<P>>,
)
    ensures
        behavior_after_messages(current, agent, messages) == match last_request_for(agent, messages) {
            Some(requested) => requested,
            None => current,
        },
    decreases messages.len(),
{
    if messages.len() > 0 {
        lemma_last_request_wins(current, agent, messages.drop_last());
    }
}

/// Applying two batches one after the other is applying the concatenated batch.
pub proof fn lemma_batches_compose<P>(
    current: Behavior<P>,
    agent: u64,
    first: Seq<BehaviorChangeMessage<P>>,
    second: Seq<BehaviorChangeMessage<P>>,
)
    ensures
        behavior_after_messages(current, agent, first + second) == behavior_after_messages(
            behavior_after_messages(current, agent, first),
            agent,
            second,
        ),
    decreases second.len(),
{
    if second.len() == 0 {
        assert(first + second =~= first);
    } else {
        assert((first + second).drop_last() =~= first + second.drop_last());
        lemma_batches_compose(current, agent, first, second.drop_last());
    }
}

/// A change does not depend on the behavior it replaces, and applying it twice
/// is applying it once.
pub proof fn lemma_change_overwrites<P>(first: Behavior<P>, second: Behavior<P>, change: BehaviorChange<P>)
    ensures
        changed_behavior(first, change) == changed_behavior(second, change),
        changed_behavior(changed_behavior(first, change), change) == changed_behavior(first, change),
{
}

} // verus!
