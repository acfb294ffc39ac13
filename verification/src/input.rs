//! User input: the behavior selection buttons and clicking on targets.
use vstd::prelude::*;
use crate::behavior::{Behavior, BehaviorSelection, selected_behavior, behavior_from_selection};
use crate::messages::{BehaviorChange, BehaviorChangeMessage, behavior_after_messages};

verus! {

/// The pointer's relation to a button.
#[derive(Clone, Copy, Debug, PartialEq, Eq)]
pub enum ButtonInteraction {
    Pressed,
    Hovered,
    /// Neither hovered nor pressed.
    Inactive,
}

/// How a button is painted.
#[derive(Clone, Copy, Debug, PartialEq, Eq)]
pub enum ButtonShade {
    Default,
    Hovered,
    Pressed,
}

/// A behavior selection button whose interaction has changed.
#[derive(Clone, Copy, Debug, PartialEq, Eq)]
pub struct BehaviorButton {
    pub interaction: ButtonInteraction,
    pub selection: BehaviorSelection,
}

/// What a click on an entity does to the selected target.
#[derive(Clone, Copy, Debug, PartialEq, Eq)]
pub enum TargetSelectionChange {
    /// The selection stays as it is.
    Unchanged,
    /// The marker moves from `deselected` to `selected`.
    Moved { deselected: u64, selected: u64 },
}

/// The shade that goes with an interaction.
pub open spec fn shade_for(interaction: ButtonInteraction) -> ButtonShade {
    match interaction {
        ButtonInteraction::Pressed => ButtonShade::Pressed,
        ButtonInteraction::Hovered => ButtonShade::Hovered,
        ButtonInteraction::Inactive => ButtonShade::Default,
    }
}

/// The change messages that the pressed buttons send, in button order: each
/// asks `agent` to take the button's behavior aimed at `target`.
pub open spec fn pressed_button_requests<P>(
    buttons: Seq<BehaviorButton>,
    agent: u64,
    target: P,
) -> Seq<BehaviorChangeMessage<P>>
    decreases buttons.len(),
{
    if buttons.len() == 0 {
        Seq::empty()
    } else {
        let earlier = pressed_button_requests(buttons.drop_last(), agent, target);
        let button = buttons.last();
        if button.interaction == ButtonInteraction::Pressed {
            earlier.push(
                BehaviorChangeMessage {
                    agent_entity: agent,
                    behavior_change: BehaviorChange::SetBehavior(
                        selected_behavior(button.selection, target),
                    ),
                },
            )
        } else {
            earlier
        }
    }
}

/// The number of pressed buttons.
pub open spec fn pressed_count(buttons: Seq<BehaviorButton>) -> nat
    decreases buttons.len(),
{
    if buttons.len() == 0 {
        0
    } else {
        pressed_count(buttons.drop_last()) + if buttons.last().interaction
            == ButtonInteraction::Pressed {
            1nat
        } else {
            0nat
        }
    }
}

/// The shade for a button's interaction.
pub fn button_shade_for_interaction(interaction: ButtonInteraction) -> (shade: ButtonShade)
    ensures
        shade == shade_for(interaction),
{
    match interaction {
        ButtonInteraction::Pressed => ButtonShade::Pressed,
        ButtonInteraction::Hovered => ButtonShade::Hovered,
        ButtonInteraction::Inactive => ButtonShade::Default,
    }
}

/// Responds to the buttons whose interaction changed: each gets the shade of its
/// interaction, and each pressed button asks the agent to take its behavior,
/// aimed at the selected target's position.
pub fn handle_behavior_selection_buttons<P: Copy>(
    button_interactions: &Vec<BehaviorButton>,
    agent_entity: u64,
    selected_target_world_position: P,
) -> (responses: (Vec<ButtonShade>, Vec<BehaviorChangeMessage<P>>))
    ensures
        responses.0@.len() == button_interactions@.len(),
        forall|i: int|
            0 <= i < button_interactions@.len() ==> #[trigger] responses.0@[i] == shade_for(
                button_interactions@[i].interaction,
            ),
        responses.1@ == pressed_button_requests(
            button_interactions@,
            agent_entity,
            selected_target_world_position,
        ),
{
    let mut shades: Vec<ButtonShade> = Vec::new();
    let mut requests: Vec<BehaviorChangeMessage<P>> = Vec::new();
    let count = button_interactions.len();
    let mut i: usize = 0;
    while i < count
        invariant
            count == button_interactions@.len(),
            i <= count,
            shades@.len() == i,
            forall|k: int| 0 <= k < i ==> #[trigger] shades@[k] == shade_for(button_interactions@[k].interaction),
            requests@ == pressed_button_requests(
                button_interactions@.take(i as int),
                agent_entity,
                selected_target_world_position,
            ),
        decreases count - i,
    {
        let button = button_interactions[i];
        proof {
            assert(button_interactions@.take(i + 1).drop_last() =~= button_interactions@.take(i as int));
            assert(button_interactions@.take(i + 1).last() == button);
        }
        shades.push(button_shade_for_interaction(button.interaction));
        match button.interaction {
            ButtonInteraction::Pressed => {
                let requested_behavior = behavior_from_selection(
                    button.selection,
                    selected_target_world_position,
                );
                requests.push(
                    BehaviorChangeMessage {
                        agent_entity,
                        behavior_change: BehaviorChange::SetBehavior(requested_behavior),
                    },
                );
            },
            _ => {},
        }
        i = i + 1;
    }
    proof {
        assert(button_interactions@.take(count as int) =~= button_interactions@);
    }
    (shades, requests)
}

/// Each pressed button sends exactly one request, addressed to the agent, for
/// the behavior it selects aimed at the target; nothing else sends one.
pub proof fn lemma_one_request_per_pressed_button<P>(
    buttons: Seq<BehaviorButton>,
    agent: u64,
    target: P,
)
    ensures
        pressed_button_requests(buttons, agent, target).len() == pressed_count(buttons),
        forall|i: int|
            0 <= i < pressed_button_requests(buttons, agent, target).len() ==> {
                &&& (#[trigger] pressed_button_requests(buttons, agent, target)[i]).agent_entity
                    == agent
                &&& exists|j: int|
                    0 <= j < buttons.len() && buttons[j].interaction == ButtonInteraction::Pressed
                        && pressed_button_requests(buttons, agent, target)[i].behavior_change
                        == BehaviorChange::SetBehavior(
                        selected_behavior(#[trigger] buttons[j].selection, target),
                    )
            },
    decreases buttons.len(),
{
    if buttons.len() > 0 {
        let rest = buttons.drop_last();
        lemma_one_request_per_pressed_button(rest, agent, target);
        let requests = pressed_button_requests(buttons, agent, target);
        let earlier = pressed_button_requests(rest, agent, target);
        assert forall|i: int| 0 <= i < requests.len() implies {
            &&& (#[trigger] requests[i]).agent_entity == agent
            &&& exists|j: int|
                0 <= j < buttons.len() && buttons[j].interaction == ButtonInteraction::Pressed
                    && requests[i].behavior_change == BehaviorChange::SetBehavior(
                    selected_behavior(#[trigger] buttons[j].selection, target),
                )
        } by {
            if i < earlier.len() {
                assert(requests[i] == earlier[i]);
                let j = choose|j: int|
                    0 <= j < rest.len() && rest[j].interaction == ButtonInteraction::Pressed
                        && earlier[i].behavior_change == BehaviorChange::SetBehavior(
                        selected_behavior(#[trigger] rest[j].selection, target),
                    );
                assert(buttons[j] == rest[j]);
            } else {
                let j = buttons.len() - 1;
                assert(buttons[j] == buttons.last());
            }
        }
    }
}

/// Clicking a target other than the selected one moves the selection marker to
/// it; clicking anything else, or the selected target itself, changes nothing.
pub fn handle_cursor_target_selection(
    clicked_entity: u64,
    clicked_is_target: bool,
    selected_target: u64,
) -> (change: TargetSelectionChange)
    ensures
        change == (if !clicked_is_target || clicked_entity == selected_target {
            TargetSelectionChange::Unchanged
        } else {
            TargetSelectionChange::Moved { deselected: selected_target, selected: clicked_entity }
        }),
{
    if !clicked_is_target {
        return TargetSelectionChange::Unchanged;
    }
    if clicked_entity == selected_target {
        return TargetSelectionChange::Unchanged;
    }
    TargetSelectionChange::Moved { deselected: selected_target, selected: clicked_entity }
}

/// The requests keep button order: the requests of two lists of buttons, one
/// after the other, are the requests of the first list followed by those of the
/// second.
pub proof fn lemma_requests_keep_button_order<P>(
    first: Seq<BehaviorButton>,
    second: Seq<BehaviorButton>,
    agent: u64,
    target: P,
)
    ensures
        pressed_button_requests(first + second, agent, target) == pressed_button_requests(
            first,
            agent,
            target,
        ) + pressed_button_requests(second, agent, target),
    decreases second.len(),
{
    if second.len() == 0 {
        assert(first + second =~= first);
        assert(pressed_button_requests(first, agent, target) + Seq::empty() =~= pressed_button_requests(first, agent, target));
    } else {
        assert((first + second).drop_last() =~= first + second.drop_last());
        assert((first + second).last() == second.last());
        lemma_requests_keep_button_order(first, second.drop_last(), agent, target);
        let a = pressed_button_requests(first, agent, target);
        let b = pressed_button_requests(second.drop_last(), agent, target);
        if second.last().interaction == ButtonInteraction::Pressed {
            let m = BehaviorChangeMessage {
                agent_entity: agent,
                behavior_change: BehaviorChange::SetBehavior(
                    selected_behavior(second.last().selection, target),
                ),
            };
            assert((a + b).push(m) =~= a + b.push(m));
        }
    }
}

/// A single button sends one request, for its own behavior aimed at the target
/// and addressed to the agent, when pressed, and none otherwise.
pub proof fn lemma_single_button_request<P>(button: BehaviorButton, agent: u64, target: P)
    ensures
        pressed_button_requests(seq![button], agent, target) == if button.interaction
            == ButtonInteraction::Pressed {
            seq![
                BehaviorChangeMessage {
                    agent_entity: agent,
                    behavior_change: BehaviorChange::SetBehavior(
                        selected_behavior(button.selection, target),
                    ),
                },
            ]
        } else {
            Seq::empty()
        },
{
    assert(seq![button].drop_last() =~= Seq::<BehaviorButton>::empty());
    assert(seq![button].last() == button);
    assert(pressed_button_requests(Seq::<BehaviorButton>::empty(), agent, target) =~= Seq::empty());
    assert(Seq::<BehaviorChangeMessage<P>>::empty().push(
        BehaviorChangeMessage {
            agent_entity: agent,
            behavior_change: BehaviorChange::SetBehavior(selected_behavior(button.selection, target)),
        },
    ) =~= seq![
        BehaviorChangeMessage {
            agent_entity: agent,
            behavior_change: BehaviorChange::SetBehavior(selected_behavior(button.selection, target)),
        },
    ]);
}

/// The selection of the last pressed button, if any.
pub open spec fn last_pressed_selection(buttons: Seq<BehaviorButton>) -> Option<BehaviorSelection>
    decreases buttons.len(),
{
    if buttons.len() == 0 {
        None
    } else if buttons.last().interaction == ButtonInteraction::Pressed {
        Some(buttons.last().selection)
    } else {
        last_pressed_selection(buttons.drop_last())
    }
}

/// Once the requests of the pressed buttons are applied, the agent holds the
/// behavior of the last pressed button, aimed at the target; if no button was
/// pressed it keeps its behavior.
pub proof fn lemma_last_pressed_button_wins<P>(
    buttons: Seq<BehaviorButton>,
    agent: u64,
    target: P,
    current: Behavior<P>,
)
    ensures
        behavior_after_messages(current, agent, pressed_button_requests(buttons, agent, target))
            == match last_pressed_selection(buttons) {
            Some(selection) => selected_behavior(selection, target),
            None => current,
        },
    decreases buttons.len(),
{
    if buttons.len() > 0 {
        lemma_last_pressed_button_wins(buttons.drop_last(), agent, target, current);
        let requests = pressed_button_requests(buttons, agent, target);
        if buttons.last().interaction == ButtonInteraction::Pressed {
            assert(requests.drop_last() =~= pressed_button_requests(buttons.drop_last(), agent, target));
        }
    }
}

} // verus!
