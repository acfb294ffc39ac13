//! The text of the user interface: button labels, the order of the selection
//! panel, and the status line that names the active behavior.
use vstd::prelude::*;
use vstd::string::*;
use crate::behavior::{Behavior, BehaviorSelection, behavior_kind};

verus! {

/// The name shown for a kind of behavior.
pub open spec fn label_of(selection: BehaviorSelection) -> Seq<char> {
    match selection {
        BehaviorSelection::Idle => "Idle"@,
        BehaviorSelection::MoveTo => "MoveTo"@,
        BehaviorSelection::MoveAwayFrom => "MoveAwayFrom"@,
    }
}

/// The status line for `behavior`: the prefix, the behavior's name and, unless
/// the agent is idle, a space and the text of its location.
pub open spec fn status_text_of<P>(behavior: Behavior<P>, location_text: Seq<char>) -> Seq<char> {
    let head = "Active Behavior: "@ + label_of(behavior_kind(behavior));
    match behavior {
        Behavior::Idle => head,
        _ => head + " "@ + location_text,
    }
}

/// The name shown for a kind of behavior, on its button and in the status line.
pub fn selection_label(selection: BehaviorSelection) -> (label: &'static str)
    ensures
        label@ == label_of(selection),
{
    match selection {
        BehaviorSelection::Idle => {
            proof {
                reveal_strlit("Idle");
            }
            "Idle"
        },
        BehaviorSelection::MoveTo => {
            proof {
                reveal_strlit("MoveTo");
            }
            "MoveTo"
        },
        BehaviorSelection::MoveAwayFrom => {
            proof {
                reveal_strlit("MoveAwayFrom");
            }
            "MoveAwayFrom"
        },
    }
}

/// The selection buttons of the behavior panel, top to bottom.
pub fn behavior_panel_buttons() -> (buttons: Vec<BehaviorSelection>)
    ensures
        buttons@ == seq![
            BehaviorSelection::Idle,
            BehaviorSelection::MoveTo,
            BehaviorSelection::MoveAwayFrom,
        ],
{
    let mut buttons: Vec<BehaviorSelection> = Vec::new();
    buttons.push(BehaviorSelection::Idle);
    buttons.push(BehaviorSelection::MoveTo);
    buttons.push(BehaviorSelection::MoveAwayFrom);
    buttons
}

/// The status line for the agent's active behavior. `location_text` is the
/// already formatted location of the behavior (such as `(12.0, -3.5)`); it is
/// left out for an idle agent.
pub fn active_behavior_status_text<P: Copy>(behavior: Behavior<P>, location_text: &str) -> (text:
    String)
    ensures
        text@ == status_text_of(behavior, location_text@),
{
    let mut text = String::from_str("Active Behavior: ");
    proof {
        reveal_strlit("Active Behavior: ");
    }
    text.append(selection_label(behavior.selection()));
    match behavior {
        Behavior::Idle => {},
        _ => {
            text.append(" ");
            proof {
                reveal_strlit(" ");
            }
            text.append(location_text);
        },
    }
    text
}

/// For an agent that is not idle, the status line is the prefix
/// `"Active Behavior: "`, the behavior's name, one space, and the whole location
/// text, whatever its length; for an idle agent it is `"Active Behavior: Idle"`,
/// whatever the location text.
pub proof fn lemma_status_text_shape<P>(behavior: Behavior<P>, location_text: Seq<char>)
    ensures
        behavior != Behavior::<P>::Idle ==> {
            let text = status_text_of(behavior, location_text);
            let label = label_of(behavior_kind(behavior));
            &&& text.len() == 18 + label.len() + location_text.len()
            &&& text.subrange(0, 17) == "Active Behavior: "@
            &&& text.subrange(17, 17 + label.len() as int) == label
            &&& text[17 + label.len() as int] == ' '
            &&& text.subrange(18 + label.len() as int, text.len() as int) == location_text
        },
        behavior == Behavior::<P>::Idle ==> status_text_of(behavior, location_text)
            == "Active Behavior: Idle"@,
{
    reveal_strlit("Active Behavior: ");
    reveal_strlit(" ");
    reveal_strlit("Idle");
    reveal_strlit("MoveTo");
    reveal_strlit("MoveAwayFrom");
    reveal_strlit("Active Behavior: Idle");
    let label = label_of(behavior_kind(behavior));
    if behavior != Behavior::<P>::Idle {
        let text = status_text_of(behavior, location_text);
        assert(text == "Active Behavior: "@ + label + " "@ + location_text);
        assert(text.subrange(0, 17) =~= "Active Behavior: "@);
        assert(text.subrange(17, 17 + label.len() as int) =~= label);
        assert(text.subrange(18 + label.len() as int, text.len() as int) =~= location_text);
    } else {
        assert(status_text_of(behavior, location_text) =~= "Active Behavior: Idle"@);
    }
}

/// Extending the location text extends the status line of a non-idle agent by
/// exactly that much, and leaves an idle agent's status line unchanged.
pub proof fn lemma_status_text_follows_location<P>(
    behavior: Behavior<P>,
    location_text: Seq<char>,
    more: Seq<char>,
)
    ensures
        behavior != Behavior::<P>::Idle ==> status_text_of(behavior, location_text + more)
            == status_text_of(behavior, location_text) + more,
        behavior == Behavior::<P>::Idle ==> status_text_of(behavior, location_text + more)
            == status_text_of(behavior, location_text),
{
    if behavior != Behavior::<P>::Idle {
        let head = "Active Behavior: "@ + label_of(behavior_kind(behavior)) + " "@;
        assert(head + (location_text + more) =~= (head + location_text) + more);
    }
}

} // verus!
