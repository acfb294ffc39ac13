use behavior_sim::behavior::{Behavior, BehaviorSelection};
use behavior_sim::ui::{active_behavior_status_text, behavior_panel_buttons, selection_label};

#[test]
fn labels_name_each_behavior() {
    assert_eq!(selection_label(BehaviorSelection::Idle), "Idle");
    assert_eq!(selection_label(BehaviorSelection::MoveTo), "MoveTo");
    assert_eq!(selection_label(BehaviorSelection::MoveAwayFrom), "MoveAwayFrom");
}

#[test]
fn panel_lists_buttons_in_order() {
    assert_eq!(
        behavior_panel_buttons(),
        vec![BehaviorSelection::Idle, BehaviorSelection::MoveTo, BehaviorSelection::MoveAwayFrom]
    );
}

#[test]
fn status_text_for_idle_ignores_location() {
    let text = active_behavior_status_text(Behavior::<(f32, f32)>::Idle, "(1.0, 2.0)");
    assert_eq!(text, "Active Behavior: Idle");
}

#[test]
fn status_text_names_behavior_and_location() {
    let destination = (-100.0f32, 42.0f32);
    let location = format!("({:.1}, {:.1})", destination.0, destination.1);
    assert_eq!(
        active_behavior_status_text(Behavior::MoveTo { destination }, &location),
        "Active Behavior: MoveTo (-100.0, 42.0)"
    );
    assert_eq!(
        active_behavior_status_text(Behavior::MoveAwayFrom { threat_location: destination }, &location),
        "Active Behavior: MoveAwayFrom (-100.0, 42.0)"
    );
}
