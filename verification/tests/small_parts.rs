use diagram_core::input::button_state::{ButtonState, PointerButton};
use diagram_core::input::events::InputTarget;
use diagram_core::input::input_state::InputState;
use diagram_core::bezier::DragType;
use diagram_core::resource::{read_under, write_under, Resource};
use egui::pos2;

const ALL_BUTTONS: [PointerButton; 5] = [
    PointerButton::Primary,
    PointerButton::Secondary,
    PointerButton::Middle,
    PointerButton::Extra1,
    PointerButton::Extra2,
];

#[test]
fn new_button_state_has_no_button_down() {
    let state = ButtonState::new();
    for button in ALL_BUTTONS {
        assert!(!state.get(button));
    }
    let state = ButtonState::default();
    for button in ALL_BUTTONS {
        assert!(!state.get(button));
    }
}

#[test]
fn set_changes_one_button() {
    for pressed in ALL_BUTTONS {
        let mut state = ButtonState::new();
        state.set(pressed, true);
        for button in ALL_BUTTONS {
            assert_eq!(state.get(button), button == pressed);
        }
        state.set(pressed, false);
        for button in ALL_BUTTONS {
            assert!(!state.get(button));
        }
    }
}

#[test]
fn state_predicates() {
    let p = pos2(0.0, 0.0);
    let idle = InputState::Idle;
    let panning = InputState::Panning { last_cursor_pos: p };
    let dragging = InputState::DraggingNode {
        node_index: 0,
        start_pos: p,
        is_selection_drag: false,
        selected_indices: vec![0],
    };
    let editing = InputState::EditingNode { node_index: 0 };
    let creating = InputState::CreatingEdge { source_node: 0, current_cursor_pos: p };
    let control = InputState::DraggingControlPoint {
        edge_index: 0,
        point_index: 1,
        drag_type: DragType::Anchor,
        start_pos: p,
    };
    let selecting = InputState::Selecting { start_pos: p, current_pos: p, add_to_selection: false };

    assert!(!idle.is_busy());
    for s in [&panning, &dragging, &editing, &creating, &control, &selecting] {
        assert!(s.is_busy());
    }
    assert!(!idle.handles_mouse_motion());
    assert!(!editing.handles_mouse_motion());
    for s in [&panning, &dragging, &creating, &control, &selecting] {
        assert!(s.handles_mouse_motion());
    }
    for s in [&dragging, &control, &selecting] {
        assert!(s.is_dragging());
    }
    for s in [&idle, &panning, &editing, &creating] {
        assert!(!s.is_dragging());
    }
}

#[test]
fn targets_carry_their_slot() {
    assert!(matches!(InputTarget::Node(3), InputTarget::Node(3)));
    assert!(matches!(InputTarget::Edge(4), InputTarget::Edge(4)));
    assert!(matches!(InputTarget::Canvas, InputTarget::Canvas));
    assert!(matches!(InputTarget::UI, InputTarget::UI));
}

#[test]
fn resource_reads_what_was_put_in() {
    let resource = Resource::new(5u64);
    assert_eq!(resource.read_resource(|v| *v), Some(5));
    assert_eq!(resource.read_resource(|v| *v + 1), Some(6));
}

#[test]
fn resource_clones_reach_the_same_value() {
    let resource = Resource::new(vec![1, 2]);
    let other = resource.clone();
    assert_eq!(other.with_resource(|v| { v.push(3); v.len() }), Some(3));
    assert_eq!(resource.read_resource(|v| v.clone()), Some(vec![1, 2, 3]));
    assert_eq!(resource.with_resource(|v| v.pop()), Some(Some(3)));
    assert_eq!(other.read_resource(|v| v.len()), Some(2));
}

#[test]
fn resource_fails_fast_while_the_lock_is_held() {
    let resource = Resource::new(1u32);
    let inner = resource.clone();
    let seen = resource.with_resource(|v| {
        *v = 2;
        (inner.read_resource(|w| *w), inner.with_resource(|w| *w))
    });
    assert_eq!(seen, Some((None, None)));
    let nested = resource.read_resource(|v| (*v, inner.read_resource(|w| *w), inner.with_resource(|w| *w)));
    assert_eq!(nested, Some((2, Some(2), None)));
    assert_eq!(resource.read_resource(|v| *v), Some(2));
}

#[test]
fn reading_under_a_guard_runs_the_closure_once() {
    let lock = std::sync::RwLock::new(5u64);
    let mut runs = 0;
    let seen = read_under(lock.try_read().ok(), |v: &u64| {
        runs += 1;
        *v + 1
    });
    assert_eq!(seen, Some(6));
    assert_eq!(runs, 1);
    assert!(lock.try_write().is_ok());
}

#[test]
fn reading_without_a_guard_runs_nothing() {
    let mut runs = 0;
    let seen = read_under(None, |v: &u64| {
        runs += 1;
        *v + 1
    });
    assert_eq!(seen, None);
    assert_eq!(runs, 0);
}

#[test]
fn writing_under_a_guard_changes_the_value() {
    let lock = std::sync::RwLock::new(vec![1, 2]);
    let seen = write_under(lock.try_write().ok(), |v: &mut Vec<i32>| {
        v.push(3);
        v.len()
    });
    assert_eq!(seen, Some(3));
    assert_eq!(*lock.try_read().unwrap(), vec![1, 2, 3]);
}

#[test]
fn writing_without_a_guard_runs_nothing() {
    let mut runs = 0;
    let seen = write_under(None, |v: &mut u64| {
        runs += 1;
        *v += 1;
        *v
    });
    assert_eq!(seen, None);
    assert_eq!(runs, 0);
}

#[test]
fn resource_default_holds_the_default_value() {
    let resource: Resource<u64> = Resource::default();
    assert_eq!(resource.read_resource(|v| *v), Some(0));
    let text: Resource<String> = Resource::default();
    assert_eq!(text.with_resource(|v| { v.push('a'); v.len() }), Some(1));
    assert_eq!(text.read_resource(|v| v.clone()), Some(String::from("a")));
}
