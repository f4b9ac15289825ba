use egui_layer_shell::egui_state::State;

fn moved(x: f32, y: f32) -> egui::Event {
    egui::Event::PointerMoved(egui::pos2(x, y))
}

fn text(s: &str) -> egui::Event {
    egui::Event::Text(s.to_owned())
}

fn shift() -> egui::Modifiers {
    egui::Modifiers { alt: false, ctrl: false, shift: true, mac_cmd: false, command: false }
}

#[test]
fn new_state_is_empty() {
    let mut state = State::new(egui::Context::default());
    assert!(!state.has_pending());
    assert_eq!(state.get_size(), None);
    assert_eq!(state.modifiers(), egui::Modifiers::default());
    let batch = state.take(0);
    assert!(batch.events.is_empty());
    assert_eq!(batch.screen_size, None);
    assert_eq!(batch.modifiers, egui::Modifiers::default());
}

#[test]
fn take_returns_pushes_in_order() {
    let mut state = State::new(egui::Context::default());
    state.push_event(moved(1.0, 2.0));
    state.push_event(text("a"));
    state.push_event(moved(3.0, 4.0));
    assert!(state.has_pending());
    let batch = state.take(42);
    assert_eq!(batch.events, vec![moved(1.0, 2.0), text("a"), moved(3.0, 4.0)]);
    assert_eq!(batch.time, 42);
    assert!(!state.has_pending());
}

#[test]
fn take_returns_only_pushes_since_previous_take() {
    let mut state = State::new(egui::Context::default());
    state.push_event(text("first"));
    state.push_event(text("second"));
    let one = state.take(1);
    assert_eq!(one.events, vec![text("first"), text("second")]);
    state.push_event(text("third"));
    let two = state.take(2);
    assert_eq!(two.events, vec![text("third")]);
}

#[test]
fn second_take_is_empty() {
    let mut state = State::new(egui::Context::default());
    state.push_event(text("x"));
    let one = state.take(1);
    assert_eq!(one.events.len(), 1);
    let two = state.take(2);
    assert!(two.events.is_empty());
    let three = state.take(3);
    assert!(three.events.is_empty());
}

#[test]
fn take_without_push_is_empty() {
    let mut state = State::new(egui::Context::default());
    assert!(state.take(9).events.is_empty());
}

#[test]
fn set_size_keeps_pending_events() {
    let mut state = State::new(egui::Context::default());
    state.push_event(text("kept"));
    state.set_size(300, 200);
    assert!(state.has_pending());
    assert_eq!(state.get_size(), Some((300, 200)));
    let batch = state.take(0);
    assert_eq!(batch.events, vec![text("kept")]);
    assert_eq!(batch.screen_size, Some((300, 200)));
}

#[test]
fn size_persists_across_takes_until_overwritten() {
    let mut state = State::new(egui::Context::default());
    state.set_size(300, 200);
    assert_eq!(state.take(0).screen_size, Some((300, 200)));
    assert_eq!(state.take(1).screen_size, Some((300, 200)));
    assert_eq!(state.get_size(), Some((300, 200)));
    state.set_size(640, 480);
    assert_eq!(state.take(2).screen_size, Some((640, 480)));
    assert_eq!(state.get_size(), Some((640, 480)));
}

#[test]
fn modifiers_go_with_the_batch_and_persist() {
    let mut state = State::new(egui::Context::default());
    state.push_event(text("a"));
    state.set_modifiers(shift());
    assert_eq!(state.modifiers(), shift());
    assert!(state.has_pending());
    let batch = state.take(0);
    assert_eq!(batch.modifiers, shift());
    assert_eq!(batch.events, vec![text("a")]);
    assert_eq!(state.modifiers(), shift());
    assert_eq!(state.take(1).modifiers, shift());
}

#[test]
fn process_events_takes_the_batch() {
    let mut state = State::new(egui::Context::default());
    state.set_size(10, 20);
    state.push_event(moved(5.0, 6.0));
    let batch = state.process_events();
    assert_eq!(batch.events, vec![moved(5.0, 6.0)]);
    assert_eq!(batch.screen_size, Some((10, 20)));
    assert!(!state.has_pending());
    assert!(state.process_events().events.is_empty());
}

#[test]
fn process_events_time_does_not_go_back() {
    let mut state = State::new(egui::Context::default());
    let first = state.process_events().time;
    let second = state.process_events().time;
    assert!(first <= second);
}

#[test]
fn many_pushes_keep_order() {
    let mut state = State::new(egui::Context::default());
    let mut expected = Vec::new();
    for i in 0..100u16 {
        let event = moved(f32::from(i), 0.0);
        expected.push(event.clone());
        state.push_event(event);
    }
    assert_eq!(state.take(0).events, expected);
}
