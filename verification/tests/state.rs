use frame_graph::{Key, KeyEvent, MyState, Reaction, StateEvent, Transition};

fn window(close_requested: bool, key: Option<KeyEvent>) -> StateEvent {
    StateEvent::Window { close_requested, key }
}

fn key(key: Key, pressed: bool) -> Option<KeyEvent> {
    Some(KeyEvent { key, pressed })
}

#[test]
fn close_request_quits() {
    let mut state = MyState;
    let quit = Reaction { transition: Transition::Quit, reported_key: None };
    assert_eq!(state.handle_event(window(true, None)), quit);
    assert_eq!(state.handle_event(window(true, key(Key::Other, true))), quit);
    assert_eq!(state.handle_event(window(true, key(Key::Escape, false))), quit);
}

#[test]
fn escape_going_down_quits() {
    let mut state = MyState;
    assert_eq!(
        state.handle_event(window(false, key(Key::Escape, true))),
        Reaction { transition: Transition::Quit, reported_key: None }
    );
}

#[test]
fn escape_coming_up_is_reported_only() {
    let mut state = MyState;
    assert_eq!(
        state.handle_event(window(false, key(Key::Escape, false))),
        Reaction {
            transition: Transition::Continue,
            reported_key: key(Key::Escape, false),
        }
    );
}

#[test]
fn other_keys_are_reported() {
    let mut state = MyState;
    for pressed in [true, false] {
        assert_eq!(
            state.handle_event(window(false, key(Key::Other, pressed))),
            Reaction {
                transition: Transition::Continue,
                reported_key: key(Key::Other, pressed),
            }
        );
    }
}

#[test]
fn events_without_a_key_keep_going() {
    let mut state = MyState;
    let go_on = Reaction { transition: Transition::Continue, reported_key: None };
    assert_eq!(state.handle_event(window(false, None)), go_on);
    assert_eq!(state.handle_event(StateEvent::Other), go_on);
}
