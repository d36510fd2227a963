use vstd::prelude::*;

verus! {

/// The keys the game state tells apart.
#[derive(Clone, Copy, Debug, PartialEq, Eq, Structural)]
pub enum Key {
    Escape,
    Other,
}

/// A key together with whether it went down or came up.
#[derive(Clone, Copy, Debug, PartialEq, Eq, Structural)]
pub struct KeyEvent {
    pub key: Key,
    pub pressed: bool,
}

/// What reached the game state this tick.
#[derive(Clone, Copy, Debug, PartialEq, Eq, Structural)]
pub enum StateEvent {
    /// An event of the window: whether it asks to close, and the key event
    /// it carries, if any.
    Window { close_requested: bool, key: Option<KeyEvent> },
    /// Any event that does not come from the window.
    Other,
}

/// Whether the game goes on.
#[derive(Clone, Copy, Debug, PartialEq, Eq, Structural)]
pub enum Transition {
    Continue,
    Quit,
}

/// What the game state answers to an event: the transition to take and the
/// key event to report, if any.
#[derive(Clone, Copy, Debug, PartialEq, Eq, Structural)]
pub struct Reaction {
    pub transition: Transition,
    pub reported_key: Option<KeyEvent>,
}

impl StateEvent {
    /// Whether the event ends the game: the window asks to close, or Escape
    /// went down.
    pub open spec fn quits(self) -> bool {
        match self {
            StateEvent::Window { close_requested, key } => close_requested || key == Some(
                KeyEvent { key: Key::Escape, pressed: true },
            ),
            StateEvent::Other => false,
        }
    }

    /// The key event to report: the one a window event carries, unless the
    /// event ends the game.
    pub open spec fn reported(self) -> Option<KeyEvent> {
        match self {
            StateEvent::Window { close_requested, key } => if self.quits() {
                None
            } else {
                key
            },
            StateEvent::Other => None,
        }
    }
}

/// The game state that shows the sprites.
#[derive(Clone, Copy, Debug, PartialEq, Eq, Structural)]
pub struct MyState;

impl MyState {
    /// Quits when the window asks to close or Escape goes down; reports any
    /// other key event and keeps going.
    pub fn handle_event(&mut self, event: StateEvent) -> (reaction: Reaction)
        ensures
            reaction.transition == (if event.quits() {
                Transition::Quit
            } else {
                Transition::Continue
            }),
            reaction.reported_key == event.reported(),
    {
        match event {
            StateEvent::Window { close_requested, key } => {
                let escape_down = match key {
                    Some(k) => k.pressed && matches!(k.key, Key::Escape),
                    None => false,
                };
                if close_requested || escape_down {
                    Reaction { transition: Transition::Quit, reported_key: None }
                } else {
                    Reaction { transition: Transition::Continue, reported_key: key }
                }
            },
            StateEvent::Other => Reaction { transition: Transition::Continue, reported_key: None },
        }
    }
}

} // verus!
