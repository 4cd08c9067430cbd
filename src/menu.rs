use vstd::prelude::*;

verus! {

/// The top-level screens of the application.
#[derive(Debug, Clone, Copy, PartialEq, Eq, Hash, Structural)]
pub enum Mode {
    Wallet,
    Node,
    Settings,
    About,
}

/// State of the main menu: the screen on display.
#[derive(Debug, Clone, Copy, PartialEq, Eq, Structural)]
pub struct StateContainer {
    pub mode: Mode,
}

impl Default for StateContainer {
    fn default() -> (r: Self)
        ensures
            r.mode == Mode::Wallet,
    {
        StateContainer { mode: Mode::Wallet }
    }
}

/// What the user can do in the menu.
#[derive(Debug, Clone, Copy, PartialEq, Eq, Structural)]
pub enum LocalViewInteraction {
    SelectMode(Mode),
}

/// Applies a menu interaction: selecting a screen displays it.
pub fn handle_message(state: &mut StateContainer, message: LocalViewInteraction)
    ensures
        match message {
            LocalViewInteraction::SelectMode(m) => final(state).mode == m,
        },
{
    match message {
        LocalViewInteraction::SelectMode(mode) => {
            state.mode = mode;
        },
    }
}

} // verus!
