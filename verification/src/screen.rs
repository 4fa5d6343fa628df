use vstd::prelude::*;

verus! {

/// The three screens of the game.
#[derive(Clone, Copy, Debug, PartialEq, Eq, Structural, Hash)]
pub enum AppState {
    Menu,
    Playing,
    Win,
}

impl Default for AppState {
    /// The game opens on the main menu.
    fn default() -> (s: Self)
        ensures
            s == AppState::Menu,
    {
        AppState::Menu
    }
}

/// Whether `state` shows a navigable menu (the main menu or the win screen).
pub open spec fn is_menu_screen(state: AppState) -> bool {
    state is Menu || state is Win
}

/// Run condition of the menu systems: true on the main menu and on the win screen.
pub fn on_menu_or_win(state: AppState) -> (b: bool)
    ensures
        b == is_menu_screen(state),
{
    match state {
        AppState::Menu | AppState::Win => true,
        AppState::Playing => false,
    }
}

} // verus!
