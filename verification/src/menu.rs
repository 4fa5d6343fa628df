use vstd::prelude::*;

use crate::screen::AppState;

verus! {

/// What a menu button does when it is confirmed.
#[derive(Clone, Copy, Debug, PartialEq, Eq, Structural)]
pub enum ButtonAction {
    Play,
    PlayAgain,
    MainMenu,
    Exit,
}

/// The pointer state of a button whose state changed this frame.
#[derive(Clone, Copy, Debug, PartialEq, Eq, Structural)]
pub enum Interaction {
    Pressed,
    Hovered,
    Idle,
}

/// A button of a menu screen: its position in the column and its action.
#[derive(Clone, Copy, Debug, PartialEq, Eq, Structural)]
pub struct MenuButton {
    pub index: usize,
    pub action: ButtonAction,
}

/// Which button of a menu screen is selected, out of how many.
#[derive(Clone, Copy, Debug, PartialEq, Eq, Structural)]
pub struct MenuNav {
    pub index: usize,
    pub max: usize,
}

/// What the navigation asks of the game after a frame.
#[derive(Clone, Copy, Debug, PartialEq, Eq, Structural)]
pub enum MenuOutcome {
    /// Nothing to do.
    Stay,
    /// Switch to another screen.
    Switch(AppState),
    /// Quit the game.
    Quit,
}

/// One frame of menu input.
pub struct NavInput {
    /// "Up" (arrow up or W) was just pressed.
    pub up: bool,
    /// "Down" (arrow down or S) was just pressed.
    pub down: bool,
    /// "Confirm" (Enter or Space) was just pressed.
    pub confirm: bool,
    /// Some key, whichever, was just pressed.
    pub any_key: bool,
    /// The buttons whose pointer state changed this frame, in the order the
    /// engine reports them: the new state and the button's index.
    pub pointer: Vec<(Interaction, usize)>,
}

/// A menu screen: its title, the message shown under it, its initial
/// selection and its buttons with labels.
pub struct ScreenLayout {
    pub title: &'static str,
    pub message: &'static str,
    pub nav: MenuNav,
    pub buttons: Vec<(&'static str, MenuButton)>,
}

pub open spec fn min_int(a: int, b: int) -> int {
    if a <= b {
        a
    } else {
        b
    }
}

/// The selection after the "up" and "down" keys: up moves one button towards
/// the top and stops at the first, down moves one button towards the bottom and
/// stops at the last.
pub open spec fn after_keys(index: int, max: int, up: bool, down: bool) -> int {
    let i: int = if up {
        if index == 0 {
            0
        } else {
            index - 1
        }
    } else {
        index
    };
    if down {
        min_int(i + 1, max - 1)
    } else {
        i
    }
}

/// A pressed or hovered button takes the selection.
pub open spec fn is_pointing(i: Interaction) -> bool {
    i is Pressed || i is Hovered
}

/// The selection after the pointer events: the index of the last button that
/// is pressed or hovered, or `index` where there is none.
pub open spec fn after_pointer(index: int, events: Seq<(Interaction, usize)>) -> int
    decreases events.len(),
{
    if events.len() == 0 {
        index
    } else if is_pointing(events.last().0) {
        events.last().1 as int
    } else {
        after_pointer(index, events.drop_last())
    }
}

/// The selection at the end of a frame.
pub open spec fn selection_after(
    index: int,
    max: int,
    up: bool,
    down: bool,
    events: Seq<(Interaction, usize)>,
) -> int {
    after_pointer(after_keys(index, max, up, down), events)
}

/// Some button at index `sel` was pressed this frame.
pub open spec fn pressed_on(events: Seq<(Interaction, usize)>, sel: int) -> bool {
    exists|j: int| 0 <= j < events.len() && (#[trigger] events[j]).0 is Pressed && events[j].1 == sel
}

/// `k` is the first position in `buttons` of a button with index `idx`.
pub open spec fn is_first_with_index(buttons: Seq<MenuButton>, idx: int, k: int) -> bool {
    &&& 0 <= k < buttons.len()
    &&& buttons[k].index == idx
    &&& forall|j: int| 0 <= j < k ==> (#[trigger] buttons[j]).index != idx
}

/// The action of the first button with index `idx`, if any.
pub open spec fn action_at(buttons: Seq<MenuButton>, idx: int) -> Option<ButtonAction> {
    if exists|k: int| is_first_with_index(buttons, idx, k) {
        Some(buttons[choose|k: int| is_first_with_index(buttons, idx, k)].action)
    } else {
        None
    }
}

/// What confirming a button asks of the game.
pub open spec fn outcome_of(action: ButtonAction) -> MenuOutcome {
    match action {
        ButtonAction::Play | ButtonAction::PlayAgain => MenuOutcome::Switch(AppState::Playing),
        ButtonAction::MainMenu => MenuOutcome::Switch(AppState::Menu),
        ButtonAction::Exit => MenuOutcome::Quit,
    }
}

/// The outcome of a frame whose final selection is `sel`.
pub open spec fn navigation_outcome(buttons: Seq<MenuButton>, sel: int, confirmed: bool) -> MenuOutcome {
    if confirmed {
        match action_at(buttons, sel) {
            Some(a) => outcome_of(a),
            None => MenuOutcome::Stay,
        }
    } else {
        MenuOutcome::Stay
    }
}

/// The outcome of a frame on `screen`: on the first screen (the main menu)
/// any key goes straight to the win screen; otherwise the buttons decide.
pub open spec fn frame_outcome(
    screen: AppState,
    any_key: bool,
    buttons: Seq<MenuButton>,
    sel: int,
    confirmed: bool,
) -> MenuOutcome {
    if screen is Menu && any_key {
        MenuOutcome::Switch(AppState::Win)
    } else {
        navigation_outcome(buttons, sel, confirmed)
    }
}

/// The buttons of a screen sit at indices `0 .. max`, in that order.
pub open spec fn layout_well_formed(buttons: Seq<MenuButton>, max: int) -> bool {
    &&& buttons.len() == max
    &&& forall|i: int| 0 <= i < max ==> (#[trigger] buttons[i]).index == i
}

/// The buttons of a layout, without their labels.
pub open spec fn layout_buttons(layout: Seq<(&'static str, MenuButton)>) -> Seq<MenuButton> {
    layout.map_values(|b: (&'static str, MenuButton)| b.1)
}

impl MenuNav {
    /// Whether the button at `index` is the selected one (drawn highlighted and wobbling).
    pub fn is_selected(&self, index: usize) -> (b: bool)
        ensures
            b == (index == self.index),
    {
        index == self.index
    }
}

/// The main menu: title, the "press any key" prompt, selection on the first
/// of two buttons, "Play" then "Exit".
pub fn menu_layout() -> (l: ScreenLayout)
    ensures
        l.title@ == "Turtle Goes to Tea"@,
        l.message@ == "Press any key to continue..."@,
        l.nav == (MenuNav { index: 0, max: 2 }),
        l.buttons@.len() == 2,
        l.buttons@[0].0@ == "Play"@,
        l.buttons@[0].1 == (MenuButton { index: 0, action: ButtonAction::Play }),
        l.buttons@[1].0@ == "Exit"@,
        l.buttons@[1].1 == (MenuButton { index: 1, action: ButtonAction::Exit }),
        layout_well_formed(layout_buttons(l.buttons@), l.nav.max as int),
{
    let mut buttons: Vec<(&'static str, MenuButton)> = Vec::new();
    buttons.push(("Play", MenuButton { index: 0, action: ButtonAction::Play }));
    buttons.push(("Exit", MenuButton { index: 1, action: ButtonAction::Exit }));
    let l = ScreenLayout {
        title: "Turtle Goes to Tea",
        message: "Press any key to continue...",
        nav: MenuNav { index: 0, max: 2 },
        buttons,
    };
    assert(layout_buttons(l.buttons@)[0] == l.buttons@[0].1);
    assert(layout_buttons(l.buttons@)[1] == l.buttons@[1].1);
    l
}

/// The win screen: title, the "You win!" message, selection on the first of
/// three buttons, "Play Again", "Main Menu" then "Exit".
pub fn win_layout() -> (l: ScreenLayout)
    ensures
        l.title@ == "Tea time!"@,
        l.message@ == "You win!"@,
        l.nav == (MenuNav { index: 0, max: 3 }),
        l.buttons@.len() == 3,
        l.buttons@[0].0@ == "Play Again"@,
        l.buttons@[0].1 == (MenuButton { index: 0, action: ButtonAction::PlayAgain }),
        l.buttons@[1].0@ == "Main Menu"@,
        l.buttons@[1].1 == (MenuButton { index: 1, action: ButtonAction::MainMenu }),
        l.buttons@[2].0@ == "Exit"@,
        l.buttons@[2].1 == (MenuButton { index: 2, action: ButtonAction::Exit }),
        layout_well_formed(layout_buttons(l.buttons@), l.nav.max as int),
{
    let mut buttons: Vec<(&'static str, MenuButton)> = Vec::new();
    buttons.push(("Play Again", MenuButton { index: 0, action: ButtonAction::PlayAgain }));
    buttons.push(("Main Menu", MenuButton { index: 1, action: ButtonAction::MainMenu }));
    buttons.push(("Exit", MenuButton { index: 2, action: ButtonAction::Exit }));
    let l = ScreenLayout {
        title: "Tea time!",
        message: "You win!",
        nav: MenuNav { index: 0, max: 3 },
        buttons,
    };
    assert(layout_buttons(l.buttons@)[0] == l.buttons@[0].1);
    assert(layout_buttons(l.buttons@)[1] == l.buttons@[1].1);
    assert(layout_buttons(l.buttons@)[2] == l.buttons@[2].1);
    l
}

/// One frame of menu navigation on `screen`: moves the selection by the
/// keys, then to the last pressed or hovered button. On the first screen (the
/// main menu) any key goes to the win screen; otherwise, when "confirm" was
/// pressed or the selected button was clicked, performs the action of the
/// first button at the selection.
pub fn menu_navigation(
    screen: AppState,
    nav: &mut MenuNav,
    input: &NavInput,
    buttons: &Vec<MenuButton>,
) -> (out: MenuOutcome)
    requires
        input.down ==> old(nav).max >= 1,
    ensures
        final(nav).max == old(nav).max,
        final(nav).index as int == selection_after(
            old(nav).index as int,
            old(nav).max as int,
            input.up,
            input.down,
            input.pointer@,
        ),
        out == frame_outcome(
            screen,
            input.any_key,
            buttons@,
            final(nav).index as int,
            input.confirm || pressed_on(input.pointer@, final(nav).index as int),
        ),
        (forall|k: int| 0 <= k < input.pointer@.len() ==> (#[trigger] input.pointer@[k]).0 is Idle)
            && !input.up && !input.down ==> final(nav).index == old(nav).index,
        input.pointer@.len() > 0 && (input.pointer@.last().0 is Pressed
            || input.pointer@.last().0 is Hovered) ==> final(nav).index
            == input.pointer@.last().1,
        !(screen is Menu && input.any_key) && layout_well_formed(buttons@, old(nav).max as int)
            && final(nav).index < old(nav).max && (input.confirm || exists|k: int|
            0 <= k < input.pointer@.len() && (#[trigger] input.pointer@[k]).0 is Pressed
                && input.pointer@[k].1 == final(nav).index) ==> {
            let a = buttons@[final(nav).index as int].action;
            &&& (a is Play || a is PlayAgain) ==> out == MenuOutcome::Switch(AppState::Playing)
            &&& a is MainMenu ==> out == MenuOutcome::Switch(AppState::Menu)
            &&& a is Exit ==> out == MenuOutcome::Quit
        },
{
    let ghost start = nav.index as int;
    if input.up {
        nav.index = nav.index.saturating_sub(1);
    }
    if input.down {
        if nav.index < nav.max - 1 {
            nav.index = nav.index + 1;
        } else {
            nav.index = nav.max - 1;
        }
    }
    assert(nav.index as int == after_keys(start, nav.max as int, input.up, input.down));
    let ghost keyed = nav.index as int;

    let n: usize = input.pointer.len();
    let mut i: usize = 0;
    while i < n
        invariant
            n == input.pointer@.len(),
            0 <= i <= n,
            nav.max == old(nav).max,
            nav.index as int == after_pointer(keyed, input.pointer@.take(i as int)),
        decreases n - i,
    {
        let event = input.pointer[i];
        match event.0 {
            Interaction::Pressed | Interaction::Hovered => {
                nav.index = event.1;
            },
            Interaction::Idle => {},
        }
        assert(input.pointer@.take(i + 1).drop_last() =~= input.pointer@.take(i as int));
        i = i + 1;
    }
    assert(input.pointer@.take(n as int) =~= input.pointer@);
    let sel: usize = nav.index;

    let mut clicked: bool = false;
    let mut j: usize = 0;
    while j < n
        invariant
            n == input.pointer@.len(),
            0 <= j <= n,
            clicked == exists|k: int|
                0 <= k < j && (#[trigger] input.pointer@[k]).0 is Pressed && input.pointer@[k].1
                    == sel,
        decreases n - j,
    {
        let event = input.pointer[j];
        if event.1 == sel {
            if let Interaction::Pressed = event.0 {
                clicked = true;
            }
        }
        j = j + 1;
    }

    proof {
        if forall|k: int| 0 <= k < input.pointer@.len() ==> (#[trigger] input.pointer@[k]).0 is Idle {
            lemma_idle_events_keep_selection(keyed, input.pointer@);
        }
        if n > 0 {
            lemma_pointer_event_effect(keyed, input.pointer@.drop_last(), input.pointer@.last());
            assert(input.pointer@.drop_last().push(input.pointer@.last()) =~= input.pointer@);
        }
        if layout_well_formed(buttons@, old(nav).max as int) && sel < old(nav).max {
            lemma_well_formed_screen_confirms_selected(buttons@, old(nav).max as int, sel as int);
        }
    }
    let by_buttons: MenuOutcome = confirmed_outcome(buttons, sel, input.confirm || clicked);
    match screen {
        AppState::Menu => {
            if input.any_key {
                MenuOutcome::Switch(AppState::Win)
            } else {
                by_buttons
            }
        },
        _ => by_buttons,
    }
}

/// The outcome of a frame whose final selection is `sel`: when `confirmed`,
/// the action of the first button at `sel`, if there is one.
fn confirmed_outcome(buttons: &Vec<MenuButton>, sel: usize, confirmed: bool) -> (out: MenuOutcome)
    ensures
        out == navigation_outcome(buttons@, sel as int, confirmed),
{
    if !confirmed {
        return MenuOutcome::Stay;
    }
    let m: usize = buttons.len();
    let mut k: usize = 0;
    while k < m
        invariant
            m == buttons@.len(),
            0 <= k <= m,
            confirmed,
            forall|q: int| 0 <= q < k ==> (#[trigger] buttons@[q]).index != sel,
        decreases m - k,
    {
        let b = buttons[k];
        if b.index == sel {
            proof {
                lemma_first_with_index_unique(buttons@, sel as int, k as int);
            }
            return outcome_for(b.action);
        }
        k = k + 1;
    }
    MenuOutcome::Stay
}

/// The outcome of confirming a button with `action`.
fn outcome_for(action: ButtonAction) -> (out: MenuOutcome)
    ensures
        out == outcome_of(action),
{
    match action {
        ButtonAction::Play | ButtonAction::PlayAgain => MenuOutcome::Switch(AppState::Playing),
        ButtonAction::MainMenu => MenuOutcome::Switch(AppState::Menu),
        ButtonAction::Exit => MenuOutcome::Quit,
    }
}

/// The first position of a button with a given index is unique.
proof fn lemma_first_with_index_unique(buttons: Seq<MenuButton>, idx: int, k: int)
    requires
        is_first_with_index(buttons, idx, k),
    ensures
        action_at(buttons, idx) == Some(buttons[k].action),
{
    let c: int = choose|c: int| is_first_with_index(buttons, idx, c);
    assert(is_first_with_index(buttons, idx, c));
    if c < k {
        assert(buttons[c].index != idx);
    } else if k < c {
        assert(buttons[k].index != idx);
    }
}

/// The selection never leaves the screen: starting on one of its `max`
/// buttons, and with pointer events only on its buttons, a frame ends on one
/// of its buttons.
pub proof fn lemma_selection_stays_on_screen(
    index: int,
    max: int,
    up: bool,
    down: bool,
    events: Seq<(Interaction, usize)>,
)
    requires
        0 <= index < max,
        forall|j: int| 0 <= j < events.len() ==> (#[trigger] events[j]).1 < max,
    ensures
        0 <= selection_after(index, max, up, down, events) < max,
{
    lemma_after_pointer_in_range(after_keys(index, max, up, down), max, events);
}

proof fn lemma_after_pointer_in_range(index: int, max: int, events: Seq<(Interaction, usize)>)
    requires
        0 <= index < max,
        forall|j: int| 0 <= j < events.len() ==> (#[trigger] events[j]).1 < max,
    ensures
        0 <= after_pointer(index, events) < max,
    decreases events.len(),
{
    if events.len() > 0 {
        let rest = events.drop_last();
        assert forall|j: int| 0 <= j < rest.len() implies (#[trigger] rest[j]).1 < max by {
            assert(rest[j] == events[j]);
        }
        assert(events.last() == events[events.len() - 1]);
        lemma_after_pointer_in_range(index, max, rest);
    }
}

/// "Up" undoes "down" everywhere but on the last button, and "down" undoes
/// "up" everywhere but on the first; on the first button "up" stays, and on
/// the last button "down" stays.
pub proof fn lemma_up_and_down_are_inverse(index: int, max: int)
    requires
        0 <= index < max,
    ensures
        index < max - 1 ==> after_keys(after_keys(index, max, false, true), max, true, false)
            == index,
        0 < index ==> after_keys(after_keys(index, max, true, false), max, false, true) == index,
        after_keys(0, max, true, false) == 0,
        after_keys(max - 1, max, false, true) == max - 1,
{
}

/// A frame with no key and no pointer event keeps the selection and asks for nothing.
pub proof fn lemma_idle_frame_changes_nothing(
    screen: AppState,
    index: int,
    max: int,
    buttons: Seq<MenuButton>,
)
    ensures
        selection_after(index, max, false, false, Seq::empty()) == index,
        frame_outcome(screen, false, buttons, index, false || pressed_on(Seq::empty(), index))
            == MenuOutcome::Stay,
{
}

/// On a well-formed screen every selectable index has its button, and
/// confirming it performs exactly that button's action.
pub proof fn lemma_well_formed_screen_confirms_selected(buttons: Seq<MenuButton>, max: int, sel: int)
    requires
        layout_well_formed(buttons, max),
        0 <= sel < max,
    ensures
        action_at(buttons, sel) == Some(buttons[sel].action),
        navigation_outcome(buttons, sel, true) == outcome_of(buttons[sel].action),
{
    assert forall|j: int| 0 <= j < sel implies (#[trigger] buttons[j]).index != sel by {
        assert(buttons[j].index == j);
    }
    assert(buttons[sel].index == sel);
    lemma_first_with_index_unique(buttons, sel, sel);
}

/// On the first screen (the main menu) any key wins the game.
pub proof fn lemma_any_key_on_first_screen_wins(buttons: Seq<MenuButton>, sel: int, confirmed: bool)
    ensures
        frame_outcome(AppState::Menu, true, buttons, sel, confirmed) == MenuOutcome::Switch(
            AppState::Win,
        ),
{
}

/// A key on the first screen is the only way the menus declare the game won:
/// confirming a button starts a game, returns to the main menu, quits, or
/// does nothing.
pub proof fn lemma_menus_win_only_by_a_key_on_first_screen(
    screen: AppState,
    any_key: bool,
    buttons: Seq<MenuButton>,
    sel: int,
    confirmed: bool,
)
    ensures
        frame_outcome(screen, any_key, buttons, sel, confirmed) == MenuOutcome::Switch(
            AppState::Win,
        ) ==> screen is Menu && any_key,
        navigation_outcome(buttons, sel, confirmed) != MenuOutcome::Switch(AppState::Win),
{
}

/// A pointer event that is neither a press nor a hover never moves the
/// selection; a press or a hover moves it to its button.
pub proof fn lemma_pointer_event_effect(index: int, events: Seq<(Interaction, usize)>, e: (Interaction, usize))
    ensures
        e.0 is Idle ==> after_pointer(index, events.push(e)) == after_pointer(index, events),
        (e.0 is Pressed || e.0 is Hovered) ==> after_pointer(index, events.push(e)) == e.1,
{
    assert(events.push(e).drop_last() =~= events);
    assert(events.push(e).last() == e);
}

/// With no press and no hover among the pointer events, the selection is the
/// one left by the keys.
pub proof fn lemma_idle_events_keep_selection(index: int, events: Seq<(Interaction, usize)>)
    requires
        forall|k: int| 0 <= k < events.len() ==> (#[trigger] events[k]).0 is Idle,
    ensures
        after_pointer(index, events) == index,
    decreases events.len(),
{
    if events.len() > 0 {
        let rest = events.drop_last();
        assert forall|k: int| 0 <= k < rest.len() implies (#[trigger] rest[k]).0 is Idle by {
            assert(rest[k] == events[k]);
        }
        assert(events.last() == events[events.len() - 1]);
        lemma_idle_events_keep_selection(index, rest);
    }
}

/// Away from a key on the first screen, a confirmed frame on a well-formed
/// screen performs the selected button's action, whether the confirmation
/// came from the keyboard or from a press on the selected button; on the win
/// screen keys other than confirm play no part in it.
pub proof fn lemma_confirmed_frame_performs_selected_action(
    screen: AppState,
    any_key: bool,
    buttons: Seq<MenuButton>,
    max: int,
    sel: int,
    events: Seq<(Interaction, usize)>,
    confirm_key: bool,
)
    requires
        !(screen is Menu && any_key),
        layout_well_formed(buttons, max),
        0 <= sel < max,
        confirm_key || exists|k: int|
            0 <= k < events.len() && (#[trigger] events[k]).0 is Pressed && events[k].1 == sel,
    ensures
        ({
            let out = frame_outcome(screen, any_key, buttons, sel, confirm_key || pressed_on(events, sel));
            let a = buttons[sel].action;
            &&& (a is Play || a is PlayAgain) ==> out == MenuOutcome::Switch(AppState::Playing)
            &&& a is MainMenu ==> out == MenuOutcome::Switch(AppState::Menu)
            &&& a is Exit ==> out == MenuOutcome::Quit
        }),
        screen is Win ==> frame_outcome(screen, true, buttons, sel, confirm_key || pressed_on(events, sel))
            == frame_outcome(screen, false, buttons, sel, confirm_key || pressed_on(events, sel)),
{
    lemma_well_formed_screen_confirms_selected(buttons, max, sel);
}

} // verus!
