use vstd::prelude::*;

verus! {

#[derive(Clone, Copy, PartialEq, Eq, Structural, Debug)]
pub enum ItemMenuResult {
    Cancel,
    NoResponse,
    Selected,
}

#[derive(Clone, Copy, PartialEq, Eq, Structural, Debug)]
pub enum MainMenuSelection {
    NewGame,
    LoadGame,
    Quit,
}

#[derive(Clone, Copy, PartialEq, Eq, Structural, Debug)]
pub enum MainMenuResult {
    NoSelection { selected: MainMenuSelection },
    Selected { selected: MainMenuSelection },
}

#[derive(Clone, Copy, PartialEq, Eq, Structural, Debug)]
pub enum GameOverResult {
    NoSelection,
    QuitToMenu,
}

#[derive(Clone, Copy, PartialEq, Eq, Structural, Debug)]
pub enum InteractionMenuResult {
    Cancel,
    NoResponse,
    Selected,
}

/// The keys a menu reacts to.
#[derive(Clone, Copy, PartialEq, Eq, Structural, Debug)]
pub enum MenuKey {
    Escape,
    Up,
    Down,
    Return,
    Other,
}

/// The entry above: the list wraps around, and the load entry is skipped when
/// there is no saved game.
pub open spec fn spec_menu_up(selection: MainMenuSelection, save_exists: bool) -> MainMenuSelection {
    let s = match selection {
        MainMenuSelection::NewGame => MainMenuSelection::Quit,
        MainMenuSelection::LoadGame => MainMenuSelection::NewGame,
        MainMenuSelection::Quit => MainMenuSelection::LoadGame,
    };
    if s == MainMenuSelection::LoadGame && !save_exists {
        MainMenuSelection::NewGame
    } else {
        s
    }
}

/// The entry below: the list wraps around, and the load entry is skipped when
/// there is no saved game.
pub open spec fn spec_menu_down(selection: MainMenuSelection, save_exists: bool) -> MainMenuSelection {
    let s = match selection {
        MainMenuSelection::NewGame => MainMenuSelection::LoadGame,
        MainMenuSelection::LoadGame => MainMenuSelection::Quit,
        MainMenuSelection::Quit => MainMenuSelection::NewGame,
    };
    if s == MainMenuSelection::LoadGame && !save_exists {
        MainMenuSelection::Quit
    } else {
        s
    }
}

/// What the main menu answers to a key press (`None`: no key pressed).
pub open spec fn spec_main_menu(selection: MainMenuSelection, key: Option<MenuKey>, save_exists: bool) -> MainMenuResult {
    match key {
        None => MainMenuResult::NoSelection { selected: selection },
        Some(MenuKey::Escape) => MainMenuResult::NoSelection { selected: MainMenuSelection::Quit },
        Some(MenuKey::Up) => MainMenuResult::NoSelection { selected: spec_menu_up(selection, save_exists) },
        Some(MenuKey::Down) => MainMenuResult::NoSelection { selected: spec_menu_down(selection, save_exists) },
        Some(MenuKey::Return) => MainMenuResult::Selected { selected: selection },
        Some(MenuKey::Other) => MainMenuResult::NoSelection { selected: selection },
    }
}

/// The main menu's answer to a key press, given the entry highlighted and
/// whether a saved game exists.
pub fn main_menu_choice(selection: MainMenuSelection, key: Option<MenuKey>, save_exists: bool) -> (r: MainMenuResult)
    ensures
        r == spec_main_menu(selection, key, save_exists),
{
    match key {
        None => MainMenuResult::NoSelection { selected: selection },
        Some(k) => match k {
            MenuKey::Escape => MainMenuResult::NoSelection { selected: MainMenuSelection::Quit },
            MenuKey::Up => {
                let mut newselection;
                match selection {
                    MainMenuSelection::NewGame => newselection = MainMenuSelection::Quit,
                    MainMenuSelection::LoadGame => newselection = MainMenuSelection::NewGame,
                    MainMenuSelection::Quit => newselection = MainMenuSelection::LoadGame,
                }
                if newselection == MainMenuSelection::LoadGame && !save_exists {
                    newselection = MainMenuSelection::NewGame;
                }
                MainMenuResult::NoSelection { selected: newselection }
            },
            MenuKey::Down => {
                let mut newselection;
                match selection {
                    MainMenuSelection::NewGame => newselection = MainMenuSelection::LoadGame,
                    MainMenuSelection::LoadGame => newselection = MainMenuSelection::Quit,
                    MainMenuSelection::Quit => newselection = MainMenuSelection::NewGame,
                }
                if newselection == MainMenuSelection::LoadGame && !save_exists {
                    newselection = MainMenuSelection::Quit;
                }
                MainMenuResult::NoSelection { selected: newselection }
            },
            MenuKey::Return => MainMenuResult::Selected { selected: selection },
            MenuKey::Other => MainMenuResult::NoSelection { selected: selection },
        },
    }
}

/// Moving up then down (or down then up) comes back to the entry one started
/// from, as long as that entry is shown (the load entry is shown only when a
/// saved game exists); and neither move lands on a hidden entry.
pub proof fn lemma_menu_up_down_inverse(selection: MainMenuSelection, save_exists: bool)
    requires
        selection == MainMenuSelection::LoadGame ==> save_exists,
    ensures
        spec_menu_down(spec_menu_up(selection, save_exists), save_exists) == selection,
        spec_menu_up(spec_menu_down(selection, save_exists), save_exists) == selection,
        spec_menu_up(selection, save_exists) == MainMenuSelection::LoadGame ==> save_exists,
        spec_menu_down(selection, save_exists) == MainMenuSelection::LoadGame ==> save_exists,
{
}

/// The game over screen leaves on any key.
pub fn game_over_choice(key_pressed: bool) -> (r: GameOverResult)
    ensures
        r == if key_pressed { GameOverResult::QuitToMenu } else { GameOverResult::NoSelection },
{
    if key_pressed {
        GameOverResult::QuitToMenu
    } else {
        GameOverResult::NoSelection
    }
}

/// The entry of a lettered list that a letter picks: the letter's rank (as
/// `rltk::letter_to_option` gives it, -1 for a key that is no letter) if it is
/// within the `count` entries shown.
pub fn letter_pick(selection: i32, count: usize) -> (r: Option<usize>)
    ensures
        r is Some <==> 0 <= selection < count,
        r matches Some(i) ==> i == selection,
{
    if selection > -1 && (selection as usize) < count {
        Some(selection as usize)
    } else {
        None
    }
}

/// The answer of a lettered menu to a key: nothing without a key; cancel on
/// escape; otherwise the entry the letter picks (`letter` is its rank, -1 for
/// a key that is no letter), or nothing if it picks none of the `count` entries.
pub open spec fn spec_item_menu_choice(key: Option<MenuKey>, letter: i32, count: usize) -> (ItemMenuResult, Option<usize>) {
    match key {
        None => (ItemMenuResult::NoResponse, None),
        Some(MenuKey::Escape) => (ItemMenuResult::Cancel, None),
        Some(_) => if 0 <= letter < count {
            (ItemMenuResult::Selected, Some(letter as usize))
        } else {
            (ItemMenuResult::NoResponse, None)
        },
    }
}

/// The inventory, drop and remove menus' answer to a key (see `spec_item_menu_choice`).
pub fn item_menu_choice(key: Option<MenuKey>, letter: i32, count: usize) -> (r: (ItemMenuResult, Option<usize>))
    ensures
        r == spec_item_menu_choice(key, letter, count),
{
    match key {
        None => (ItemMenuResult::NoResponse, None),
        Some(MenuKey::Escape) => (ItemMenuResult::Cancel, None),
        Some(_) => match letter_pick(letter, count) {
            Some(i) => (ItemMenuResult::Selected, Some(i)),
            None => (ItemMenuResult::NoResponse, None),
        },
    }
}

/// The interaction menu's answer to a key: as an item menu's.
pub fn interaction_menu_choice(key: Option<MenuKey>, letter: i32, count: usize) -> (r: (InteractionMenuResult, Option<usize>))
    ensures
        r.1 == spec_item_menu_choice(key, letter, count).1,
        r.0 == match spec_item_menu_choice(key, letter, count).0 {
            ItemMenuResult::Cancel => InteractionMenuResult::Cancel,
            ItemMenuResult::NoResponse => InteractionMenuResult::NoResponse,
            ItemMenuResult::Selected => InteractionMenuResult::Selected,
        },
{
    let (res, pick) = item_menu_choice(key, letter, count);
    let r = match res {
        ItemMenuResult::Cancel => InteractionMenuResult::Cancel,
        ItemMenuResult::NoResponse => InteractionMenuResult::NoResponse,
        ItemMenuResult::Selected => InteractionMenuResult::Selected,
    };
    (r, pick)
}

/// The length of the longest line, 0 for none.
pub open spec fn longest(lens: Seq<usize>) -> int
    decreases lens.len(),
{
    if lens.len() == 0 {
        0
    } else {
        let rest = longest(lens.drop_last());
        if rest < lens.last() { lens.last() as int } else { rest }
    }
}

/// Where a tooltip goes beside the mouse: its width, whether it stands to the
/// left of the mouse, the column of its text and of its arrow, and for each
/// line the number of blank cells that pad it out to the width.
pub struct TooltipLayout {
    pub width: i32,
    pub on_left: bool,
    pub text_x: i32,
    pub arrow_x: i32,
    pub paddings: Vec<i32>,
}

/// Lays out a tooltip of lines of the given lengths for the mouse at column
/// `mouse_x`: three cells wider than its longest line, to the left of the
/// mouse past column 40 and to its right otherwise.
pub fn tooltip_layout(mouse_x: i32, lens: &Vec<usize>) -> (r: TooltipLayout)
    requires
        forall|i: int| 0 <= i < lens@.len() ==> #[trigger] lens@[i] <= i32::MAX - 3,
    ensures
        r.width == longest(lens@) + 3,
        r.on_left == (mouse_x > 40),
        r.on_left ==> r.text_x == mouse_x - r.width && r.arrow_x == mouse_x - 2,
        !r.on_left ==> r.text_x == mouse_x + 4 && r.arrow_x == mouse_x + 1,
        r.paddings@.len() == lens@.len(),
        forall|i: int| 0 <= i < lens@.len() ==> #[trigger] r.paddings@[i] == r.width - lens@[i] - 1,
{
    let mut longest_len: usize = 0;
    let mut i: usize = 0;
    while i < lens.len()
        invariant
            0 <= i <= lens@.len(),
            longest_len == longest(lens@.take(i as int)),
            longest_len <= i32::MAX - 3,
            forall|k: int| 0 <= k < lens@.len() ==> #[trigger] lens@[k] <= i32::MAX - 3,
        decreases lens.len() - i,
    {
        assert(lens@.take(i + 1).drop_last() =~= lens@.take(i as int));
        if longest_len < lens[i] {
            longest_len = lens[i];
        }
        i = i + 1;
    }
    assert(lens@.take(lens@.len() as int) =~= lens@);
    let width: i32 = longest_len as i32 + 3;
    let on_left = mouse_x > 40;
    let (text_x, arrow_x) = if on_left {
        (mouse_x - width, mouse_x - 2)
    } else {
        (mouse_x + 4, mouse_x + 1)
    };
    let mut paddings: Vec<i32> = Vec::new();
    let mut j: usize = 0;
    while j < lens.len()
        invariant
            0 <= j <= lens@.len(),
            width == longest(lens@) + 3,
            paddings@.len() == j,
            forall|k: int| 0 <= k < lens@.len() ==> #[trigger] lens@[k] <= i32::MAX - 3,
            forall|k: int| 0 <= k < j ==> #[trigger] paddings@[k] == width - lens@[k] - 1,
        decreases lens.len() - j,
    {
        let len_i: i32 = lens[j] as i32;
        paddings.push(width - len_i - 1);
        j = j + 1;
    }
    TooltipLayout { width, on_left, text_x, arrow_x, paddings }
}

} // verus!
