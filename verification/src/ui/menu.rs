//! Menu system: main menu and pause menu.

use vstd::prelude::*;

verus! {

/// Screens of the main menu
#[derive(Debug, Clone, Copy, PartialEq, Eq, Structural)]
pub enum MenuScreen {
    Main,
    Play,
    Settings,
    Controls,
    LoadGame,
    SaveGame,
    Credits,
}

/// Menu action result
#[derive(Debug, Clone, PartialEq, Eq)]
pub enum MenuAction {
    NoAction,
    StartGame,
    LoadGame(String),
    SaveGame(String),
    NavigateTo(MenuScreen),
    ApplySettings,
    Quit,
}

/// What confirming item `selected` of the main screen does.
pub open spec fn main_selection_action(selected: usize) -> MenuAction {
    if selected == 0 {
        MenuAction::NavigateTo(MenuScreen::Play)
    } else if selected == 1 {
        MenuAction::NavigateTo(MenuScreen::Settings)
    } else if selected == 2 {
        MenuAction::NavigateTo(MenuScreen::Controls)
    } else if selected == 3 {
        MenuAction::NavigateTo(MenuScreen::LoadGame)
    } else if selected == 4 {
        MenuAction::Quit
    } else {
        MenuAction::NoAction
    }
}

/// What confirming item `selected` of `screen` does.
pub open spec fn confirm_action(screen: MenuScreen, selected: usize) -> MenuAction {
    match screen {
        MenuScreen::Main => main_selection_action(selected),
        MenuScreen::Play => MenuAction::StartGame,
        _ => MenuAction::NoAction,
    }
}

/// The labels listed on `screen`, top to bottom.
pub open spec fn menu_items(screen: MenuScreen) -> Seq<Seq<char>> {
    match screen {
        MenuScreen::Main => seq!["Play"@, "Settings"@, "Controls"@, "Load Game"@, "Quit"@],
        MenuScreen::Play => seq!["New Game"@, "Quick Drive"@, "Back"@],
        MenuScreen::Settings => seq!["Graphics"@, "Audio"@, "Gameplay"@, "Back"@],
        MenuScreen::Controls => seq![
            "Keyboard/Mouse"@,
            "Gamepad"@,
            "Reset to Default"@,
            "Back"@,
        ],
        MenuScreen::LoadGame => Seq::empty(),
        MenuScreen::SaveGame => Seq::empty(),
        MenuScreen::Credits => seq!["Back"@],
    }
}

/// The labels of the pause menu, top to bottom.
pub open spec fn pause_menu_items() -> Seq<Seq<char>> {
    seq!["Resume"@, "Settings"@, "Save Game"@, "Load Game"@, "Main Menu"@, "Quit"@]
}

/// The views of a list of labels.
pub open spec fn labels(items: Seq<&str>) -> Seq<Seq<char>> {
    items.map_values(|s: &str| s@)
}

/// `menu` with its visibility set to `visible`.
pub open spec fn menu_with_visible(menu: MainMenu, visible: bool) -> MainMenu {
    MainMenu { visible, ..menu }
}

/// `menu` showing `screen` with its first item selected.
pub open spec fn menu_at_screen(menu: MainMenu, screen: MenuScreen) -> MainMenu {
    MainMenu { current_screen: screen, selected_item: 0, ..menu }
}

/// `menu` with the selection moved up one item, staying on the first item.
pub open spec fn menu_selected_up(menu: MainMenu) -> MainMenu {
    MainMenu {
        selected_item: if menu.selected_item > 0 {
            (menu.selected_item - 1) as usize
        } else {
            0
        },
        ..menu
    }
}

/// `menu` with the selection moved down one item.
pub open spec fn menu_selected_down(menu: MainMenu) -> MainMenu {
    MainMenu { selected_item: (menu.selected_item + 1) as usize, ..menu }
}

/// Main menu state
#[derive(Debug, Clone, Copy, PartialEq, Eq, Structural)]
pub struct MainMenu {
    /// Is menu visible?
    pub visible: bool,
    /// Current menu screen
    pub current_screen: MenuScreen,
    /// Selected menu item
    pub selected_item: usize,
}

impl Default for MainMenu {
    fn default() -> (menu: Self)
        ensures
            menu == (MainMenu { visible: true, current_screen: MenuScreen::Main, selected_item: 0 }),
    {
        MainMenu { visible: true, current_screen: MenuScreen::Main, selected_item: 0 }
    }
}

impl MainMenu {
    /// Create new main menu: visible, on the main screen, first item selected
    pub fn new() -> (menu: Self)
        ensures
            menu == (MainMenu { visible: true, current_screen: MenuScreen::Main, selected_item: 0 }),
    {
        Self::default()
    }

    /// Show menu
    pub fn show(&mut self)
        ensures
            *final(self) == menu_with_visible(*old(self), true),
    {
        self.visible = true;
    }

    /// Hide menu
    pub fn hide_menu(&mut self)
        ensures
            *final(self) == menu_with_visible(*old(self), false),
    {
        self.visible = false;
    }

    /// Toggle menu visibility
    pub fn toggle(&mut self)
        ensures
            *final(self) == menu_with_visible(*old(self), !old(self).visible),
    {
        self.visible = !self.visible;
    }

    /// Navigate to a screen; the first item becomes selected
    pub fn navigate_to(&mut self, screen: MenuScreen)
        ensures
            *final(self) == menu_at_screen(*old(self), screen),
    {
        self.current_screen = screen;
        self.selected_item = 0;
    }

    /// Go back to the main screen; the first item becomes selected
    pub fn go_back(&mut self)
        ensures
            *final(self) == menu_at_screen(*old(self), MenuScreen::Main),
    {
        self.current_screen = MenuScreen::Main;
        self.selected_item = 0;
    }

    /// Move selection up; the first item stays selected
    pub fn select_up(&mut self)
        ensures
            *final(self) == menu_selected_up(*old(self)),
    {
        if self.selected_item > 0 {
            self.selected_item -= 1;
        }
    }

    /// Move selection down (not bounded by the number of items)
    pub fn select_down(&mut self)
        requires
            old(self).selected_item < usize::MAX,
        ensures
            *final(self) == menu_selected_down(*old(self)),
    {
        self.selected_item += 1;
    }

    /// Confirm selection
    pub fn confirm(&mut self) -> (action: MenuAction)
        ensures
            *final(self) == *old(self),
            action == confirm_action(old(self).current_screen, old(self).selected_item),
    {
        match self.current_screen {
            MenuScreen::Main => self.handle_main_menu_selection(),
            MenuScreen::Play => MenuAction::StartGame,
            MenuScreen::Settings => MenuAction::NoAction,
            MenuScreen::Controls => MenuAction::NoAction,
            MenuScreen::LoadGame => MenuAction::NoAction,
            MenuScreen::SaveGame => MenuAction::NoAction,
            MenuScreen::Credits => MenuAction::NoAction,
        }
    }

    fn handle_main_menu_selection(&mut self) -> (action: MenuAction)
        ensures
            *final(self) == *old(self),
            action == main_selection_action(old(self).selected_item),
    {
        match self.selected_item {
            0 => MenuAction::NavigateTo(MenuScreen::Play),
            1 => MenuAction::NavigateTo(MenuScreen::Settings),
            2 => MenuAction::NavigateTo(MenuScreen::Controls),
            3 => MenuAction::NavigateTo(MenuScreen::LoadGame),
            4 => MenuAction::Quit,
            _ => MenuAction::NoAction,
        }
    }

    /// Get menu items for current screen
    pub fn get_items(&self) -> (items: Vec<&str>)
        ensures
            labels(items@) == menu_items(self.current_screen),
    {
        let items: Vec<&str> = match self.current_screen {
            MenuScreen::Main => vec!["Play", "Settings", "Controls", "Load Game", "Quit"],
            MenuScreen::Play => vec!["New Game", "Quick Drive", "Back"],
            MenuScreen::Settings => vec!["Graphics", "Audio", "Gameplay", "Back"],
            MenuScreen::Controls => vec!["Keyboard/Mouse", "Gamepad", "Reset to Default", "Back"],
            MenuScreen::LoadGame => Vec::new(),
            MenuScreen::SaveGame => Vec::new(),
            MenuScreen::Credits => vec!["Back"],
        };
        assert(labels(items@) =~= menu_items(self.current_screen));
        items
    }
}

/// Toggling visibility twice gives back the menu one started from.
pub proof fn lemma_menu_toggle_twice(menu: MainMenu)
    ensures
        ({
            let once = menu_with_visible(menu, !menu.visible);
            menu_with_visible(once, !once.visible) == menu
        }),
{
}

/// Moving the selection down and then up gives back the menu one started
/// from; moving up never selects before the first item.
pub proof fn lemma_menu_selection_moves(menu: MainMenu)
    ensures
        menu.selected_item < usize::MAX ==> menu_selected_up(menu_selected_down(menu)) == menu,
        menu_selected_up(menu).selected_item <= menu.selected_item,
        menu.selected_item == 0 ==> menu_selected_up(menu) == menu,
{
}

/// Going back always leads to the main screen with its first item selected,
/// whatever screen was shown; confirming there then does what the first
/// main item does (open the play screen).
pub proof fn lemma_menu_back_to_main(menu: MainMenu, screen: MenuScreen)
    ensures
        menu_at_screen(menu_at_screen(menu, screen), MenuScreen::Main) == menu_at_screen(
            menu,
            MenuScreen::Main,
        ),
        confirm_action(
            menu_at_screen(menu, MenuScreen::Main).current_screen,
            menu_at_screen(menu, MenuScreen::Main).selected_item,
        ) == MenuAction::NavigateTo(MenuScreen::Play),
{
}

/// Pause menu
#[derive(Debug, Clone, Copy, PartialEq, Eq, Structural)]
pub struct PauseMenu {
    /// Is pause menu visible?
    pub visible: bool,
    /// Selected item
    pub selected_item: usize,
}

impl Default for PauseMenu {
    fn default() -> (menu: Self)
        ensures
            menu == (PauseMenu { visible: false, selected_item: 0 }),
    {
        PauseMenu { visible: false, selected_item: 0 }
    }
}

impl PauseMenu {
    /// A hidden pause menu with the first item selected
    pub fn new() -> (menu: Self)
        ensures
            menu == (PauseMenu { visible: false, selected_item: 0 }),
    {
        Self::default()
    }

    pub fn show(&mut self)
        ensures
            *final(self) == (PauseMenu { visible: true, ..*old(self) }),
    {
        self.visible = true;
    }

    pub fn hide_menu(&mut self)
        ensures
            *final(self) == (PauseMenu { visible: false, ..*old(self) }),
    {
        self.visible = false;
    }

    pub fn toggle(&mut self)
        ensures
            *final(self) == (PauseMenu { visible: !old(self).visible, ..*old(self) }),
    {
        self.visible = !self.visible;
    }

    pub fn get_items(&self) -> (items: Vec<&str>)
        ensures
            labels(items@) == pause_menu_items(),
    {
        let items: Vec<&str> = vec![
            "Resume",
            "Settings",
            "Save Game",
            "Load Game",
            "Main Menu",
            "Quit",
        ];
        assert(labels(items@) =~= pause_menu_items());
        items
    }
}

/// Confirming a main-menu item does what its label says: "Play",
/// "Settings", "Controls" and "Load Game" open those screens and "Quit"
/// quits; past the last item nothing happens. On the play screen
/// confirming starts the game; on every other screen it does nothing.
pub proof fn lemma_confirm_follows_labels(screen: MenuScreen, selected: usize)
    ensures
        menu_items(MenuScreen::Main) == seq!["Play"@, "Settings"@, "Controls"@, "Load Game"@, "Quit"@],
        main_selection_action(0) == MenuAction::NavigateTo(MenuScreen::Play),
        main_selection_action(1) == MenuAction::NavigateTo(MenuScreen::Settings),
        main_selection_action(2) == MenuAction::NavigateTo(MenuScreen::Controls),
        main_selection_action(3) == MenuAction::NavigateTo(MenuScreen::LoadGame),
        main_selection_action(4) == MenuAction::Quit,
        selected >= menu_items(MenuScreen::Main).len() ==> main_selection_action(selected)
            == MenuAction::NoAction,
        screen == MenuScreen::Main ==> confirm_action(screen, selected) == main_selection_action(
            selected,
        ),
        screen == MenuScreen::Play ==> confirm_action(screen, selected) == MenuAction::StartGame,
        screen != MenuScreen::Main && screen != MenuScreen::Play ==> confirm_action(screen, selected)
            == MenuAction::NoAction,
{
}

/// What each screen lists: play, settings and controls screens end with
/// "Back" (the credits list only it), the load and save screens list
/// nothing, and the pause menu lists resume, settings, save, load, main
/// menu and quit.
pub proof fn lemma_screen_items()
    ensures
        menu_items(MenuScreen::Play) == seq!["New Game"@, "Quick Drive"@, "Back"@],
        menu_items(MenuScreen::Settings) == seq!["Graphics"@, "Audio"@, "Gameplay"@, "Back"@],
        menu_items(MenuScreen::Controls) == seq![
            "Keyboard/Mouse"@,
            "Gamepad"@,
            "Reset to Default"@,
            "Back"@,
        ],
        menu_items(MenuScreen::Credits) == seq!["Back"@],
        menu_items(MenuScreen::LoadGame).len() == 0,
        menu_items(MenuScreen::SaveGame).len() == 0,
        pause_menu_items() == seq![
            "Resume"@,
            "Settings"@,
            "Save Game"@,
            "Load Game"@,
            "Main Menu"@,
            "Quit"@,
        ],
{
}

} // verus!
