use offroad_frontier::ui::hud::{SpeedUnit, HUD};
use offroad_frontier::ui::menu::{MainMenu, MenuAction, MenuScreen, PauseMenu};

#[test]
fn hud_new_shows_default_gauges() {
    let hud = HUD::new();
    assert!(hud.show_speedometer);
    assert!(hud.show_gear);
    assert!(hud.show_fuel);
    assert!(hud.show_winch);
    assert!(!hud.show_weather);
    assert!(!hud.show_coordinates);
    assert_eq!(hud.speed_unit, SpeedUnit::Kmh);
}

#[test]
fn hud_gear_strings() {
    let hud = HUD::new();
    assert_eq!(hud.get_gear_string(-1), "R");
    assert_eq!(hud.get_gear_string(0), "N");
    assert_eq!(hud.get_gear_string(1), "1");
    assert_eq!(hud.get_gear_string(5), "5");
    assert_eq!(hud.get_gear_string(12), "12");
    assert_eq!(hud.get_gear_string(127), "127");
    assert_eq!(hud.get_gear_string(-2), "-2");
    assert_eq!(hud.get_gear_string(-128), "-128");
    assert_eq!(hud.get_gear_string(100), "100");
    assert_eq!(hud.get_gear_string(-10), "-10");
}

#[test]
fn hud_gear_strings_match_format_for_all_gears() {
    let hud = HUD::new();
    for g in i8::MIN..=i8::MAX {
        let expected = match g {
            -1 => "R".to_string(),
            0 => "N".to_string(),
            _ => format!("{}", g),
        };
        assert_eq!(hud.get_gear_string(g), expected);
    }
}

#[test]
fn hud_toggles_flip_one_flag() {
    let mut hud = HUD::new();
    hud.toggle_speedometer();
    assert!(!hud.show_speedometer);
    assert!(hud.show_fuel);
    hud.toggle_fuel();
    assert!(!hud.show_fuel);
    hud.toggle_winch();
    assert!(!hud.show_winch);
    assert!(hud.show_gear);
    hud.toggle_speedometer();
    hud.toggle_fuel();
    hud.toggle_winch();
    assert_eq!(hud, HUD::new());
}

#[test]
fn hud_toggle_minimap_changes_nothing() {
    let mut hud = HUD::new();
    hud.toggle_minimap();
    assert_eq!(hud, HUD::new());
}

#[test]
fn hud_speed_unit_cycles_with_period_two() {
    let mut hud = HUD::new();
    hud.cycle_speed_units();
    assert_eq!(hud.speed_unit, SpeedUnit::Mph);
    hud.cycle_speed_units();
    assert_eq!(hud.speed_unit, SpeedUnit::Kmh);
}

#[test]
fn main_menu_new_state() {
    let menu = MainMenu::new();
    assert!(menu.visible);
    assert_eq!(menu.current_screen, MenuScreen::Main);
    assert_eq!(menu.selected_item, 0);
}

#[test]
fn main_menu_visibility() {
    let mut menu = MainMenu::new();
    menu.hide_menu();
    assert!(!menu.visible);
    menu.show();
    assert!(menu.visible);
    menu.toggle();
    assert!(!menu.visible);
    menu.toggle();
    assert!(menu.visible);
}

#[test]
fn main_menu_navigation_resets_selection() {
    let mut menu = MainMenu::new();
    menu.select_down();
    menu.select_down();
    assert_eq!(menu.selected_item, 2);
    menu.navigate_to(MenuScreen::Settings);
    assert_eq!(menu.current_screen, MenuScreen::Settings);
    assert_eq!(menu.selected_item, 0);
    menu.select_down();
    menu.go_back();
    assert_eq!(menu.current_screen, MenuScreen::Main);
    assert_eq!(menu.selected_item, 0);
}

#[test]
fn main_menu_select_up_stops_at_first_item() {
    let mut menu = MainMenu::new();
    menu.select_up();
    assert_eq!(menu.selected_item, 0);
    menu.select_down();
    menu.select_down();
    menu.select_down();
    menu.select_up();
    assert_eq!(menu.selected_item, 2);
}

#[test]
fn main_menu_confirm_on_main_screen() {
    let mut menu = MainMenu::new();
    let expected = [
        MenuAction::NavigateTo(MenuScreen::Play),
        MenuAction::NavigateTo(MenuScreen::Settings),
        MenuAction::NavigateTo(MenuScreen::Controls),
        MenuAction::NavigateTo(MenuScreen::LoadGame),
        MenuAction::Quit,
        MenuAction::NoAction,
        MenuAction::NoAction,
    ];
    for action in expected.iter() {
        assert_eq!(&menu.confirm(), action);
        menu.select_down();
    }
}

#[test]
fn main_menu_confirm_on_other_screens() {
    let mut menu = MainMenu::new();
    menu.navigate_to(MenuScreen::Play);
    assert_eq!(menu.confirm(), MenuAction::StartGame);
    for screen in [
        MenuScreen::Settings,
        MenuScreen::Controls,
        MenuScreen::LoadGame,
        MenuScreen::SaveGame,
        MenuScreen::Credits,
    ] {
        menu.navigate_to(screen);
        assert_eq!(menu.confirm(), MenuAction::NoAction);
    }
    // confirming does not move the menu
    assert_eq!(menu.current_screen, MenuScreen::Credits);
    assert_eq!(menu.selected_item, 0);
}

#[test]
fn main_menu_items_per_screen() {
    let mut menu = MainMenu::new();
    assert_eq!(menu.get_items(), vec!["Play", "Settings", "Controls", "Load Game", "Quit"]);
    menu.navigate_to(MenuScreen::Play);
    assert_eq!(menu.get_items(), vec!["New Game", "Quick Drive", "Back"]);
    menu.navigate_to(MenuScreen::Settings);
    assert_eq!(menu.get_items(), vec!["Graphics", "Audio", "Gameplay", "Back"]);
    menu.navigate_to(MenuScreen::Controls);
    assert_eq!(
        menu.get_items(),
        vec!["Keyboard/Mouse", "Gamepad", "Reset to Default", "Back"]
    );
    menu.navigate_to(MenuScreen::LoadGame);
    assert!(menu.get_items().is_empty());
    menu.navigate_to(MenuScreen::SaveGame);
    assert!(menu.get_items().is_empty());
    menu.navigate_to(MenuScreen::Credits);
    assert_eq!(menu.get_items(), vec!["Back"]);
}

#[test]
fn pause_menu_behaviour() {
    let mut pause = PauseMenu::new();
    assert!(!pause.visible);
    assert_eq!(pause.selected_item, 0);
    pause.show();
    assert!(pause.visible);
    pause.hide_menu();
    assert!(!pause.visible);
    pause.toggle();
    assert!(pause.visible);
    pause.toggle();
    assert!(!pause.visible);
    assert_eq!(
        pause.get_items(),
        vec!["Resume", "Settings", "Save Game", "Load Game", "Main Menu", "Quit"]
    );
}

#[test]
fn hud_visible_elements_follow_switches() {
    let hud = HUD::new();
    let e = hud.visible_elements(false);
    assert!(e.speed && e.rpm && e.gear && e.fuel && e.winch_active && e.health);
    assert!(!e.winch_tension && !e.weather && !e.temperature && !e.coordinates);
    assert!(hud.visible_elements(true).winch_tension);
    let mut hidden = hud;
    hidden.show_winch = false;
    hidden.show_speedometer = false;
    let h = hidden.visible_elements(true);
    assert!(!h.winch_tension && !h.winch_active && !h.speed && !h.rpm && h.health);
}
