use window_menu::configurator::{
    configure_window_menu, decide, find_item_titled, str_eq, ConfigureAction, MenuBar, MenuItem,
    MenuState,
};

fn item(title: &str, submenu: Option<u64>) -> MenuItem {
    MenuItem {
        title: String::from(title),
        submenu,
    }
}

fn bar(items: Vec<MenuItem>) -> Option<MenuBar> {
    Some(MenuBar { items })
}

#[test]
fn missing_menu_bar_warns_and_changes_nothing() {
    let mut state = MenuState {
        main_menu: None,
        windows_menu: Some(7),
    };
    let warned = configure_window_menu(&mut state);
    assert!(warned);
    assert_eq!(state.windows_menu, Some(7));
    assert!(state.main_menu.is_none());
}

#[test]
fn no_window_item_is_silent_and_changes_nothing() {
    let mut state = MenuState {
        main_menu: bar(vec![item("File", Some(1)), item("Edit", Some(2))]),
        windows_menu: Some(7),
    };
    let warned = configure_window_menu(&mut state);
    assert!(!warned);
    assert_eq!(state.windows_menu, Some(7));
}

#[test]
fn window_item_designates_its_submenu() {
    let mut state = MenuState {
        main_menu: bar(vec![
            item("File", Some(1)),
            item("Edit", Some(2)),
            item("Window", Some(42)),
        ]),
        windows_menu: None,
    };
    let warned = configure_window_menu(&mut state);
    assert!(!warned);
    assert_eq!(state.windows_menu, Some(42));
}

#[test]
fn lowercase_window_does_not_match() {
    let mut state = MenuState {
        main_menu: bar(vec![item("File", Some(1)), item("window", Some(9))]),
        windows_menu: Some(7),
    };
    let warned = configure_window_menu(&mut state);
    assert!(!warned);
    assert_eq!(state.windows_menu, Some(7));
}

#[test]
fn first_window_item_wins() {
    let mut state = MenuState {
        main_menu: bar(vec![item("Window", Some(1)), item("Window", Some(2))]),
        windows_menu: None,
    };
    let warned = configure_window_menu(&mut state);
    assert!(!warned);
    assert_eq!(state.windows_menu, Some(1));
}

#[test]
fn window_item_without_submenu_designates_none() {
    let mut state = MenuState {
        main_menu: bar(vec![item("Window", None)]),
        windows_menu: Some(9),
    };
    let warned = configure_window_menu(&mut state);
    assert!(!warned);
    assert_eq!(state.windows_menu, None);
}

#[test]
fn second_invocation_yields_same_end_state() {
    let mut state = MenuState {
        main_menu: bar(vec![item("Edit", Some(3)), item("Window", Some(42))]),
        windows_menu: None,
    };
    let first_warned = configure_window_menu(&mut state);
    let after_first = state.windows_menu;
    let second_warned = configure_window_menu(&mut state);
    assert_eq!(state.windows_menu, after_first);
    assert_eq!(state.windows_menu, Some(42));
    assert_eq!(first_warned, second_warned);
    assert!(!first_warned);
}

#[test]
fn second_invocation_on_missing_bar_warns_again() {
    let mut state = MenuState {
        main_menu: None,
        windows_menu: None,
    };
    assert!(configure_window_menu(&mut state));
    assert!(configure_window_menu(&mut state));
    assert_eq!(state.windows_menu, None);
}

#[test]
fn decide_reports_each_shape() {
    assert!(matches!(
        decide(&None),
        ConfigureAction::WarnMainMenuMissing
    ));
    assert!(matches!(
        decide(&bar(vec![item("File", Some(1))])),
        ConfigureAction::LeaveUnchanged
    ));
    assert!(matches!(
        decide(&bar(vec![item("Window", Some(5))])),
        ConfigureAction::SetWindowsMenu(Some(5))
    ));
    assert!(matches!(
        decide(&bar(vec![item("Window", None)])),
        ConfigureAction::SetWindowsMenu(None)
    ));
}

#[test]
fn find_item_titled_is_exact_and_first_match() {
    let items = vec![
        item("File", Some(1)),
        item("Windows", Some(2)),
        item("window", Some(3)),
        item("Window", Some(4)),
        item("Window", Some(5)),
    ];
    assert_eq!(find_item_titled(&items, "Window"), Some(3));
    assert_eq!(find_item_titled(&items, "Edit"), None);
    assert_eq!(find_item_titled(&items, ""), None);
    let empty: Vec<MenuItem> = Vec::new();
    assert_eq!(find_item_titled(&empty, "Window"), None);
}

#[test]
fn str_eq_is_case_sensitive_and_exact() {
    assert!(str_eq("Window", "Window"));
    assert!(!str_eq("window", "Window"));
    assert!(!str_eq("Window", "Windows"));
    assert!(!str_eq("Windo", "Window"));
    assert!(str_eq("", ""));
    assert!(!str_eq("", "Window"));
}
