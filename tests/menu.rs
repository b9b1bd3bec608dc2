use messenger_desktop::menu::{
    parse_menu_id, tray_click_actions, tray_menu_actions, window_menu_actions, MenuCommand,
    SurfaceAction,
};

#[test]
fn menu_ids_parse() {
    assert_eq!(parse_menu_id("show"), Some(MenuCommand::Show));
    assert_eq!(parse_menu_id("hide"), Some(MenuCommand::Hide));
    assert_eq!(parse_menu_id("quit"), Some(MenuCommand::Quit));
    assert_eq!(parse_menu_id("settings"), Some(MenuCommand::Settings));
    assert_eq!(parse_menu_id("reload"), Some(MenuCommand::Reload));
    assert_eq!(parse_menu_id("toggle_devtools"), Some(MenuCommand::ToggleDevtools));
    assert_eq!(parse_menu_id("Show"), None);
    assert_eq!(parse_menu_id("sho"), None);
    assert_eq!(parse_menu_id(""), None);
}

#[test]
fn tray_click_toggles_window() {
    assert_eq!(tray_click_actions(true, Some(true)), vec![SurfaceAction::HideWindow]);
    assert_eq!(tray_click_actions(true, None), vec![SurfaceAction::HideWindow]);
    assert_eq!(
        tray_click_actions(true, Some(false)),
        vec![SurfaceAction::ShowWindow, SurfaceAction::FocusWindow]
    );
    assert!(tray_click_actions(false, Some(false)).is_empty());
}

#[test]
fn tray_menu_items() {
    assert_eq!(tray_menu_actions("quit", false), vec![SurfaceAction::ExitApp]);
    assert_eq!(
        tray_menu_actions("show", true),
        vec![SurfaceAction::ShowWindow, SurfaceAction::FocusWindow]
    );
    assert_eq!(tray_menu_actions("hide", true), vec![SurfaceAction::HideWindow]);
    assert!(tray_menu_actions("hide", false).is_empty());
    assert!(tray_menu_actions("settings", true).is_empty());
}

#[test]
fn window_menu_items() {
    assert_eq!(window_menu_actions("quit", false), vec![SurfaceAction::ExitApp]);
    assert_eq!(window_menu_actions("settings", false), vec![SurfaceAction::OpenSettings]);
    assert_eq!(window_menu_actions("reload", false), vec![SurfaceAction::ReloadWindow]);
    assert_eq!(window_menu_actions("toggle_devtools", false), vec![SurfaceAction::OpenDevtools]);
    assert_eq!(window_menu_actions("toggle_devtools", true), vec![SurfaceAction::CloseDevtools]);
    assert!(window_menu_actions("show", true).is_empty());
}
