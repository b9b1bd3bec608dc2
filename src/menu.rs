use vstd::prelude::*;

verus! {

/// The commands that the host menus and the tray menu emit.
#[derive(PartialEq, Eq, Structural, Debug, Clone, Copy)]
pub enum MenuCommand {
    Show,
    Hide,
    Quit,
    Settings,
    Reload,
    ToggleDevtools,
}

/// What the presentation surface is asked to do, in order.
#[derive(PartialEq, Eq, Structural, Debug, Clone, Copy)]
pub enum SurfaceAction {
    ShowWindow,
    HideWindow,
    FocusWindow,
    ExitApp,
    OpenSettings,
    ReloadWindow,
    OpenDevtools,
    CloseDevtools,
}

/// The command a menu item identifier stands for, if any.
pub open spec fn command_of(id: Seq<char>) -> Option<MenuCommand> {
    if id == "show"@ {
        Some(MenuCommand::Show)
    } else if id == "hide"@ {
        Some(MenuCommand::Hide)
    } else if id == "quit"@ {
        Some(MenuCommand::Quit)
    } else if id == "settings"@ {
        Some(MenuCommand::Settings)
    } else if id == "reload"@ {
        Some(MenuCommand::Reload)
    } else if id == "toggle_devtools"@ {
        Some(MenuCommand::ToggleDevtools)
    } else {
        None
    }
}

/// Bringing the window forward: shown, then focused.
pub open spec fn reveal_actions() -> Seq<SurfaceAction> {
    seq![SurfaceAction::ShowWindow, SurfaceAction::FocusWindow]
}

/// A click on the tray icon toggles the window: a visible window is hidden, a
/// hidden one brought forward. A window whose visibility cannot be read counts
/// as visible. With no window nothing happens.
pub open spec fn tray_click_spec(has_window: bool, visible: Option<bool>) -> Seq<SurfaceAction> {
    if !has_window {
        seq![]
    } else if visible != Some(false) {
        seq![SurfaceAction::HideWindow]
    } else {
        reveal_actions()
    }
}

/// A tray menu item: quit ends the application, show and hide act on the window
/// when there is one, anything else does nothing.
pub open spec fn tray_menu_spec(cmd: Option<MenuCommand>, has_window: bool) -> Seq<SurfaceAction> {
    match cmd {
        Some(MenuCommand::Quit) => seq![SurfaceAction::ExitApp],
        Some(MenuCommand::Show) => if has_window {
            reveal_actions()
        } else {
            seq![]
        },
        Some(MenuCommand::Hide) => if has_window {
            seq![SurfaceAction::HideWindow]
        } else {
            seq![]
        },
        _ => seq![],
    }
}

/// A window menu item: quit, settings, reload and the developer tools toggle act;
/// anything else does nothing.
pub open spec fn window_menu_spec(cmd: Option<MenuCommand>, devtools_open: bool) -> Seq<
    SurfaceAction,
> {
    match cmd {
        Some(MenuCommand::Quit) => seq![SurfaceAction::ExitApp],
        Some(MenuCommand::Settings) => seq![SurfaceAction::OpenSettings],
        Some(MenuCommand::Reload) => seq![SurfaceAction::ReloadWindow],
        Some(MenuCommand::ToggleDevtools) => if devtools_open {
            seq![SurfaceAction::CloseDevtools]
        } else {
            seq![SurfaceAction::OpenDevtools]
        },
        _ => seq![],
    }
}

/// Whether two texts hold the same characters.
pub fn same_text(a: &str, b: &str) -> (r: bool)
    ensures
        r == (a@ == b@),
{
    let n = a.unicode_len();
    if n != b.unicode_len() {
        return false;
    }
    let mut i: usize = 0;
    while i < n
        invariant
            n == a@.len(),
            n == b@.len(),
            i <= n,
            forall|j: int| 0 <= j < i ==> a@[j] == b@[j],
        decreases n - i,
    {
        if a.get_char(i) != b.get_char(i) {
            return false;
        }
        i = i + 1;
    }
    assert(a@ =~= b@);
    true
}

/// The command a menu item identifier stands for; unknown identifiers give `None`.
pub fn parse_menu_id(id: &str) -> (r: Option<MenuCommand>)
    ensures
        r == command_of(id@),
{
    if same_text(id, "show") {
        Some(MenuCommand::Show)
    } else if same_text(id, "hide") {
        Some(MenuCommand::Hide)
    } else if same_text(id, "quit") {
        Some(MenuCommand::Quit)
    } else if same_text(id, "settings") {
        Some(MenuCommand::Settings)
    } else if same_text(id, "reload") {
        Some(MenuCommand::Reload)
    } else if same_text(id, "toggle_devtools") {
        Some(MenuCommand::ToggleDevtools)
    } else {
        None
    }
}

/// The actions for a click on the tray icon.
pub fn tray_click_actions(has_window: bool, visible: Option<bool>) -> (r: Vec<SurfaceAction>)
    ensures
        r@ == tray_click_spec(has_window, visible),
{
    let mut r: Vec<SurfaceAction> = Vec::new();
    if has_window {
        let shown = match visible {
            Some(v) => v,
            None => true,
        };
        if shown {
            r.push(SurfaceAction::HideWindow);
        } else {
            r.push(SurfaceAction::ShowWindow);
            r.push(SurfaceAction::FocusWindow);
        }
    }
    assert(r@ =~= tray_click_spec(has_window, visible));
    r
}

/// The actions for the tray menu item `id`.
pub fn tray_menu_actions(id: &str, has_window: bool) -> (r: Vec<SurfaceAction>)
    ensures
        r@ == tray_menu_spec(command_of(id@), has_window),
{
    let mut r: Vec<SurfaceAction> = Vec::new();
    match parse_menu_id(id) {
        Some(MenuCommand::Quit) => r.push(SurfaceAction::ExitApp),
        Some(MenuCommand::Show) => {
            if has_window {
                r.push(SurfaceAction::ShowWindow);
                r.push(SurfaceAction::FocusWindow);
            }
        },
        Some(MenuCommand::Hide) => {
            if has_window {
                r.push(SurfaceAction::HideWindow);
            }
        },
        _ => {},
    }
    assert(r@ =~= tray_menu_spec(command_of(id@), has_window));
    r
}

/// The actions for the window menu item `id`.
pub fn window_menu_actions(id: &str, devtools_open: bool) -> (r: Vec<SurfaceAction>)
    ensures
        r@ == window_menu_spec(command_of(id@), devtools_open),
{
    let mut r: Vec<SurfaceAction> = Vec::new();
    match parse_menu_id(id) {
        Some(MenuCommand::Quit) => r.push(SurfaceAction::ExitApp),
        Some(MenuCommand::Settings) => r.push(SurfaceAction::OpenSettings),
        Some(MenuCommand::Reload) => r.push(SurfaceAction::ReloadWindow),
        Some(MenuCommand::ToggleDevtools) => {
            if devtools_open {
                r.push(SurfaceAction::CloseDevtools);
            } else {
                r.push(SurfaceAction::OpenDevtools);
            }
        },
        _ => {},
    }
    assert(r@ =~= window_menu_spec(command_of(id@), devtools_open));
    r
}

} // verus!
