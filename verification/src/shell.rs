//! The decisions of the desktop shell: its windows, its tray, and its first start.

use vstd::prelude::*;
use vstd::string::*;

use crate::text::same_text;
use crate::widgets::{labelled_widget, widget_of_window, window_label};

verus! {

/// The label of the main window.
pub const MAIN_WINDOW: &'static str = "main";

/// Something that happened to a window.
#[derive(Debug, Clone, Copy, PartialEq, Eq, Structural)]
pub enum WindowHappening {
    /// Someone wants it closed.
    CloseRequested,
    /// It was moved, to a place in physical pixels.
    Moved { x: i32, y: i32 },
    Other,
}

/// What is done about it.
#[derive(Debug, PartialEq)]
pub enum WindowReaction {
    /// Hide the window, and do not close it.
    HideInstead,
    /// Note where a widget is.
    SavePosition { id: String, x: i32, y: i32 },
    Nothing,
}

/// What is done about something that happened to a window: the main window is hidden
/// where it would be closed, and a widget that is moved is found there the next time.
pub fn on_window_event(label: &str, happening: WindowHappening) -> (reaction: WindowReaction)
    ensures
        match reaction {
            WindowReaction::HideInstead => label@ == MAIN_WINDOW@ && happening
                == WindowHappening::CloseRequested,
            WindowReaction::SavePosition { id, x, y } => label@ != MAIN_WINDOW@ && labelled_widget(
                label@,
            ) == Some(id@) && happening == (WindowHappening::Moved { x, y }),
            WindowReaction::Nothing => {
                &&& !(label@ == MAIN_WINDOW@ && happening == WindowHappening::CloseRequested)
                &&& !(label@ != MAIN_WINDOW@ && labelled_widget(label@) is Some
                    && happening is Moved)
            },
        },
{
    if same_text(label, MAIN_WINDOW) {
        return match happening {
            WindowHappening::CloseRequested => WindowReaction::HideInstead,
            _ => WindowReaction::Nothing,
        };
    }
    match (widget_of_window(label), happening) {
        (Some(id), WindowHappening::Moved { x, y }) => WindowReaction::SavePosition { id, x, y },
        _ => WindowReaction::Nothing,
    }
}

/// No widget's window is taken for the main window, nor the main window for a widget's.
pub proof fn law_main_window_is_no_widget(id: Seq<char>)
    ensures
        window_label(id) != MAIN_WINDOW@,
        labelled_widget(MAIN_WINDOW@) is None,
{
    reveal_strlit("main");
    reveal_strlit("widget-");
    assert(window_label(id).len() >= 7);
}

/// What is done with a window that is to be seen or not.
#[derive(Debug, Clone, Copy, PartialEq, Eq, Structural)]
pub enum Visibility {
    Hide,
    /// Show it, and give it the focus.
    ShowAndFocus,
}

/// What is done with the main window to turn around whether it is seen.
pub fn toggle_main_window(visible: bool) -> (change: Visibility)
    ensures
        change == if visible {
            Visibility::Hide
        } else {
            Visibility::ShowAndFocus
        },
{
    if visible {
        Visibility::Hide
    } else {
        Visibility::ShowAndFocus
    }
}

/// What is done about starting on login.
#[derive(Debug, Clone, Copy, PartialEq, Eq, Structural)]
pub enum AutostartChange {
    Enable,
    Disable,
}

/// What is done to turn around whether the application starts on login.
pub fn toggle_autostart(enabled: bool) -> (change: AutostartChange)
    ensures
        change == if enabled {
            AutostartChange::Disable
        } else {
            AutostartChange::Enable
        },
{
    if enabled {
        AutostartChange::Disable
    } else {
        AutostartChange::Enable
    }
}

/// What an entry of the tray menu does.
#[derive(Debug, Clone, Copy, PartialEq, Eq, Structural)]
pub enum MenuAction {
    /// Turn around whether the main window is seen.
    ToggleMainWindow,
    /// Turn around whether the application starts on login.
    ToggleAutostart,
    /// Show the main window, and have it ask whether to shut the daemon down. The tray
    /// can show no list of clients, and collects no confirmation itself.
    AskForShutdown,
    Quit,
    Nothing,
}

/// What an entry of the tray menu does.
pub fn menu_action(id: &str) -> (action: MenuAction)
    ensures
        action == if id@ == "show_hide"@ {
            MenuAction::ToggleMainWindow
        } else if id@ == "start_on_login"@ {
            MenuAction::ToggleAutostart
        } else if id@ == "shutdown_daemon"@ {
            MenuAction::AskForShutdown
        } else if id@ == "quit"@ {
            MenuAction::Quit
        } else {
            MenuAction::Nothing
        },
{
    if same_text(id, "show_hide") {
        MenuAction::ToggleMainWindow
    } else if same_text(id, "start_on_login") {
        MenuAction::ToggleAutostart
    } else if same_text(id, "shutdown_daemon") {
        MenuAction::AskForShutdown
    } else if same_text(id, "quit") {
        MenuAction::Quit
    } else {
        MenuAction::Nothing
    }
}

/// What the daemon is to be given as its wake chime on the first start, and the marker
/// to write when it has taken it.
///
/// `None` where the marker says that it has taken one already, or where the sound that
/// comes with the application is no file.
pub fn wake_chime_bootstrap_decision<P>(
    marker_path: P,
    marker_exists: bool,
    resource_path: String,
    resource_is_file: bool,
) -> (pending: Option<(String, P)>)
    ensures
        pending == if !marker_exists && resource_is_file {
            Some((resource_path, marker_path))
        } else {
            None
        },
{
    if marker_exists {
        return None;
    }
    if !resource_is_file {
        return None;
    }
    Some((resource_path, marker_path))
}

} // verus!
