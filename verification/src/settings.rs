//! Global game settings and the pause-menu state machine.
//!
//! The settings travel by reference into the phases that read them; there
//! is no process-wide singleton. The pause menu itself is drawn by an
//! overlay toolkit, but which click changes which setting — and when the
//! pause ends — is decided here.

use vstd::prelude::*;

verus! {

#[derive(Debug, PartialEq, Eq, Structural, Hash, Copy, Clone)]
pub enum WindowMode {
    BorderlessFullscreen,
    Windowed,
}

/// Global settings the gameplay and the HUD read.
#[derive(Debug, PartialEq, Eq, Structural, Copy, Clone)]
pub struct Settings {
    pub show_info_panel: bool,
    pub god_mode: bool,
    pub window_mode: WindowMode,
}

impl Default for Settings {
    fn default() -> (r: Settings)
        ensures
            r == (Settings {
                show_info_panel: true,
                god_mode: false,
                window_mode: WindowMode::Windowed,
            }),
    {
        Settings { show_info_panel: true, god_mode: false, window_mode: WindowMode::Windowed }
    }
}

/// One button of the pause menu.
#[derive(Debug, PartialEq, Eq, Structural, Copy, Clone)]
pub enum PauseClick {
    Resume,
    ToggleInfoPanel,
    ToggleGodMode,
    ToggleWindowMode,
    Exit,
}

/// What the caller must do after one pause-menu frame.
#[derive(Debug, PartialEq, Eq, Structural, Copy, Clone)]
pub struct MenuOutcome {
    /// Leave the pause state, grab the cursor again and hide it.
    pub exit_pause: bool,
    /// Close the window: the Exit button was clicked.
    pub close_window: bool,
    /// The window mode changed and must be applied to the window.
    pub apply_window_mode: Option<WindowMode>,
}

/// One frame of the pause menu as a mathematical function: the clicked
/// button (if any) toggles its setting, Resume leaves the pause, and so
/// does pressing the menu action again once the frame that opened the
/// pause has passed (`handled`).
pub open spec fn pause_menu_spec(
    s: Settings,
    click: Option<PauseClick>,
    menu_activated: bool,
    handled: bool,
) -> (Settings, MenuOutcome) {
    let s1 = match click {
        Some(PauseClick::ToggleInfoPanel) => Settings {
            show_info_panel: !s.show_info_panel,
            ..s
        },
        Some(PauseClick::ToggleGodMode) => Settings { god_mode: !s.god_mode, ..s },
        Some(PauseClick::ToggleWindowMode) => Settings {
            window_mode: if s.window_mode == WindowMode::BorderlessFullscreen {
                WindowMode::Windowed
            } else {
                WindowMode::BorderlessFullscreen
            },
            ..s
        },
        _ => s,
    };
    let outcome = MenuOutcome {
        exit_pause: click == Some(PauseClick::Resume) || (handled && menu_activated),
        close_window: click == Some(PauseClick::Exit),
        apply_window_mode: if click == Some(PauseClick::ToggleWindowMode) {
            Some(s1.window_mode)
        } else {
            None
        },
    };
    (s1, outcome)
}

impl Settings {
    /// One frame of the pause menu: apply the clicked button to the
    /// settings and say whether the pause ends, the window closes, or the
    /// window mode must be applied.
    pub fn pause_menu(
        &mut self,
        click: Option<PauseClick>,
        menu_activated: bool,
        handled: bool,
    ) -> (outcome: MenuOutcome)
        ensures
            (*final(self), outcome) == pause_menu_spec(*old(self), click, menu_activated, handled),
    {
        let mut outcome = MenuOutcome {
            exit_pause: false,
            close_window: false,
            apply_window_mode: None,
        };
        match click {
            Some(PauseClick::Resume) => {
                outcome.exit_pause = true;
            },
            Some(PauseClick::ToggleInfoPanel) => {
                self.show_info_panel = !self.show_info_panel;
            },
            Some(PauseClick::ToggleGodMode) => {
                self.god_mode = !self.god_mode;
            },
            Some(PauseClick::ToggleWindowMode) => {
                if self.window_mode == WindowMode::BorderlessFullscreen {
                    self.window_mode = WindowMode::Windowed;
                } else {
                    self.window_mode = WindowMode::BorderlessFullscreen;
                }
                outcome.apply_window_mode = Some(self.window_mode);
            },
            Some(PauseClick::Exit) => {
                outcome.close_window = true;
            },
            None => {},
        }
        if handled && menu_activated {
            outcome.exit_pause = true;
        }
        outcome
    }
}

/// Where the top-left corner of a window goes so that it sits centered on
/// the screen: half of the spare room on each axis.
pub fn centered_position(screen_w: u32, screen_h: u32, outer_w: u32, outer_h: u32) -> (r: (
    i32,
    i32,
))
    requires
        outer_w <= screen_w <= i32::MAX,
        outer_h <= screen_h <= i32::MAX,
    ensures
        r.0 == (screen_w - outer_w) as int / 2,
        r.1 == (screen_h - outer_h) as int / 2,
{
    (((screen_w - outer_w) as i32) / 2, ((screen_h - outer_h) as i32) / 2)
}

} // verus!
