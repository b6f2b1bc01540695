//! Commands that the daemon accepts, and the mapping from the action ids of
//! config files to them.

use vstd::prelude::*;

use crate::text::{parse_u8, parse_u8_spec, str_equal, strip_prefix};

verus! {

/// A command for the window manager, as named by an action id.
///
/// Distances and fractions are held as integers: `Scroll` moves the strip by
/// `delta` (negative to the left) and `SetColumnWidth` sets the focused
/// column to `permille` thousandths of the work area.
#[derive(Clone, Copy, Debug, PartialEq, Eq, Structural)]
pub enum IpcCommand {
    SwitchWorkspace { index: u8 },
    MoveToWorkspace { index: u8 },
    MoveToWorkspacePrev,
    MoveToWorkspaceNext,
    Scroll { delta: i32 },
    SetColumnWidth { permille: u16 },
    FocusLeft,
    FocusRight,
    FocusUp,
    FocusDown,
    FocusNext,
    FocusPrev,
    FocusStart,
    FocusEnd,
    MoveColumnLeft,
    MoveColumnRight,
    MoveColumnToStart,
    MoveColumnToEnd,
    FocusMonitorLeft,
    FocusMonitorRight,
    FocusMonitorUp,
    FocusMonitorDown,
    MoveWindowToMonitorLeft,
    MoveWindowToMonitorRight,
    MoveWindowToMonitorUp,
    MoveWindowToMonitorDown,
    CycleWidthUp,
    CycleWidthDown,
    CycleHeightUp,
    CycleHeightDown,
    EqualizeColumnHeights,
    Refresh,
    Reload,
    PanicRevert,
    TogglePause,
    CloseWindow,
    ToggleFloating,
    ToggleFullscreen,
    ScratchpadStash,
    ScratchpadToggle,
    ToggleSticky,
    ToggleNewWindowPlacement,
    ToggleTabbed,
    CenterColumn,
    MaximizeColumn,
    EqualizeColumnWidths,
    MoveWindowLeft,
    MoveWindowRight,
    ExpelToLeft,
    ExpelToRight,
    ConsumeFromLeft,
    ConsumeFromRight,
    MoveWindowUp,
    MoveWindowDown,
    WorkspacePrev,
    WorkspaceNext,
    ToggleOverview,
}

/// The command of an id that is matched as a whole word.
pub open spec fn named_command(id: Seq<char>) -> Option<IpcCommand> {
    if id == "focus_left"@ {
        Some(IpcCommand::FocusLeft)
    } else if id == "focus_right"@ {
        Some(IpcCommand::FocusRight)
    } else if id == "focus_up"@ {
        Some(IpcCommand::FocusUp)
    } else if id == "focus_down"@ {
        Some(IpcCommand::FocusDown)
    } else if id == "focus_next"@ {
        Some(IpcCommand::FocusNext)
    } else if id == "focus_prev"@ {
        Some(IpcCommand::FocusPrev)
    } else if id == "focus_start"@ {
        Some(IpcCommand::FocusStart)
    } else if id == "focus_end"@ {
        Some(IpcCommand::FocusEnd)
    } else if id == "move_column_left"@ {
        Some(IpcCommand::MoveColumnLeft)
    } else if id == "move_column_right"@ {
        Some(IpcCommand::MoveColumnRight)
    } else if id == "move_column_to_start"@ {
        Some(IpcCommand::MoveColumnToStart)
    } else if id == "move_column_to_end"@ {
        Some(IpcCommand::MoveColumnToEnd)
    } else if id == "focus_monitor_left"@ {
        Some(IpcCommand::FocusMonitorLeft)
    } else if id == "focus_monitor_right"@ {
        Some(IpcCommand::FocusMonitorRight)
    } else if id == "focus_monitor_up"@ {
        Some(IpcCommand::FocusMonitorUp)
    } else if id == "focus_monitor_down"@ {
        Some(IpcCommand::FocusMonitorDown)
    } else if id == "move_to_monitor_left"@ {
        Some(IpcCommand::MoveWindowToMonitorLeft)
    } else if id == "move_to_monitor_right"@ {
        Some(IpcCommand::MoveWindowToMonitorRight)
    } else if id == "move_to_monitor_up"@ {
        Some(IpcCommand::MoveWindowToMonitorUp)
    } else if id == "move_to_monitor_down"@ {
        Some(IpcCommand::MoveWindowToMonitorDown)
    } else if id == "cycle_width_up"@ || id == "resize_grow"@ {
        Some(IpcCommand::CycleWidthUp)
    } else if id == "cycle_width_down"@ || id == "resize_shrink"@ {
        Some(IpcCommand::CycleWidthDown)
    } else if id == "cycle_height_up"@ {
        Some(IpcCommand::CycleHeightUp)
    } else if id == "cycle_height_down"@ {
        Some(IpcCommand::CycleHeightDown)
    } else if id == "equalize_heights"@ {
        Some(IpcCommand::EqualizeColumnHeights)
    } else if id == "scroll_left"@ {
        Some(IpcCommand::Scroll { delta: -100i32 })
    } else if id == "scroll_right"@ {
        Some(IpcCommand::Scroll { delta: 100i32 })
    } else if id == "refresh"@ {
        Some(IpcCommand::Refresh)
    } else if id == "reload"@ {
        Some(IpcCommand::Reload)
    } else if id == "panic_revert"@ {
        Some(IpcCommand::PanicRevert)
    } else if id == "toggle_pause"@ {
        Some(IpcCommand::TogglePause)
    } else if id == "close_window"@ {
        Some(IpcCommand::CloseWindow)
    } else if id == "toggle_floating"@ {
        Some(IpcCommand::ToggleFloating)
    } else if id == "toggle_fullscreen"@ {
        Some(IpcCommand::ToggleFullscreen)
    } else if id == "scratchpad_stash"@ {
        Some(IpcCommand::ScratchpadStash)
    } else if id == "scratchpad_toggle"@ {
        Some(IpcCommand::ScratchpadToggle)
    } else if id == "toggle_sticky"@ {
        Some(IpcCommand::ToggleSticky)
    } else if id == "toggle_new_window_placement"@ {
        Some(IpcCommand::ToggleNewWindowPlacement)
    } else if id == "toggle_tabbed"@ {
        Some(IpcCommand::ToggleTabbed)
    } else if id == "width_third"@ {
        Some(IpcCommand::SetColumnWidth { permille: 333 })
    } else if id == "width_half"@ {
        Some(IpcCommand::SetColumnWidth { permille: 500 })
    } else if id == "width_two_thirds"@ {
        Some(IpcCommand::SetColumnWidth { permille: 667 })
    } else if id == "center_column"@ {
        Some(IpcCommand::CenterColumn)
    } else if id == "maximize_column"@ {
        Some(IpcCommand::MaximizeColumn)
    } else if id == "equalize_widths"@ {
        Some(IpcCommand::EqualizeColumnWidths)
    } else if id == "move_window_left"@ {
        Some(IpcCommand::MoveWindowLeft)
    } else if id == "move_window_right"@ {
        Some(IpcCommand::MoveWindowRight)
    } else if id == "expel_to_left"@ {
        Some(IpcCommand::ExpelToLeft)
    } else if id == "expel_to_right"@ {
        Some(IpcCommand::ExpelToRight)
    } else if id == "consume_from_left"@ {
        Some(IpcCommand::ConsumeFromLeft)
    } else if id == "consume_from_right"@ {
        Some(IpcCommand::ConsumeFromRight)
    } else if id == "move_window_up"@ {
        Some(IpcCommand::MoveWindowUp)
    } else if id == "move_window_down"@ {
        Some(IpcCommand::MoveWindowDown)
    } else if id == "workspace_prev"@ {
        Some(IpcCommand::WorkspacePrev)
    } else if id == "workspace_next"@ {
        Some(IpcCommand::WorkspaceNext)
    } else if id == "toggle_overview"@ {
        Some(IpcCommand::ToggleOverview)
    } else {
        None
    }
}

/// A workspace number in `1..=9`, written as `u8::from_str` reads it.
pub open spec fn workspace_index(suffix: Seq<char>) -> Option<u8> {
    match parse_u8_spec(suffix) {
        Some(n) => if 1 <= n && n <= 9 {
            Some(n)
        } else {
            None
        },
        None => None,
    }
}

/// The command that a normalized (lowercase, underscored) action id names.
///
/// `switch_workspace_<n>` and `move_to_workspace_<n>` name the numbered
/// workspaces 1 to 9; `move_to_workspace_prev` and `move_to_workspace_next`
/// are the relative moves; every other id is looked up as a whole word.
pub open spec fn command_spec(id: Seq<char>) -> Option<IpcCommand> {
    if "switch_workspace_"@.is_prefix_of(id) {
        match workspace_index(id.skip("switch_workspace_"@.len() as int)) {
            Some(n) => Some(IpcCommand::SwitchWorkspace { index: n }),
            None => None,
        }
    } else if "move_to_workspace_"@.is_prefix_of(id) {
        let suffix = id.skip("move_to_workspace_"@.len() as int);
        if suffix == "prev"@ {
            Some(IpcCommand::MoveToWorkspacePrev)
        } else if suffix == "next"@ {
            Some(IpcCommand::MoveToWorkspaceNext)
        } else {
            match workspace_index(suffix) {
                Some(n) => Some(IpcCommand::MoveToWorkspace { index: n }),
                None => None,
            }
        }
    } else {
        named_command(id)
    }
}

fn named_command_of(id: &str) -> (r: Option<IpcCommand>)
    ensures
        r == named_command(id@),
{
    if str_equal(id, "focus_left") {
        Some(IpcCommand::FocusLeft)
    } else if str_equal(id, "focus_right") {
        Some(IpcCommand::FocusRight)
    } else if str_equal(id, "focus_up") {
        Some(IpcCommand::FocusUp)
    } else if str_equal(id, "focus_down") {
        Some(IpcCommand::FocusDown)
    } else if str_equal(id, "focus_next") {
        Some(IpcCommand::FocusNext)
    } else if str_equal(id, "focus_prev") {
        Some(IpcCommand::FocusPrev)
    } else if str_equal(id, "focus_start") {
        Some(IpcCommand::FocusStart)
    } else if str_equal(id, "focus_end") {
        Some(IpcCommand::FocusEnd)
    } else if str_equal(id, "move_column_left") {
        Some(IpcCommand::MoveColumnLeft)
    } else if str_equal(id, "move_column_right") {
        Some(IpcCommand::MoveColumnRight)
    } else if str_equal(id, "move_column_to_start") {
        Some(IpcCommand::MoveColumnToStart)
    } else if str_equal(id, "move_column_to_end") {
        Some(IpcCommand::MoveColumnToEnd)
    } else if str_equal(id, "focus_monitor_left") {
        Some(IpcCommand::FocusMonitorLeft)
    } else if str_equal(id, "focus_monitor_right") {
        Some(IpcCommand::FocusMonitorRight)
    } else if str_equal(id, "focus_monitor_up") {
        Some(IpcCommand::FocusMonitorUp)
    } else if str_equal(id, "focus_monitor_down") {
        Some(IpcCommand::FocusMonitorDown)
    } else if str_equal(id, "move_to_monitor_left") {
        Some(IpcCommand::MoveWindowToMonitorLeft)
    } else if str_equal(id, "move_to_monitor_right") {
        Some(IpcCommand::MoveWindowToMonitorRight)
    } else if str_equal(id, "move_to_monitor_up") {
        Some(IpcCommand::MoveWindowToMonitorUp)
    } else if str_equal(id, "move_to_monitor_down") {
        Some(IpcCommand::MoveWindowToMonitorDown)
    } else if str_equal(id, "cycle_width_up") || str_equal(id, "resize_grow") {
        Some(IpcCommand::CycleWidthUp)
    } else if str_equal(id, "cycle_width_down") || str_equal(id, "resize_shrink") {
        Some(IpcCommand::CycleWidthDown)
    } else if str_equal(id, "cycle_height_up") {
        Some(IpcCommand::CycleHeightUp)
    } else if str_equal(id, "cycle_height_down") {
        Some(IpcCommand::CycleHeightDown)
    } else if str_equal(id, "equalize_heights") {
        Some(IpcCommand::EqualizeColumnHeights)
    } else if str_equal(id, "scroll_left") {
        Some(IpcCommand::Scroll { delta: -100i32 })
    } else if str_equal(id, "scroll_right") {
        Some(IpcCommand::Scroll { delta: 100i32 })
    } else if str_equal(id, "refresh") {
        Some(IpcCommand::Refresh)
    } else if str_equal(id, "reload") {
        Some(IpcCommand::Reload)
    } else if str_equal(id, "panic_revert") {
        Some(IpcCommand::PanicRevert)
    } else if str_equal(id, "toggle_pause") {
        Some(IpcCommand::TogglePause)
    } else if str_equal(id, "close_window") {
        Some(IpcCommand::CloseWindow)
    } else if str_equal(id, "toggle_floating") {
        Some(IpcCommand::ToggleFloating)
    } else if str_equal(id, "toggle_fullscreen") {
        Some(IpcCommand::ToggleFullscreen)
    } else if str_equal(id, "scratchpad_stash") {
        Some(IpcCommand::ScratchpadStash)
    } else if str_equal(id, "scratchpad_toggle") {
        Some(IpcCommand::ScratchpadToggle)
    } else if str_equal(id, "toggle_sticky") {
        Some(IpcCommand::ToggleSticky)
    } else if str_equal(id, "toggle_new_window_placement") {
        Some(IpcCommand::ToggleNewWindowPlacement)
    } else if str_equal(id, "toggle_tabbed") {
        Some(IpcCommand::ToggleTabbed)
    } else if str_equal(id, "width_third") {
        Some(IpcCommand::SetColumnWidth { permille: 333 })
    } else if str_equal(id, "width_half") {
        Some(IpcCommand::SetColumnWidth { permille: 500 })
    } else if str_equal(id, "width_two_thirds") {
        Some(IpcCommand::SetColumnWidth { permille: 667 })
    } else if str_equal(id, "center_column") {
        Some(IpcCommand::CenterColumn)
    } else if str_equal(id, "maximize_column") {
        Some(IpcCommand::MaximizeColumn)
    } else if str_equal(id, "equalize_widths") {
        Some(IpcCommand::EqualizeColumnWidths)
    } else if str_equal(id, "move_window_left") {
        Some(IpcCommand::MoveWindowLeft)
    } else if str_equal(id, "move_window_right") {
        Some(IpcCommand::MoveWindowRight)
    } else if str_equal(id, "expel_to_left") {
        Some(IpcCommand::ExpelToLeft)
    } else if str_equal(id, "expel_to_right") {
        Some(IpcCommand::ExpelToRight)
    } else if str_equal(id, "consume_from_left") {
        Some(IpcCommand::ConsumeFromLeft)
    } else if str_equal(id, "consume_from_right") {
        Some(IpcCommand::ConsumeFromRight)
    } else if str_equal(id, "move_window_up") {
        Some(IpcCommand::MoveWindowUp)
    } else if str_equal(id, "move_window_down") {
        Some(IpcCommand::MoveWindowDown)
    } else if str_equal(id, "workspace_prev") {
        Some(IpcCommand::WorkspacePrev)
    } else if str_equal(id, "workspace_next") {
        Some(IpcCommand::WorkspaceNext)
    } else if str_equal(id, "toggle_overview") {
        Some(IpcCommand::ToggleOverview)
    } else {
        None
    }
}

fn workspace_index_of(suffix: &str) -> (r: Option<u8>)
    ensures
        r == workspace_index(suffix@),
{
    match parse_u8(suffix) {
        Some(n) => if 1 <= n && n <= 9 {
            Some(n)
        } else {
            None
        },
        None => None,
    }
}

/// Maps a normalized (lowercase, underscored) action id to its command.
/// Covers every catalog id plus the command aliases accepted in config
/// files (gestures, renames, width presets).
pub fn command_for_action(id: &str) -> (r: Option<IpcCommand>)
    ensures
        r == command_spec(id@),
{
    if let Some(suffix) = strip_prefix(id, "switch_workspace_") {
        assert(suffix@ =~= id@.skip("switch_workspace_"@.len() as int));
        assert("switch_workspace_"@.is_prefix_of(id@)) by {
            assert("switch_workspace_"@ =~= id@.subrange(0, "switch_workspace_"@.len() as int));
        }
        return match workspace_index_of(suffix) {
            Some(index) => Some(IpcCommand::SwitchWorkspace { index }),
            None => None,
        };
    }
    if let Some(suffix) = strip_prefix(id, "move_to_workspace_") {
        assert(suffix@ =~= id@.skip("move_to_workspace_"@.len() as int));
        assert("move_to_workspace_"@.is_prefix_of(id@)) by {
            assert("move_to_workspace_"@ =~= id@.subrange(0, "move_to_workspace_"@.len() as int));
        }
        return if str_equal(suffix, "prev") {
            Some(IpcCommand::MoveToWorkspacePrev)
        } else if str_equal(suffix, "next") {
            Some(IpcCommand::MoveToWorkspaceNext)
        } else {
            match workspace_index_of(suffix) {
                Some(index) => Some(IpcCommand::MoveToWorkspace { index }),
                None => None,
            }
        };
    }
    named_command_of(id)
}

} // verus!
