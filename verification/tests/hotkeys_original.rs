use std::collections::HashMap;
use std::collections::HashSet;

use hotkeys::{command_for_action, default_bindings_map, hotkey_catalog, render_template_block, IpcCommand};

#[test]
fn test_catalog_has_no_duplicate_ids_or_keys() {
    let catalog = hotkey_catalog();
    let mut ids = HashSet::new();
    let mut keys = HashSet::new();
    for a in &catalog {
        assert!(ids.insert(a.id.clone()), "duplicate action id: {}", a.id);
        if let Some(ref k) = a.default_key {
            assert!(keys.insert(k.clone()), "duplicate default key: {}", k);
        }
    }
}

#[test]
fn test_default_bindings_map_matches_catalog() {
    let map = default_bindings_map();
    let bound = hotkey_catalog()
        .into_iter()
        .filter(|a| a.default_key.is_some())
        .count();
    assert_eq!(map.len(), bound);
    assert_eq!(map.get("F13+H"), Some(&"focus_left".to_string()));
    assert_eq!(map.get("F13+,"), Some(&"consume_from_left".to_string()));
    assert_eq!(map.get("F13+5"), Some(&"switch_workspace_5".to_string()));
}

#[test]
fn test_default_bindings_match_frozen_expected_set() {
    // Golden set: the complete key-chord -> action map the catalog must
    // produce. Guards against transcription drift (a typo would keep the
    // count but change a binding). Update deliberately when the intended
    // defaults change.
    let expected: &[(&str, &str)] = &[
        ("F13+H", "focus_left"),
        ("F13+L", "focus_right"),
        ("F13+K", "focus_up"),
        ("F13+J", "focus_down"),
        ("F13+Home", "focus_start"),
        ("F13+End", "focus_end"),
        ("F13+Shift+H", "move_column_left"),
        ("F13+Shift+L", "move_column_right"),
        ("F13+Shift+Home", "move_column_to_start"),
        ("F13+Shift+End", "move_column_to_end"),
        ("F13+[", "move_window_left"),
        ("F13+]", "move_window_right"),
        ("F13+Shift+[", "expel_to_left"),
        ("F13+Shift+]", "expel_to_right"),
        ("F13+,", "consume_from_left"),
        ("F13+.", "consume_from_right"),
        ("F13+Shift+K", "move_window_up"),
        ("F13+Shift+J", "move_window_down"),
        ("F13+-", "cycle_width_down"),
        ("F13+=", "cycle_width_up"),
        ("F13+0", "equalize_widths"),
        ("F13+Shift+-", "cycle_height_down"),
        ("F13+Shift+=", "cycle_height_up"),
        ("F13+Shift+0", "equalize_heights"),
        ("F13+Ctrl+H", "focus_monitor_left"),
        ("F13+Ctrl+L", "focus_monitor_right"),
        ("F13+Ctrl+K", "focus_monitor_up"),
        ("F13+Ctrl+J", "focus_monitor_down"),
        ("F13+Ctrl+Shift+H", "move_to_monitor_left"),
        ("F13+Ctrl+Shift+L", "move_to_monitor_right"),
        ("F13+Ctrl+Shift+K", "move_to_monitor_up"),
        ("F13+Ctrl+Shift+J", "move_to_monitor_down"),
        ("F13+C", "center_column"),
        ("F13+M", "maximize_column"),
        ("F13+W", "close_window"),
        ("F13+F", "toggle_floating"),
        ("F13+Shift+F", "toggle_fullscreen"),
        ("F13+T", "toggle_tabbed"),
        ("F13+S", "scratchpad_toggle"),
        ("F13+Shift+S", "scratchpad_stash"),
        ("F13+Y", "toggle_sticky"),
        ("F13+P", "toggle_pause"),
        ("F13+R", "refresh"),
        ("F13+Shift+R", "reload"),
        ("Win+Ctrl+Escape", "panic_revert"),
        ("F13+Space", "toggle_overview"),
        ("F13+Left", "workspace_prev"),
        ("F13+Right", "workspace_next"),
        ("F13+Shift+Left", "move_to_workspace_prev"),
        ("F13+Shift+Right", "move_to_workspace_next"),
        ("F13+1", "switch_workspace_1"),
        ("F13+2", "switch_workspace_2"),
        ("F13+3", "switch_workspace_3"),
        ("F13+4", "switch_workspace_4"),
        ("F13+5", "switch_workspace_5"),
        ("F13+6", "switch_workspace_6"),
        ("F13+7", "switch_workspace_7"),
        ("F13+8", "switch_workspace_8"),
        ("F13+9", "switch_workspace_9"),
        ("F13+Shift+1", "move_to_workspace_1"),
        ("F13+Shift+2", "move_to_workspace_2"),
        ("F13+Shift+3", "move_to_workspace_3"),
        ("F13+Shift+4", "move_to_workspace_4"),
        ("F13+Shift+5", "move_to_workspace_5"),
        ("F13+Shift+6", "move_to_workspace_6"),
        ("F13+Shift+7", "move_to_workspace_7"),
        ("F13+Shift+8", "move_to_workspace_8"),
        ("F13+Shift+9", "move_to_workspace_9"),
    ];
    let expected_map: HashMap<String, String> = expected
        .iter()
        .map(|(k, v)| (k.to_string(), v.to_string()))
        .collect();
    // The two maps are equal: same number of entries, and every expected
    // chord maps to the expected id.
    let map = default_bindings_map();
    assert_eq!(map.len(), expected_map.len());
    for (k, v) in &expected_map {
        assert_eq!(map.get(k), Some(v), "binding of {}", k);
    }
}

#[test]
fn test_every_catalog_action_has_command_mapping() {
    // Drift guard: a new catalog row without a command_for_action
    // mapping fails here instead of silently parsing to None.
    for a in hotkey_catalog() {
        assert!(
            command_for_action(&a.id).is_some(),
            "catalog action '{}' has no command_for_action mapping",
            a.id
        );
    }
}

#[test]
fn test_command_for_action_workspace_suffixes() {
    assert_eq!(
        command_for_action("switch_workspace_5"),
        Some(IpcCommand::SwitchWorkspace { index: 5 })
    );
    assert_eq!(
        command_for_action("move_to_workspace_9"),
        Some(IpcCommand::MoveToWorkspace { index: 9 })
    );
    // Relative next/prev must not be swallowed by the numeric suffix parse.
    assert_eq!(
        command_for_action("move_to_workspace_next"),
        Some(IpcCommand::MoveToWorkspaceNext)
    );
    assert_eq!(
        command_for_action("move_to_workspace_prev"),
        Some(IpcCommand::MoveToWorkspacePrev)
    );
    assert_eq!(command_for_action("switch_workspace_0"), None);
    assert_eq!(command_for_action("switch_workspace_10"), None);
    assert_eq!(command_for_action("move_to_workspace_x"), None);
}

#[test]
fn test_template_block_groups_and_binds() {
    let block = render_template_block();
    assert!(block.contains("# Focus\n"));
    assert!(block.contains("\"F13+H\" = \"focus_left\"\n"));
    assert!(block.contains("\"F13+,\" = \"consume_from_left\"\n"));
    // Numbered workspaces are present.
    assert!(block.contains("\"F13+1\" = \"switch_workspace_1\""));
}
