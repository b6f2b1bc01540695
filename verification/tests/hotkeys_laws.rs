use hotkeys::{
    command_for_action, default_bindings_map, hotkey_catalog, parse_u8, render_template_block,
    HotkeyAction, IpcCommand,
};

fn find(catalog: &[HotkeyAction], id: &str) -> HotkeyAction {
    catalog.iter().find(|a| a.id == id).cloned().expect("catalog id")
}

#[test]
fn catalog_order_and_size() {
    let catalog = hotkey_catalog();
    assert_eq!(catalog.len(), 69);
    assert_eq!(catalog[0].id, "focus_left");
    assert_eq!(catalog[0].default_key.as_deref(), Some("F13+H"));
    assert_eq!(catalog[0].label, "Focus left");
    assert_eq!(catalog[0].group, "Focus");
    assert_eq!(catalog[41].id, "toggle_new_window_placement");
    assert_eq!(catalog[41].default_key, None);
    assert_eq!(catalog[51].id, "switch_workspace_1");
    assert_eq!(catalog[68].id, "move_to_workspace_9");
    let unbound: Vec<&str> = catalog
        .iter()
        .filter(|a| a.default_key.is_none())
        .map(|a| a.id.as_str())
        .collect();
    assert_eq!(unbound, vec!["toggle_new_window_placement"]);
}

#[test]
fn catalog_numbered_workspace_rows() {
    let catalog = hotkey_catalog();
    let s3 = find(&catalog, "switch_workspace_3");
    assert_eq!(s3.default_key.as_deref(), Some("F13+3"));
    assert_eq!(s3.label, "Workspace 3");
    assert_eq!(s3.group, "Switch to workspace");
    let m7 = find(&catalog, "move_to_workspace_7");
    assert_eq!(m7.default_key.as_deref(), Some("F13+Shift+7"));
    assert_eq!(m7.label, "Move to Workspace 7");
    assert_eq!(m7.group, "Move window to workspace");
    let p = find(&catalog, "panic_revert");
    assert_eq!(p.default_key.as_deref(), Some("Win+Ctrl+Escape"));
    assert_eq!(p.label, "Emergency restore");
    assert_eq!(p.group, "Session");
}

#[test]
fn default_bindings_map_has_one_entry_per_bound_action() {
    let map = default_bindings_map();
    assert_eq!(map.len(), 68);
    for a in hotkey_catalog() {
        match a.default_key {
            Some(k) => assert_eq!(map.get(&k), Some(&a.id)),
            None => assert!(!map.contains_key(&a.id)),
        }
    }
    assert_eq!(map.get("Win+Ctrl+Escape"), Some(&"panic_revert".to_string()));
    assert_eq!(map.get("F13+Shift+9"), Some(&"move_to_workspace_9".to_string()));
    assert_eq!(map.get("F13+Q"), None);
}

#[test]
fn template_block_exact_text() {
    let expected: String = [
        "# Focus\n",
        "\"F13+H\" = \"focus_left\"\n",
        "\"F13+L\" = \"focus_right\"\n",
        "\"F13+K\" = \"focus_up\"\n",
        "\"F13+J\" = \"focus_down\"\n",
        "\"F13+Home\" = \"focus_start\"\n",
        "\"F13+End\" = \"focus_end\"\n",
        "\n",
        "# Move column\n",
        "\"F13+Shift+H\" = \"move_column_left\"\n",
        "\"F13+Shift+L\" = \"move_column_right\"\n",
        "\"F13+Shift+Home\" = \"move_column_to_start\"\n",
        "\"F13+Shift+End\" = \"move_column_to_end\"\n",
        "\n",
        "# Move window to adjacent column\n",
        "\"F13+[\" = \"move_window_left\"\n",
        "\"F13+]\" = \"move_window_right\"\n",
        "\n",
        "# Expel window to a new column\n",
        "\"F13+Shift+[\" = \"expel_to_left\"\n",
        "\"F13+Shift+]\" = \"expel_to_right\"\n",
        "\n",
        "# Stack the neighbor's window into the focused column\n",
        "\"F13+,\" = \"consume_from_left\"\n",
        "\"F13+.\" = \"consume_from_right\"\n",
        "\n",
        "# Move window within column\n",
        "\"F13+Shift+K\" = \"move_window_up\"\n",
        "\"F13+Shift+J\" = \"move_window_down\"\n",
        "\n",
        "# Column width\n",
        "\"F13+-\" = \"cycle_width_down\"\n",
        "\"F13+=\" = \"cycle_width_up\"\n",
        "\"F13+0\" = \"equalize_widths\"\n",
        "\n",
        "# Window height\n",
        "\"F13+Shift+-\" = \"cycle_height_down\"\n",
        "\"F13+Shift+=\" = \"cycle_height_up\"\n",
        "\"F13+Shift+0\" = \"equalize_heights\"\n",
        "\n",
        "# Monitor focus\n",
        "\"F13+Ctrl+H\" = \"focus_monitor_left\"\n",
        "\"F13+Ctrl+L\" = \"focus_monitor_right\"\n",
        "\"F13+Ctrl+K\" = \"focus_monitor_up\"\n",
        "\"F13+Ctrl+J\" = \"focus_monitor_down\"\n",
        "\n",
        "# Move window to monitor\n",
        "\"F13+Ctrl+Shift+H\" = \"move_to_monitor_left\"\n",
        "\"F13+Ctrl+Shift+L\" = \"move_to_monitor_right\"\n",
        "\"F13+Ctrl+Shift+K\" = \"move_to_monitor_up\"\n",
        "\"F13+Ctrl+Shift+J\" = \"move_to_monitor_down\"\n",
        "\n",
        "# Column layout\n",
        "\"F13+C\" = \"center_column\"\n",
        "\"F13+M\" = \"maximize_column\"\n",
        "\n",
        "# Window\n",
        "\"F13+W\" = \"close_window\"\n",
        "\"F13+F\" = \"toggle_floating\"\n",
        "\"F13+Shift+F\" = \"toggle_fullscreen\"\n",
        "\"F13+T\" = \"toggle_tabbed\"\n",
        "\"F13+S\" = \"scratchpad_toggle\"\n",
        "\"F13+Shift+S\" = \"scratchpad_stash\"\n",
        "\"F13+Y\" = \"toggle_sticky\"\n",
        "\n",
        "# Session\n",
        "\"F13+P\" = \"toggle_pause\"\n",
        "\"F13+R\" = \"refresh\"\n",
        "\"F13+Shift+R\" = \"reload\"\n",
        "\"Win+Ctrl+Escape\" = \"panic_revert\"\n",
        "\n",
        "# Workspaces\n",
        "\"F13+Space\" = \"toggle_overview\"\n",
        "\"F13+Left\" = \"workspace_prev\"\n",
        "\"F13+Right\" = \"workspace_next\"\n",
        "\n",
        "# Move window to workspace\n",
        "\"F13+Shift+Left\" = \"move_to_workspace_prev\"\n",
        "\"F13+Shift+Right\" = \"move_to_workspace_next\"\n",
        "\n",
        "# Switch to workspace\n",
        "\"F13+1\" = \"switch_workspace_1\"\n",
        "\"F13+2\" = \"switch_workspace_2\"\n",
        "\"F13+3\" = \"switch_workspace_3\"\n",
        "\"F13+4\" = \"switch_workspace_4\"\n",
        "\"F13+5\" = \"switch_workspace_5\"\n",
        "\"F13+6\" = \"switch_workspace_6\"\n",
        "\"F13+7\" = \"switch_workspace_7\"\n",
        "\"F13+8\" = \"switch_workspace_8\"\n",
        "\"F13+9\" = \"switch_workspace_9\"\n",
        "\n",
        "# Move window to workspace\n",
        "\"F13+Shift+1\" = \"move_to_workspace_1\"\n",
        "\"F13+Shift+2\" = \"move_to_workspace_2\"\n",
        "\"F13+Shift+3\" = \"move_to_workspace_3\"\n",
        "\"F13+Shift+4\" = \"move_to_workspace_4\"\n",
        "\"F13+Shift+5\" = \"move_to_workspace_5\"\n",
        "\"F13+Shift+6\" = \"move_to_workspace_6\"\n",
        "\"F13+Shift+7\" = \"move_to_workspace_7\"\n",
        "\"F13+Shift+8\" = \"move_to_workspace_8\"\n",
        "\"F13+Shift+9\" = \"move_to_workspace_9\"\n",
    ]
    .concat();
    assert_eq!(render_template_block(), expected);
}

#[test]
fn template_block_sections_and_header_lines() {
    let block = render_template_block();
    assert!(block.starts_with("# Focus\n\"F13+H\" = \"focus_left\"\n"));
    assert!(block.contains("\"F13+End\" = \"focus_end\"\n\n# Move column\n"));
    // The group before the numbered workspaces reappears after them.
    assert_eq!(block.matches("# Move window to workspace\n").count(), 2);
    assert!(!block.contains("[hotkeys]"));
    assert!(!block.contains("scroll_modifier"));
    assert!(!block.contains("toggle_new_window_placement"));
    assert!(block.ends_with("\"F13+Shift+9\" = \"move_to_workspace_9\"\n"));
}

#[test]
fn template_block_binds_every_default_binding() {
    let block = render_template_block();
    let map = default_bindings_map();
    let mut lines = 0;
    for a in hotkey_catalog() {
        if let Some(k) = a.default_key {
            let id = map.get(&k).expect("bound chord");
            assert!(block.contains(&format!("\"{}\" = \"{}\"\n", k, id)));
            lines += 1;
        }
    }
    assert_eq!(block.lines().filter(|l| l.starts_with('"')).count(), lines);
    assert_eq!(lines, map.len());
}

#[test]
fn command_for_action_named_ids() {
    assert_eq!(command_for_action("focus_left"), Some(IpcCommand::FocusLeft));
    assert_eq!(command_for_action("focus_next"), Some(IpcCommand::FocusNext));
    assert_eq!(command_for_action("focus_prev"), Some(IpcCommand::FocusPrev));
    assert_eq!(
        command_for_action("move_to_monitor_left"),
        Some(IpcCommand::MoveWindowToMonitorLeft)
    );
    assert_eq!(
        command_for_action("equalize_heights"),
        Some(IpcCommand::EqualizeColumnHeights)
    );
    assert_eq!(
        command_for_action("equalize_widths"),
        Some(IpcCommand::EqualizeColumnWidths)
    );
    assert_eq!(command_for_action("toggle_overview"), Some(IpcCommand::ToggleOverview));
    assert_eq!(command_for_action("workspace_prev"), Some(IpcCommand::WorkspacePrev));
}

#[test]
fn command_for_action_aliases() {
    assert_eq!(command_for_action("resize_grow"), Some(IpcCommand::CycleWidthUp));
    assert_eq!(command_for_action("resize_shrink"), Some(IpcCommand::CycleWidthDown));
    assert_eq!(command_for_action("scroll_left"), Some(IpcCommand::Scroll { delta: -100 }));
    assert_eq!(command_for_action("scroll_right"), Some(IpcCommand::Scroll { delta: 100 }));
    assert_eq!(
        command_for_action("width_third"),
        Some(IpcCommand::SetColumnWidth { permille: 333 })
    );
    assert_eq!(
        command_for_action("width_half"),
        Some(IpcCommand::SetColumnWidth { permille: 500 })
    );
    assert_eq!(
        command_for_action("width_two_thirds"),
        Some(IpcCommand::SetColumnWidth { permille: 667 })
    );
}

#[test]
fn command_for_action_unknown_ids() {
    for id in [
        "",
        "focus",
        "Focus_Left",
        "focus_left ",
        "switch_workspace_",
        "move_to_workspace_",
        "switch_workspace_256",
        "switch_workspace_-1",
        "switch_workspace_ 5",
        "switch_workspace_+",
        "move_to_workspace_Next",
        "move_to_workspace_prev_",
        "move_to_workspace_10",
        "workspace_5",
    ] {
        assert_eq!(command_for_action(id), None, "{:?}", id);
    }
}

#[test]
fn command_for_action_reads_the_suffix_like_u8_from_str() {
    assert_eq!(
        command_for_action("switch_workspace_+5"),
        Some(IpcCommand::SwitchWorkspace { index: 5 })
    );
    assert_eq!(
        command_for_action("switch_workspace_05"),
        Some(IpcCommand::SwitchWorkspace { index: 5 })
    );
    assert_eq!(
        command_for_action("move_to_workspace_009"),
        Some(IpcCommand::MoveToWorkspace { index: 9 })
    );
}

#[test]
fn workspace_commands_only_for_one_to_nine() {
    for n in 0..=300u32 {
        let switch = command_for_action(&format!("switch_workspace_{}", n));
        let moved = command_for_action(&format!("move_to_workspace_{}", n));
        if (1..=9).contains(&n) {
            assert_eq!(switch, Some(IpcCommand::SwitchWorkspace { index: n as u8 }));
            assert_eq!(moved, Some(IpcCommand::MoveToWorkspace { index: n as u8 }));
        } else {
            assert_eq!(switch, None);
            assert_eq!(moved, None);
        }
    }
}

#[test]
fn parse_u8_follows_from_str() {
    for s in ["0", "5", "+5", "05", "255", "+255", "0000255", "256", "", "+", "-1", " 1", "1 ", "1_0", "x", "++1", "٣"] {
        assert_eq!(parse_u8(s), s.parse::<u8>().ok(), "{:?}", s);
    }
    assert_eq!(parse_u8("42"), Some(42));
    assert_eq!(parse_u8("1000"), None);
}

#[test]
fn command_for_action_accepts_catalog_ids_aliases_and_numbered_ids() {
    for a in hotkey_catalog() {
        assert!(command_for_action(&a.id).is_some(), "{}", a.id);
    }
    for alias in [
        "focus_next",
        "focus_prev",
        "resize_grow",
        "resize_shrink",
        "scroll_left",
        "scroll_right",
        "width_third",
        "width_half",
        "width_two_thirds",
    ] {
        assert!(hotkey_catalog().iter().all(|a| a.id != alias));
        assert!(command_for_action(alias).is_some(), "{}", alias);
    }
    for other in ["focus", "scroll_up", "width_quarter", "resize", "workspace_next_", "move_column"] {
        assert_eq!(command_for_action(other), None, "{}", other);
    }
}

#[test]
fn catalog_actions_name_distinct_commands() {
    let commands: Vec<IpcCommand> = hotkey_catalog()
        .iter()
        .map(|a| command_for_action(&a.id).expect("catalog id"))
        .collect();
    for i in 0..commands.len() {
        for j in 0..commands.len() {
            if i != j {
                assert_ne!(commands[i], commands[j], "{} and {}", i, j);
            }
        }
    }
}

#[test]
fn template_binding_lines_occur_once_each() {
    let block = render_template_block();
    let map = default_bindings_map();
    let quoted = block.lines().filter(|l| l.starts_with('"')).count();
    assert_eq!(quoted, map.len());
    for a in hotkey_catalog() {
        if let Some(k) = a.default_key {
            let v = map.get(&k).expect("bound chord");
            let line = format!("\"{}\" = \"{}\"", k, v);
            assert_eq!(block.lines().filter(|l| *l == line).count(), 1, "{}", line);
        }
    }
}
