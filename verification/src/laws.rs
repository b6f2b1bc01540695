//! Laws that tie the catalog, the command mapping, the default bindings and
//! the template together.

use vstd::prelude::*;

use crate::bindings::{
    bindings_of, bound_count, lemma_bindings_of_distinct, lemma_bound_count_all_but_one,
};
use crate::catalog::{
    catalog_spec, digit, fixed_actions, lemma_catalog_distinct, lemma_width_renames_not_in_catalog, move_to_workspace_action,
    move_to_workspace_actions, switch_workspace_action, switch_workspace_actions,
};
use crate::command::{command_spec, named_command, workspace_index, IpcCommand};
use crate::template::{
    binding_line, binding_text, bound_actions, bound_text, count_lines, is_plain_text,
    lemma_count_bindings_unique, lemma_template_bound_form, lemma_template_lines,
    lemma_template_lines_structure, line_equal_to, lines_text, lines_unbroken, occurs_in,
    quoted_line, template_lines, template_of,
};
use crate::text::{decimal_value, parse_u8_spec, unsigned_digits};

verus! {

/// A sequence that differs from `p` at a position inside `p` does not start with `p`.
proof fn lemma_not_prefix_at(p: Seq<char>, s: Seq<char>, k: int)
    requires
        0 <= k < p.len(),
        k < s.len(),
        p[k] != s[k],
    ensures
        !p.is_prefix_of(s),
{
    if p.len() <= s.len() {
        assert(s.subrange(0, p.len() as int)[k] == s[k]);
    }
}

/// The whole-word ids of the catalog (all but the numbered and relative
/// workspace moves) are ids that `named_command` knows.
proof fn lemma_fixed_ids_are_named()
    ensures
        forall|i: int| 0 <= i < 49 ==> (#[trigger] named_command(fixed_actions()[i].id)) is Some,
{
}

/// The whole-word ids of the catalog start with neither workspace prefix.
proof fn lemma_fixed_ids_unprefixed()
    ensures
        forall|i: int|
            0 <= i < 49 ==> !"switch_workspace_"@.is_prefix_of(#[trigger] fixed_actions()[i].id)
                && !"move_to_workspace_"@.is_prefix_of(fixed_actions()[i].id),
{
    reveal_strlit("switch_workspace_");
    reveal_strlit("move_to_workspace_");
    reveal_strlit("focus_left");
    reveal_strlit("focus_right");
    reveal_strlit("focus_up");
    reveal_strlit("focus_down");
    reveal_strlit("focus_start");
    reveal_strlit("focus_end");
    reveal_strlit("move_column_left");
    reveal_strlit("move_column_right");
    lemma_not_prefix_at("switch_workspace_"@, fixed_actions()[7].id, 0);
    reveal_strlit("move_column_to_start");
    lemma_not_prefix_at("switch_workspace_"@, fixed_actions()[8].id, 0);
    lemma_not_prefix_at("move_to_workspace_"@, fixed_actions()[8].id, 5);
    reveal_strlit("move_column_to_end");
    lemma_not_prefix_at("switch_workspace_"@, fixed_actions()[9].id, 0);
    lemma_not_prefix_at("move_to_workspace_"@, fixed_actions()[9].id, 5);
    reveal_strlit("move_window_left");
    reveal_strlit("move_window_right");
    lemma_not_prefix_at("switch_workspace_"@, fixed_actions()[11].id, 0);
    reveal_strlit("expel_to_left");
    reveal_strlit("expel_to_right");
    reveal_strlit("consume_from_left");
    lemma_not_prefix_at("switch_workspace_"@, fixed_actions()[14].id, 0);
    reveal_strlit("consume_from_right");
    lemma_not_prefix_at("switch_workspace_"@, fixed_actions()[15].id, 0);
    lemma_not_prefix_at("move_to_workspace_"@, fixed_actions()[15].id, 0);
    reveal_strlit("move_window_up");
    reveal_strlit("move_window_down");
    reveal_strlit("cycle_width_down");
    reveal_strlit("cycle_width_up");
    reveal_strlit("equalize_widths");
    reveal_strlit("cycle_height_down");
    lemma_not_prefix_at("switch_workspace_"@, fixed_actions()[21].id, 0);
    reveal_strlit("cycle_height_up");
    reveal_strlit("equalize_heights");
    reveal_strlit("focus_monitor_left");
    lemma_not_prefix_at("switch_workspace_"@, fixed_actions()[24].id, 0);
    lemma_not_prefix_at("move_to_workspace_"@, fixed_actions()[24].id, 0);
    reveal_strlit("focus_monitor_right");
    lemma_not_prefix_at("switch_workspace_"@, fixed_actions()[25].id, 0);
    lemma_not_prefix_at("move_to_workspace_"@, fixed_actions()[25].id, 0);
    reveal_strlit("focus_monitor_up");
    reveal_strlit("focus_monitor_down");
    lemma_not_prefix_at("switch_workspace_"@, fixed_actions()[27].id, 0);
    lemma_not_prefix_at("move_to_workspace_"@, fixed_actions()[27].id, 0);
    reveal_strlit("move_to_monitor_left");
    lemma_not_prefix_at("switch_workspace_"@, fixed_actions()[28].id, 0);
    lemma_not_prefix_at("move_to_workspace_"@, fixed_actions()[28].id, 8);
    reveal_strlit("move_to_monitor_right");
    lemma_not_prefix_at("switch_workspace_"@, fixed_actions()[29].id, 0);
    lemma_not_prefix_at("move_to_workspace_"@, fixed_actions()[29].id, 8);
    reveal_strlit("move_to_monitor_up");
    lemma_not_prefix_at("switch_workspace_"@, fixed_actions()[30].id, 0);
    lemma_not_prefix_at("move_to_workspace_"@, fixed_actions()[30].id, 8);
    reveal_strlit("move_to_monitor_down");
    lemma_not_prefix_at("switch_workspace_"@, fixed_actions()[31].id, 0);
    lemma_not_prefix_at("move_to_workspace_"@, fixed_actions()[31].id, 8);
    reveal_strlit("center_column");
    reveal_strlit("maximize_column");
    reveal_strlit("close_window");
    reveal_strlit("toggle_floating");
    reveal_strlit("toggle_fullscreen");
    lemma_not_prefix_at("switch_workspace_"@, fixed_actions()[36].id, 0);
    reveal_strlit("toggle_tabbed");
    reveal_strlit("scratchpad_toggle");
    lemma_not_prefix_at("switch_workspace_"@, fixed_actions()[38].id, 1);
    reveal_strlit("scratchpad_stash");
    reveal_strlit("toggle_sticky");
    reveal_strlit("toggle_new_window_placement");
    lemma_not_prefix_at("switch_workspace_"@, fixed_actions()[41].id, 0);
    lemma_not_prefix_at("move_to_workspace_"@, fixed_actions()[41].id, 0);
    reveal_strlit("toggle_pause");
    reveal_strlit("refresh");
    reveal_strlit("reload");
    reveal_strlit("panic_revert");
    reveal_strlit("toggle_overview");
    reveal_strlit("workspace_prev");
    reveal_strlit("workspace_next");
}


/// The relative workspace moves of the catalog name their commands.
proof fn lemma_relative_moves()
    ensures
        command_spec(fixed_actions()[49].id) == Some(IpcCommand::MoveToWorkspacePrev),
        command_spec(fixed_actions()[50].id) == Some(IpcCommand::MoveToWorkspaceNext),
{
    reveal_strlit("switch_workspace_");
    reveal_strlit("move_to_workspace_");
    reveal_strlit("move_to_workspace_prev");
    reveal_strlit("move_to_workspace_next");
    reveal_strlit("prev");
    reveal_strlit("next");
    let p = "move_to_workspace_"@;
    let prev = fixed_actions()[49].id;
    let next = fixed_actions()[50].id;
    lemma_not_prefix_at("switch_workspace_"@, prev, 0);
    lemma_not_prefix_at("switch_workspace_"@, next, 0);
    assert(p =~= prev.subrange(0, p.len() as int));
    assert(p =~= next.subrange(0, p.len() as int));
    assert(prev.skip(p.len() as int) =~= "prev"@);
    assert(next.skip(p.len() as int) =~= "next"@);
}

/// A single digit 1 to 9 is read as that workspace number.
proof fn lemma_digit_workspace_index(n: int)
    requires
        1 <= n <= 9,
    ensures
        workspace_index(digit(n)) == Some(n as u8),
{
    let d = digit(n);
    assert(unsigned_digits(d) == d);
    assert(d.drop_last() =~= Seq::<char>::empty());
    assert(decimal_value(d.drop_last()) == 0);
    assert((d.last() as int) == ('0' as int) + n);
    assert(decimal_value(d) == n);
    assert(parse_u8_spec(d) == Some(n as u8));
}

/// The numbered workspace actions name the numbered workspace commands.
pub proof fn lemma_numbered_workspace_actions(n: int)
    requires
        1 <= n <= 9,
    ensures
        command_spec(switch_workspace_action(n).id) == Some(
            IpcCommand::SwitchWorkspace { index: n as u8 },
        ),
        command_spec(move_to_workspace_action(n).id) == Some(
            IpcCommand::MoveToWorkspace { index: n as u8 },
        ),
{
    reveal_strlit("switch_workspace_");
    reveal_strlit("move_to_workspace_");
    reveal_strlit("prev");
    reveal_strlit("next");
    lemma_digit_workspace_index(n);
    let s = switch_workspace_action(n).id;
    let m = move_to_workspace_action(n).id;
    let ps = "switch_workspace_"@;
    let pm = "move_to_workspace_"@;
    assert(ps =~= s.subrange(0, ps.len() as int));
    assert(s.skip(ps.len() as int) =~= digit(n));
    lemma_not_prefix_at(ps, m, 0);
    assert(pm =~= m.subrange(0, pm.len() as int));
    assert(m.skip(pm.len() as int) =~= digit(n));
}

/// Every action of the catalog names a command.
pub proof fn lemma_catalog_actions_have_commands()
    ensures
        forall|i: int|
            0 <= i < catalog_spec().len() ==> (#[trigger] command_spec(catalog_spec()[i].id)) is Some,
{
    lemma_fixed_ids_are_named();
    lemma_fixed_ids_unprefixed();
    lemma_relative_moves();
    assert forall|i: int| 0 <= i < catalog_spec().len() implies (#[trigger] command_spec(
        catalog_spec()[i].id,
    )) is Some by {
        if i < 49 {
            assert(catalog_spec()[i] == fixed_actions()[i]);
        } else if i < 51 {
            assert(catalog_spec()[i] == fixed_actions()[i]);
        } else if i < 60 {
            assert(catalog_spec()[i] == switch_workspace_actions()[i - 51]);
            lemma_numbered_workspace_actions(i - 50);
        } else {
            assert(catalog_spec()[i] == move_to_workspace_actions()[i - 60]);
            lemma_numbered_workspace_actions(i - 59);
        }
    }
}

/// The only catalog action without a default key is the new-window
/// placement toggle.
proof fn lemma_catalog_unbound_action()
    ensures
        catalog_spec().len() == 69,
        catalog_spec()[41].key is None,
        forall|i: int| 0 <= i < 69 && i != 41 ==> (#[trigger] catalog_spec()[i]).key is Some,
{
    assert forall|i: int| 0 <= i < 69 && i != 41 implies (#[trigger] catalog_spec()[i]).key is Some by {
        if i < 51 {
            assert(catalog_spec()[i] == fixed_actions()[i]);
        } else if i < 60 {
            assert(catalog_spec()[i] == switch_workspace_actions()[i - 51]);
        } else {
            assert(catalog_spec()[i] == move_to_workspace_actions()[i - 60]);
        }
    }
}

/// The default bindings hold exactly one entry per catalog action with a
/// default key (68 of them), mapping the key chord to the action's id.
pub proof fn lemma_default_bindings_match_catalog()
    ensures
        forall|i: int|
            0 <= i < catalog_spec().len() && (#[trigger] catalog_spec()[i]).key is Some
                ==> bindings_of(catalog_spec()).contains_key(catalog_spec()[i].key.unwrap())
                && bindings_of(catalog_spec())[catalog_spec()[i].key.unwrap()]
                == catalog_spec()[i].id,
        forall|k: Seq<char>|
            #[trigger] bindings_of(catalog_spec()).contains_key(k) ==> exists|i: int|
                0 <= i < catalog_spec().len() && (#[trigger] catalog_spec()[i]).key == Some(k),
        bindings_of(catalog_spec()).len() == bound_count(catalog_spec()),
        bound_count(catalog_spec()) == 68,
{
    lemma_catalog_distinct();
    lemma_bindings_of_distinct(catalog_spec());
    lemma_catalog_unbound_action();
    lemma_bound_count_all_but_one(catalog_spec(), 41);
}

/// Every entry of the default key-chord map appears in the template as the
/// line that binds that chord to that action id.
pub proof fn lemma_template_binds_default_bindings()
    ensures
        forall|k: Seq<char>|
            #[trigger] bindings_of(catalog_spec()).contains_key(k) ==> occurs_in(
                binding_line(k, bindings_of(catalog_spec())[k]),
                template_of(catalog_spec()),
            ),
{
    lemma_default_bindings_match_catalog();
    assert forall|k: Seq<char>| #[trigger] bindings_of(catalog_spec()).contains_key(k) implies occurs_in(
        binding_line(k, bindings_of(catalog_spec())[k]),
        template_of(catalog_spec()),
    ) by {
        let i = choose|i: int| 0 <= i < catalog_spec().len() && (#[trigger] catalog_spec()[i]).key == Some(k);
        lemma_template_lines(catalog_spec(), i);
    }
}

/// The numbered workspace commands that an id can name are those of
/// workspaces 1 to 9.
pub proof fn lemma_workspace_commands_in_range(id: Seq<char>)
    ensures
        command_spec(id) matches Some(IpcCommand::SwitchWorkspace { index }) ==> 1 <= index <= 9,
        command_spec(id) matches Some(IpcCommand::MoveToWorkspace { index }) ==> 1 <= index <= 9,
{
}

/// `id` is the id of an action of the catalog.
pub open spec fn is_catalog_id(id: Seq<char>) -> bool {
    exists|i: int| 0 <= i < catalog_spec().len() && #[trigger] catalog_spec()[i].id == id
}

/// `id` is one of the ids outside the catalog that config files may still
/// use: the focus cycling and scroll gestures, the width-resize renames and
/// the width presets.
pub open spec fn is_command_alias(id: Seq<char>) -> bool {
    id == "focus_next"@
        || id == "focus_prev"@
        || id == "resize_grow"@
        || id == "resize_shrink"@
        || id == "scroll_left"@
        || id == "scroll_right"@
        || id == "width_third"@
        || id == "width_half"@
        || id == "width_two_thirds"@
}

/// `id` is a workspace prefix followed by a number from 1 to 9 (as
/// `u8::from_str` reads it).
pub open spec fn is_numbered_workspace_id(id: Seq<char>) -> bool {
    ||| "switch_workspace_"@.is_prefix_of(id) && workspace_index(
        id.skip("switch_workspace_"@.len() as int),
    ) is Some
    ||| "move_to_workspace_"@.is_prefix_of(id) && workspace_index(
        id.skip("move_to_workspace_"@.len() as int),
    ) is Some
}

/// A whole-word id that names a command is a catalog id or an alias.
proof fn lemma_named_ids_are_known(id: Seq<char>)
    requires
        named_command(id) is Some,
    ensures
        is_catalog_id(id) || is_command_alias(id),
{
    if id == "focus_left"@ {
        assert(catalog_spec()[0].id == id);
    } else if id == "focus_right"@ {
        assert(catalog_spec()[1].id == id);
    } else if id == "focus_up"@ {
        assert(catalog_spec()[2].id == id);
    } else if id == "focus_down"@ {
        assert(catalog_spec()[3].id == id);
    } else if id == "focus_next"@ {
        assert(is_command_alias(id));
    } else if id == "focus_prev"@ {
        assert(is_command_alias(id));
    } else if id == "focus_start"@ {
        assert(catalog_spec()[4].id == id);
    } else if id == "focus_end"@ {
        assert(catalog_spec()[5].id == id);
    } else if id == "move_column_left"@ {
        assert(catalog_spec()[6].id == id);
    } else if id == "move_column_right"@ {
        assert(catalog_spec()[7].id == id);
    } else if id == "move_column_to_start"@ {
        assert(catalog_spec()[8].id == id);
    } else if id == "move_column_to_end"@ {
        assert(catalog_spec()[9].id == id);
    } else if id == "focus_monitor_left"@ {
        assert(catalog_spec()[24].id == id);
    } else if id == "focus_monitor_right"@ {
        assert(catalog_spec()[25].id == id);
    } else if id == "focus_monitor_up"@ {
        assert(catalog_spec()[26].id == id);
    } else if id == "focus_monitor_down"@ {
        assert(catalog_spec()[27].id == id);
    } else if id == "move_to_monitor_left"@ {
        assert(catalog_spec()[28].id == id);
    } else if id == "move_to_monitor_right"@ {
        assert(catalog_spec()[29].id == id);
    } else if id == "move_to_monitor_up"@ {
        assert(catalog_spec()[30].id == id);
    } else if id == "move_to_monitor_down"@ {
        assert(catalog_spec()[31].id == id);
    } else if id == "cycle_width_up"@ {
        assert(catalog_spec()[19].id == id);
    } else if id == "resize_grow"@ {
        assert(is_command_alias(id));
    } else if id == "cycle_width_down"@ {
        assert(catalog_spec()[18].id == id);
    } else if id == "resize_shrink"@ {
        assert(is_command_alias(id));
    } else if id == "cycle_height_up"@ {
        assert(catalog_spec()[22].id == id);
    } else if id == "cycle_height_down"@ {
        assert(catalog_spec()[21].id == id);
    } else if id == "equalize_heights"@ {
        assert(catalog_spec()[23].id == id);
    } else if id == "scroll_left"@ {
        assert(is_command_alias(id));
    } else if id == "scroll_right"@ {
        assert(is_command_alias(id));
    } else if id == "refresh"@ {
        assert(catalog_spec()[43].id == id);
    } else if id == "reload"@ {
        assert(catalog_spec()[44].id == id);
    } else if id == "panic_revert"@ {
        assert(catalog_spec()[45].id == id);
    } else if id == "toggle_pause"@ {
        assert(catalog_spec()[42].id == id);
    } else if id == "close_window"@ {
        assert(catalog_spec()[34].id == id);
    } else if id == "toggle_floating"@ {
        assert(catalog_spec()[35].id == id);
    } else if id == "toggle_fullscreen"@ {
        assert(catalog_spec()[36].id == id);
    } else if id == "scratchpad_stash"@ {
        assert(catalog_spec()[39].id == id);
    } else if id == "scratchpad_toggle"@ {
        assert(catalog_spec()[38].id == id);
    } else if id == "toggle_sticky"@ {
        assert(catalog_spec()[40].id == id);
    } else if id == "toggle_new_window_placement"@ {
        assert(catalog_spec()[41].id == id);
    } else if id == "toggle_tabbed"@ {
        assert(catalog_spec()[37].id == id);
    } else if id == "width_third"@ {
        assert(is_command_alias(id));
    } else if id == "width_half"@ {
        assert(is_command_alias(id));
    } else if id == "width_two_thirds"@ {
        assert(is_command_alias(id));
    } else if id == "center_column"@ {
        assert(catalog_spec()[32].id == id);
    } else if id == "maximize_column"@ {
        assert(catalog_spec()[33].id == id);
    } else if id == "equalize_widths"@ {
        assert(catalog_spec()[20].id == id);
    } else if id == "move_window_left"@ {
        assert(catalog_spec()[10].id == id);
    } else if id == "move_window_right"@ {
        assert(catalog_spec()[11].id == id);
    } else if id == "expel_to_left"@ {
        assert(catalog_spec()[12].id == id);
    } else if id == "expel_to_right"@ {
        assert(catalog_spec()[13].id == id);
    } else if id == "consume_from_left"@ {
        assert(catalog_spec()[14].id == id);
    } else if id == "consume_from_right"@ {
        assert(catalog_spec()[15].id == id);
    } else if id == "move_window_up"@ {
        assert(catalog_spec()[16].id == id);
    } else if id == "move_window_down"@ {
        assert(catalog_spec()[17].id == id);
    } else if id == "workspace_prev"@ {
        assert(catalog_spec()[47].id == id);
    } else if id == "workspace_next"@ {
        assert(catalog_spec()[48].id == id);
    } else if id == "toggle_overview"@ {
        assert(catalog_spec()[46].id == id);
    }
}

/// `command_for_action` accepts exactly the catalog ids, the aliases and the
/// numbered workspace ids 1 to 9.
pub proof fn lemma_accepted_ids(id: Seq<char>)
    ensures
        command_spec(id) is Some <==> is_catalog_id(id) || is_command_alias(id)
            || is_numbered_workspace_id(id),
{
    reveal_strlit("switch_workspace_");
    reveal_strlit("move_to_workspace_");
    reveal_strlit("prev");
    reveal_strlit("next");
    reveal_strlit("move_to_workspace_prev");
    reveal_strlit("move_to_workspace_next");
    reveal_strlit("focus_next");
    reveal_strlit("focus_prev");
    reveal_strlit("resize_grow");
    reveal_strlit("resize_shrink");
    reveal_strlit("scroll_left");
    reveal_strlit("scroll_right");
    reveal_strlit("width_third");
    reveal_strlit("width_half");
    reveal_strlit("width_two_thirds");
    lemma_catalog_actions_have_commands();
    let p1 = "switch_workspace_"@;
    let p2 = "move_to_workspace_"@;
    if is_catalog_id(id) {
        let i = choose|i: int| 0 <= i < catalog_spec().len() && #[trigger] catalog_spec()[i].id == id;
        assert(command_spec(catalog_spec()[i].id) is Some);
    }
    if p1.is_prefix_of(id) {
        assert(!is_command_alias(id));
        assert(id.subrange(0, p1.len() as int)[0] == id[0]);
        if p2.is_prefix_of(id) {
            assert(id.subrange(0, p2.len() as int)[0] == id[0]);
        }
    } else if p2.is_prefix_of(id) {
        assert(!is_command_alias(id));
        let suffix = id.skip(p2.len() as int);
        assert(id =~= p2 + suffix);
        if suffix == "prev"@ {
            assert(id =~= "move_to_workspace_prev"@);
            assert(catalog_spec()[49].id == id);
        } else if suffix == "next"@ {
            assert(id =~= "move_to_workspace_next"@);
            assert(catalog_spec()[50].id == id);
        }
    } else {
        if named_command(id) is Some {
            lemma_named_ids_are_known(id);
        }
    }
}

/// The whole-word id that names a command (the first one where two ids
/// name the same command); empty for the numbered and relative workspace
/// commands, which are named through a prefix.
pub open spec fn canonical_id(c: IpcCommand) -> Seq<char> {
    match c {
        IpcCommand::FocusLeft => "focus_left"@,
        IpcCommand::FocusRight => "focus_right"@,
        IpcCommand::FocusUp => "focus_up"@,
        IpcCommand::FocusDown => "focus_down"@,
        IpcCommand::FocusNext => "focus_next"@,
        IpcCommand::FocusPrev => "focus_prev"@,
        IpcCommand::FocusStart => "focus_start"@,
        IpcCommand::FocusEnd => "focus_end"@,
        IpcCommand::MoveColumnLeft => "move_column_left"@,
        IpcCommand::MoveColumnRight => "move_column_right"@,
        IpcCommand::MoveColumnToStart => "move_column_to_start"@,
        IpcCommand::MoveColumnToEnd => "move_column_to_end"@,
        IpcCommand::FocusMonitorLeft => "focus_monitor_left"@,
        IpcCommand::FocusMonitorRight => "focus_monitor_right"@,
        IpcCommand::FocusMonitorUp => "focus_monitor_up"@,
        IpcCommand::FocusMonitorDown => "focus_monitor_down"@,
        IpcCommand::MoveWindowToMonitorLeft => "move_to_monitor_left"@,
        IpcCommand::MoveWindowToMonitorRight => "move_to_monitor_right"@,
        IpcCommand::MoveWindowToMonitorUp => "move_to_monitor_up"@,
        IpcCommand::MoveWindowToMonitorDown => "move_to_monitor_down"@,
        IpcCommand::CycleWidthUp => "cycle_width_up"@,
        IpcCommand::CycleWidthDown => "cycle_width_down"@,
        IpcCommand::CycleHeightUp => "cycle_height_up"@,
        IpcCommand::CycleHeightDown => "cycle_height_down"@,
        IpcCommand::EqualizeColumnHeights => "equalize_heights"@,
        IpcCommand::Refresh => "refresh"@,
        IpcCommand::Reload => "reload"@,
        IpcCommand::PanicRevert => "panic_revert"@,
        IpcCommand::TogglePause => "toggle_pause"@,
        IpcCommand::CloseWindow => "close_window"@,
        IpcCommand::ToggleFloating => "toggle_floating"@,
        IpcCommand::ToggleFullscreen => "toggle_fullscreen"@,
        IpcCommand::ScratchpadStash => "scratchpad_stash"@,
        IpcCommand::ScratchpadToggle => "scratchpad_toggle"@,
        IpcCommand::ToggleSticky => "toggle_sticky"@,
        IpcCommand::ToggleNewWindowPlacement => "toggle_new_window_placement"@,
        IpcCommand::ToggleTabbed => "toggle_tabbed"@,
        IpcCommand::CenterColumn => "center_column"@,
        IpcCommand::MaximizeColumn => "maximize_column"@,
        IpcCommand::EqualizeColumnWidths => "equalize_widths"@,
        IpcCommand::MoveWindowLeft => "move_window_left"@,
        IpcCommand::MoveWindowRight => "move_window_right"@,
        IpcCommand::ExpelToLeft => "expel_to_left"@,
        IpcCommand::ExpelToRight => "expel_to_right"@,
        IpcCommand::ConsumeFromLeft => "consume_from_left"@,
        IpcCommand::ConsumeFromRight => "consume_from_right"@,
        IpcCommand::MoveWindowUp => "move_window_up"@,
        IpcCommand::MoveWindowDown => "move_window_down"@,
        IpcCommand::WorkspacePrev => "workspace_prev"@,
        IpcCommand::WorkspaceNext => "workspace_next"@,
        IpcCommand::ToggleOverview => "toggle_overview"@,
        IpcCommand::Scroll { delta } => if delta < 0 {
            "scroll_left"@
        } else {
            "scroll_right"@
        },
        IpcCommand::SetColumnWidth { permille } => if permille == 333 {
            "width_third"@
        } else if permille == 500 {
            "width_half"@
        } else {
            "width_two_thirds"@
        },
        _ => Seq::empty(),
    }
}

/// The command that a whole-word id names is the one of its canonical id;
/// only the two width-resize renames name a command under another id.
proof fn lemma_named_command_ids(id: Seq<char>)
    requires
        named_command(id) is Some,
    ensures
        id == canonical_id(named_command(id).unwrap()) || (id == "resize_grow"@
            && named_command(id) == Some(IpcCommand::CycleWidthUp)) || (id == "resize_shrink"@
            && named_command(id) == Some(IpcCommand::CycleWidthDown)),
        !(named_command(id).unwrap() is SwitchWorkspace),
        !(named_command(id).unwrap() is MoveToWorkspace),
        !(named_command(id).unwrap() is MoveToWorkspacePrev),
        !(named_command(id).unwrap() is MoveToWorkspaceNext),
{
}

/// The command of each catalog action, by its place in the catalog.
proof fn lemma_catalog_command(i: int)
    requires
        0 <= i < catalog_spec().len(),
    ensures
        i < 49 ==> command_spec(catalog_spec()[i].id) == named_command(catalog_spec()[i].id)
            && named_command(catalog_spec()[i].id) is Some,
        i == 49 ==> command_spec(catalog_spec()[i].id) == Some(IpcCommand::MoveToWorkspacePrev),
        i == 50 ==> command_spec(catalog_spec()[i].id) == Some(IpcCommand::MoveToWorkspaceNext),
        51 <= i < 60 ==> command_spec(catalog_spec()[i].id) == Some(
            IpcCommand::SwitchWorkspace { index: (i - 50) as u8 },
        ),
        60 <= i ==> command_spec(catalog_spec()[i].id) == Some(
            IpcCommand::MoveToWorkspace { index: (i - 59) as u8 },
        ),
{
    lemma_fixed_ids_are_named();
    lemma_fixed_ids_unprefixed();
    lemma_relative_moves();
    if i < 51 {
        assert(catalog_spec()[i] == fixed_actions()[i]);
    } else if i < 60 {
        assert(catalog_spec()[i] == switch_workspace_actions()[i - 51]);
        lemma_numbered_workspace_actions(i - 50);
    } else {
        assert(catalog_spec()[i] == move_to_workspace_actions()[i - 60]);
        lemma_numbered_workspace_actions(i - 59);
    }
}

/// Distinct actions of the catalog name distinct commands.
pub proof fn lemma_catalog_commands_distinct()
    ensures
        forall|i: int, j: int|
            0 <= i < catalog_spec().len() && 0 <= j < catalog_spec().len() && i != j
                ==> #[trigger] command_spec(catalog_spec()[i].id) != #[trigger] command_spec(
                catalog_spec()[j].id,
            ),
{
    lemma_catalog_distinct();
    lemma_width_renames_not_in_catalog();
    assert forall|i: int, j: int|
        0 <= i < catalog_spec().len() && 0 <= j < catalog_spec().len() && i != j implies #[trigger] command_spec(
            catalog_spec()[i].id,
        ) != #[trigger] command_spec(catalog_spec()[j].id) by {
        lemma_catalog_command(i);
        lemma_catalog_command(j);
        if i < 49 {
            lemma_named_command_ids(catalog_spec()[i].id);
        }
        if j < 49 {
            lemma_named_command_ids(catalog_spec()[j].id);
        }
        if i < 49 && j < 49 {
            assert(catalog_spec()[i].id != catalog_spec()[j].id);
        }
    }
}

/// Every catalog action has a non-empty group.
proof fn lemma_catalog_groups_nonempty()
    ensures
        forall|i: int|
            0 <= i < catalog_spec().len() ==> (#[trigger] catalog_spec()[i]).group != ""@,
{
    reveal_strlit("");
    assert(""@.len() == 0);
    reveal_strlit("Column layout");
    assert("Column layout"@.len() > 0);
    reveal_strlit("Column width");
    assert("Column width"@.len() > 0);
    reveal_strlit("Expel window to a new column");
    assert("Expel window to a new column"@.len() > 0);
    reveal_strlit("Focus");
    assert("Focus"@.len() > 0);
    reveal_strlit("Monitor focus");
    assert("Monitor focus"@.len() > 0);
    reveal_strlit("Move column");
    assert("Move column"@.len() > 0);
    reveal_strlit("Move window to adjacent column");
    assert("Move window to adjacent column"@.len() > 0);
    reveal_strlit("Move window to monitor");
    assert("Move window to monitor"@.len() > 0);
    reveal_strlit("Move window to workspace");
    assert("Move window to workspace"@.len() > 0);
    reveal_strlit("Move window within column");
    assert("Move window within column"@.len() > 0);
    reveal_strlit("Session");
    assert("Session"@.len() > 0);
    reveal_strlit("Stack the neighbor's window into the focused column");
    assert("Stack the neighbor's window into the focused column"@.len() > 0);
    reveal_strlit("Switch to workspace");
    assert("Switch to workspace"@.len() > 0);
    reveal_strlit("Window");
    assert("Window"@.len() > 0);
    reveal_strlit("Window height");
    assert("Window height"@.len() > 0);
    reveal_strlit("Workspaces");
    assert("Workspaces"@.len() > 0);
    assert forall|i: int| 0 <= i < catalog_spec().len() implies (#[trigger] catalog_spec()[i]).group
        != ""@ by {
        if i < 51 {
            assert(catalog_spec()[i] == fixed_actions()[i]);
        } else if i < 60 {
            assert(catalog_spec()[i] == switch_workspace_actions()[i - 51]);
        } else {
            assert(catalog_spec()[i] == move_to_workspace_actions()[i - 60]);
        }
    }
}

/// The template block is the concatenation, over the catalog actions that
/// have a default key, of a `# <group>` line where the group changes (set
/// off by a blank line after the first section) and the binding line.
pub proof fn lemma_catalog_template_bound_form()
    ensures
        template_of(catalog_spec()) == bound_text(bound_actions(catalog_spec())),
{
    lemma_catalog_groups_nonempty();
    lemma_template_bound_form(catalog_spec());
}

/// A concatenation of plain texts is plain text.
proof fn lemma_plain_concat(a: Seq<char>, b: Seq<char>)
    requires
        is_plain_text(a),
        is_plain_text(b),
    ensures
        is_plain_text(a + b),
{
    assert forall|p: int| 0 <= p < (a + b).len() implies #[trigger] (a + b)[p] != '"' && (a
        + b)[p] != '\n' by {
        if p < a.len() {
            assert((a + b)[p] == a[p]);
        } else {
            assert((a + b)[p] == b[p - a.len()]);
        }
    }
}

/// The actions written out one by one have plain ids, keys and groups.
proof fn lemma_fixed_actions_plain()
    ensures
        forall|i: int|
            0 <= i < fixed_actions().len() ==> is_plain_text((#[trigger] fixed_actions()[i]).id)
                && is_plain_text(fixed_actions()[i].group) && (fixed_actions()[i].key is Some
                ==> is_plain_text(fixed_actions()[i].key.unwrap())),
{
    reveal_strlit("Column layout");
    reveal_strlit("Column width");
    reveal_strlit("Expel window to a new column");
    reveal_strlit("F13+,");
    reveal_strlit("F13+-");
    reveal_strlit("F13+.");
    reveal_strlit("F13+0");
    reveal_strlit("F13+=");
    reveal_strlit("F13+C");
    reveal_strlit("F13+Ctrl+H");
    reveal_strlit("F13+Ctrl+J");
    reveal_strlit("F13+Ctrl+K");
    reveal_strlit("F13+Ctrl+L");
    reveal_strlit("F13+Ctrl+Shift+H");
    reveal_strlit("F13+Ctrl+Shift+J");
    reveal_strlit("F13+Ctrl+Shift+K");
    reveal_strlit("F13+Ctrl+Shift+L");
    reveal_strlit("F13+End");
    reveal_strlit("F13+F");
    reveal_strlit("F13+H");
    reveal_strlit("F13+Home");
    reveal_strlit("F13+J");
    reveal_strlit("F13+K");
    reveal_strlit("F13+L");
    reveal_strlit("F13+Left");
    reveal_strlit("F13+M");
    reveal_strlit("F13+P");
    reveal_strlit("F13+R");
    reveal_strlit("F13+Right");
    reveal_strlit("F13+S");
    reveal_strlit("F13+Shift+-");
    reveal_strlit("F13+Shift+0");
    reveal_strlit("F13+Shift+=");
    reveal_strlit("F13+Shift+End");
    reveal_strlit("F13+Shift+F");
    reveal_strlit("F13+Shift+H");
    reveal_strlit("F13+Shift+Home");
    reveal_strlit("F13+Shift+J");
    reveal_strlit("F13+Shift+K");
    reveal_strlit("F13+Shift+L");
    reveal_strlit("F13+Shift+Left");
    reveal_strlit("F13+Shift+R");
    reveal_strlit("F13+Shift+Right");
    reveal_strlit("F13+Shift+S");
    reveal_strlit("F13+Shift+[");
    reveal_strlit("F13+Shift+]");
    reveal_strlit("F13+Space");
    reveal_strlit("F13+T");
    reveal_strlit("F13+W");
    reveal_strlit("F13+Y");
    reveal_strlit("F13+[");
    reveal_strlit("F13+]");
    reveal_strlit("Focus");
    reveal_strlit("Monitor focus");
    reveal_strlit("Move column");
    reveal_strlit("Move window to adjacent column");
    reveal_strlit("Move window to monitor");
    reveal_strlit("Move window to workspace");
    reveal_strlit("Move window within column");
    reveal_strlit("Session");
    reveal_strlit("Stack the neighbor's window into the focused column");
    reveal_strlit("Win+Ctrl+Escape");
    reveal_strlit("Window");
    reveal_strlit("Window height");
    reveal_strlit("Workspaces");
    reveal_strlit("center_column");
    reveal_strlit("close_window");
    reveal_strlit("consume_from_left");
    reveal_strlit("consume_from_right");
    reveal_strlit("cycle_height_down");
    reveal_strlit("cycle_height_up");
    reveal_strlit("cycle_width_down");
    reveal_strlit("cycle_width_up");
    reveal_strlit("equalize_heights");
    reveal_strlit("equalize_widths");
    reveal_strlit("expel_to_left");
    reveal_strlit("expel_to_right");
    reveal_strlit("focus_down");
    reveal_strlit("focus_end");
    reveal_strlit("focus_left");
    reveal_strlit("focus_monitor_down");
    reveal_strlit("focus_monitor_left");
    reveal_strlit("focus_monitor_right");
    reveal_strlit("focus_monitor_up");
    reveal_strlit("focus_right");
    reveal_strlit("focus_start");
    reveal_strlit("focus_up");
    reveal_strlit("maximize_column");
    reveal_strlit("move_column_left");
    reveal_strlit("move_column_right");
    reveal_strlit("move_column_to_end");
    reveal_strlit("move_column_to_start");
    reveal_strlit("move_to_monitor_down");
    reveal_strlit("move_to_monitor_left");
    reveal_strlit("move_to_monitor_right");
    reveal_strlit("move_to_monitor_up");
    reveal_strlit("move_to_workspace_next");
    reveal_strlit("move_to_workspace_prev");
    reveal_strlit("move_window_down");
    reveal_strlit("move_window_left");
    reveal_strlit("move_window_right");
    reveal_strlit("move_window_up");
    reveal_strlit("panic_revert");
    reveal_strlit("refresh");
    reveal_strlit("reload");
    reveal_strlit("scratchpad_stash");
    reveal_strlit("scratchpad_toggle");
    reveal_strlit("toggle_floating");
    reveal_strlit("toggle_fullscreen");
    reveal_strlit("toggle_new_window_placement");
    reveal_strlit("toggle_overview");
    reveal_strlit("toggle_pause");
    reveal_strlit("toggle_sticky");
    reveal_strlit("toggle_tabbed");
    reveal_strlit("workspace_next");
    reveal_strlit("workspace_prev");
}

/// The numbered workspace actions have plain ids, keys and groups.
proof fn lemma_numbered_actions_plain(n: int)
    requires
        1 <= n <= 9,
    ensures
        is_plain_text(switch_workspace_action(n).id),
        is_plain_text(switch_workspace_action(n).key.unwrap()),
        is_plain_text(switch_workspace_action(n).group),
        is_plain_text(move_to_workspace_action(n).id),
        is_plain_text(move_to_workspace_action(n).key.unwrap()),
        is_plain_text(move_to_workspace_action(n).group),
{
    reveal_strlit("switch_workspace_");
    reveal_strlit("move_to_workspace_");
    reveal_strlit("F13+");
    reveal_strlit("F13+Shift+");
    reveal_strlit("Switch to workspace");
    reveal_strlit("Move window to workspace");
    assert(is_plain_text(digit(n)));
    lemma_plain_concat("switch_workspace_"@, digit(n));
    lemma_plain_concat("move_to_workspace_"@, digit(n));
    lemma_plain_concat("F13+"@, digit(n));
    lemma_plain_concat("F13+Shift+"@, digit(n));
}

/// Every catalog action with a default key has plain text in its key, id
/// and group: no double quote and no line break.
proof fn lemma_catalog_plain()
    ensures
        forall|i: int|
            0 <= i < catalog_spec().len() && (#[trigger] catalog_spec()[i]).key is Some
                ==> is_plain_text(catalog_spec()[i].key.unwrap()) && is_plain_text(
                catalog_spec()[i].id,
            ) && is_plain_text(catalog_spec()[i].group),
{
    lemma_fixed_actions_plain();
    assert forall|i: int|
        0 <= i < catalog_spec().len() && (#[trigger] catalog_spec()[i]).key is Some implies is_plain_text(
            catalog_spec()[i].key.unwrap(),
        ) && is_plain_text(catalog_spec()[i].id) && is_plain_text(catalog_spec()[i].group) by {
        if i < 51 {
            assert(catalog_spec()[i] == fixed_actions()[i]);
        } else if i < 60 {
            assert(catalog_spec()[i] == switch_workspace_actions()[i - 51]);
            lemma_numbered_actions_plain(i - 50);
        } else {
            assert(catalog_spec()[i] == move_to_workspace_actions()[i - 60]);
            lemma_numbered_actions_plain(i - 59);
        }
    }
}

/// The template block is its lines, each followed by a line break, and no
/// line holds a line break. Its binding lines (those that start with a
/// double quote) are as many as the default bindings, and each default
/// binding's line appears exactly once among the lines.
pub proof fn lemma_template_lines_match_default_bindings()
    ensures
        template_of(catalog_spec()) == lines_text(template_lines(catalog_spec())),
        lines_unbroken(template_lines(catalog_spec())),
        count_lines(template_lines(catalog_spec()), quoted_line()) == bindings_of(
            catalog_spec(),
        ).len(),
        forall|k: Seq<char>|
            #[trigger] bindings_of(catalog_spec()).contains_key(k) ==> count_lines(
                template_lines(catalog_spec()),
                line_equal_to(binding_text(k, bindings_of(catalog_spec())[k])),
            ) == 1,
{
    lemma_catalog_plain();
    lemma_catalog_distinct();
    lemma_default_bindings_match_catalog();
    reveal_strlit("");
    assert(is_plain_text(""@));
    lemma_template_lines_structure(catalog_spec(), ""@, ""@);
    assert forall|k: Seq<char>| #[trigger] bindings_of(catalog_spec()).contains_key(k) implies count_lines(
        template_lines(catalog_spec()),
        line_equal_to(binding_text(k, bindings_of(catalog_spec())[k])),
    ) == 1 by {
        let i = choose|i: int|
            0 <= i < catalog_spec().len() && (#[trigger] catalog_spec()[i]).key == Some(k);
        let v = bindings_of(catalog_spec())[k];
        lemma_template_lines_structure(catalog_spec(), k, v);
        lemma_count_bindings_unique(catalog_spec(), k, v, i);
    }
}

} // verus!
