//! Laws on the labels of the catalog: how each label reads against its id.

use vstd::prelude::*;

use crate::catalog::{
    catalog_spec, digit, fixed_actions, move_to_workspace_action, move_to_workspace_actions,
    switch_workspace_action, switch_workspace_actions,
};

verus! {

/// The ASCII lower-case form of a character.
pub open spec fn ascii_lower(c: char) -> char {
    if ('A' as int) <= (c as int) && (c as int) <= ('Z' as int) {
        ((c as int) + 32) as char
    } else {
        c
    }
}

/// The ASCII upper-case form of a character.
pub open spec fn ascii_upper(c: char) -> char {
    if ('a' as int) <= (c as int) && (c as int) <= ('z' as int) {
        ((c as int) - 32) as char
    } else {
        c
    }
}

/// How an id reads as words: underscores become spaces and the first
/// letter is a capital.
pub open spec fn humanized(id: Seq<char>) -> Seq<char> {
    Seq::new(
        id.len(),
        |i: int|
            if i == 0 {
                ascii_upper(id[0])
            } else if id[i] == '_' {
                ' '
            } else {
                id[i]
            },
    )
}

/// The ids whose labels are worded otherwise than the id reads: the strip
/// ends, the tabbed and scratchpad toggles, the placement toggle, the
/// reload and the emergency restore, the relative workspace switches, and
/// the numbered and relative workspace actions.
pub open spec fn has_worded_label(id: Seq<char>) -> bool {
    id == "focus_start"@
        || id == "focus_end"@
        || id == "toggle_tabbed"@
        || id == "scratchpad_toggle"@
        || id == "scratchpad_stash"@
        || id == "toggle_new_window_placement"@
        || id == "reload"@
        || id == "panic_revert"@
        || id == "workspace_prev"@
        || id == "workspace_next"@
        || "switch_workspace_"@.is_prefix_of(id)
        || "move_to_workspace_"@.is_prefix_of(id)
}

/// The last word of an id: what follows its last underscore.
pub open spec fn last_word(id: Seq<char>) -> Seq<char>
    decreases id.len(),
{
    if id.len() == 0 || id.last() == '_' {
        Seq::empty()
    } else {
        last_word(id.drop_last()).push(id.last())
    }
}

/// `w` stands in `s` at position `j`, ignoring the case of ASCII letters in `s`.
pub open spec fn matches_at(s: Seq<char>, w: Seq<char>, j: int) -> bool {
    0 <= j && j + w.len() <= s.len() && forall|p: int|
        0 <= p < w.len() ==> ascii_lower(#[trigger] s[j + p]) == w[p]
}

/// `s` contains `w`, ignoring the case of ASCII letters in `s`.
pub open spec fn contains_word(s: Seq<char>, w: Seq<char>) -> bool {
    exists|j: int| #[trigger] matches_at(s, w, j)
}

/// The rows written out one by one read as their ids, unless their label
/// is worded otherwise.
proof fn lemma_fixed_labels_humanized()
    ensures
        forall|i: int|
            0 <= i < fixed_actions().len() ==> (#[trigger] fixed_actions()[i]).label == humanized(
                fixed_actions()[i].id,
            ) || has_worded_label(fixed_actions()[i].id),
{
    reveal_strlit("Center column");
    reveal_strlit("Close window");
    reveal_strlit("Consume from left");
    reveal_strlit("Consume from right");
    reveal_strlit("Cycle height down");
    reveal_strlit("Cycle height up");
    reveal_strlit("Cycle width down");
    reveal_strlit("Cycle width up");
    reveal_strlit("Emergency restore");
    reveal_strlit("Equalize heights");
    reveal_strlit("Equalize widths");
    reveal_strlit("Expel to left");
    reveal_strlit("Expel to right");
    reveal_strlit("Focus down");
    reveal_strlit("Focus end of strip");
    reveal_strlit("Focus left");
    reveal_strlit("Focus monitor down");
    reveal_strlit("Focus monitor left");
    reveal_strlit("Focus monitor right");
    reveal_strlit("Focus monitor up");
    reveal_strlit("Focus right");
    reveal_strlit("Focus start of strip");
    reveal_strlit("Focus up");
    reveal_strlit("Maximize column");
    reveal_strlit("Move column left");
    reveal_strlit("Move column right");
    reveal_strlit("Move column to end");
    reveal_strlit("Move column to start");
    reveal_strlit("Move to monitor down");
    reveal_strlit("Move to monitor left");
    reveal_strlit("Move to monitor right");
    reveal_strlit("Move to monitor up");
    reveal_strlit("Move window down");
    reveal_strlit("Move window left");
    reveal_strlit("Move window right");
    reveal_strlit("Move window to next workspace");
    reveal_strlit("Move window to previous workspace");
    reveal_strlit("Move window up");
    reveal_strlit("Next workspace");
    reveal_strlit("Previous workspace");
    reveal_strlit("Refresh");
    reveal_strlit("Reload config");
    reveal_strlit("Stash to scratchpad");
    reveal_strlit("Toggle floating");
    reveal_strlit("Toggle fullscreen");
    reveal_strlit("Toggle new-window placement (new column / in column)");
    reveal_strlit("Toggle overview");
    reveal_strlit("Toggle pause");
    reveal_strlit("Toggle scratchpad");
    reveal_strlit("Toggle sticky");
    reveal_strlit("Toggle tabbed column");
    reveal_strlit("center_column");
    reveal_strlit("close_window");
    reveal_strlit("column");
    reveal_strlit("consume_from_left");
    reveal_strlit("consume_from_right");
    reveal_strlit("cycle_height_down");
    reveal_strlit("cycle_height_up");
    reveal_strlit("cycle_width_down");
    reveal_strlit("cycle_width_up");
    reveal_strlit("down");
    reveal_strlit("end");
    reveal_strlit("equalize_heights");
    reveal_strlit("equalize_widths");
    reveal_strlit("expel_to_left");
    reveal_strlit("expel_to_right");
    reveal_strlit("floating");
    reveal_strlit("focus_down");
    reveal_strlit("focus_end");
    reveal_strlit("focus_left");
    reveal_strlit("focus_monitor_down");
    reveal_strlit("focus_monitor_left");
    reveal_strlit("focus_monitor_right");
    reveal_strlit("focus_monitor_up");
    reveal_strlit("focus_right");
    reveal_strlit("focus_start");
    reveal_strlit("focus_up");
    reveal_strlit("fullscreen");
    reveal_strlit("heights");
    reveal_strlit("left");
    reveal_strlit("maximize_column");
    reveal_strlit("move_column_left");
    reveal_strlit("move_column_right");
    reveal_strlit("move_column_to_end");
    reveal_strlit("move_column_to_start");
    reveal_strlit("move_to_monitor_down");
    reveal_strlit("move_to_monitor_left");
    reveal_strlit("move_to_monitor_right");
    reveal_strlit("move_to_monitor_up");
    reveal_strlit("move_to_workspace_next");
    reveal_strlit("move_to_workspace_prev");
    reveal_strlit("move_window_down");
    reveal_strlit("move_window_left");
    reveal_strlit("move_window_right");
    reveal_strlit("move_window_up");
    reveal_strlit("next");
    reveal_strlit("overview");
    reveal_strlit("panic_revert");
    reveal_strlit("pause");
    reveal_strlit("placement");
    reveal_strlit("prev");
    reveal_strlit("refresh");
    reveal_strlit("reload");
    reveal_strlit("right");
    reveal_strlit("scratchpad_stash");
    reveal_strlit("scratchpad_toggle");
    reveal_strlit("start");
    reveal_strlit("stash");
    reveal_strlit("sticky");
    reveal_strlit("tabbed");
    reveal_strlit("toggle");
    reveal_strlit("toggle_floating");
    reveal_strlit("toggle_fullscreen");
    reveal_strlit("toggle_new_window_placement");
    reveal_strlit("toggle_overview");
    reveal_strlit("toggle_pause");
    reveal_strlit("toggle_sticky");
    reveal_strlit("toggle_tabbed");
    reveal_strlit("up");
    reveal_strlit("widths");
    reveal_strlit("window");
    reveal_strlit("workspace_next");
    reveal_strlit("workspace_prev");
    reveal_strlit("switch_workspace_");
    reveal_strlit("move_to_workspace_");
    assert(fixed_actions()[0].label =~= humanized(fixed_actions()[0].id));
    assert(fixed_actions()[1].label =~= humanized(fixed_actions()[1].id));
    assert(fixed_actions()[2].label =~= humanized(fixed_actions()[2].id));
    assert(fixed_actions()[3].label =~= humanized(fixed_actions()[3].id));
    assert(fixed_actions()[6].label =~= humanized(fixed_actions()[6].id));
    assert(fixed_actions()[7].label =~= humanized(fixed_actions()[7].id));
    assert(fixed_actions()[8].label =~= humanized(fixed_actions()[8].id));
    assert(fixed_actions()[9].label =~= humanized(fixed_actions()[9].id));
    assert(fixed_actions()[10].label =~= humanized(fixed_actions()[10].id));
    assert(fixed_actions()[11].label =~= humanized(fixed_actions()[11].id));
    assert(fixed_actions()[12].label =~= humanized(fixed_actions()[12].id));
    assert(fixed_actions()[13].label =~= humanized(fixed_actions()[13].id));
    assert(fixed_actions()[14].label =~= humanized(fixed_actions()[14].id));
    assert(fixed_actions()[15].label =~= humanized(fixed_actions()[15].id));
    assert(fixed_actions()[16].label =~= humanized(fixed_actions()[16].id));
    assert(fixed_actions()[17].label =~= humanized(fixed_actions()[17].id));
    assert(fixed_actions()[18].label =~= humanized(fixed_actions()[18].id));
    assert(fixed_actions()[19].label =~= humanized(fixed_actions()[19].id));
    assert(fixed_actions()[20].label =~= humanized(fixed_actions()[20].id));
    assert(fixed_actions()[21].label =~= humanized(fixed_actions()[21].id));
    assert(fixed_actions()[22].label =~= humanized(fixed_actions()[22].id));
    assert(fixed_actions()[23].label =~= humanized(fixed_actions()[23].id));
    assert(fixed_actions()[24].label =~= humanized(fixed_actions()[24].id));
    assert(fixed_actions()[25].label =~= humanized(fixed_actions()[25].id));
    assert(fixed_actions()[26].label =~= humanized(fixed_actions()[26].id));
    assert(fixed_actions()[27].label =~= humanized(fixed_actions()[27].id));
    assert(fixed_actions()[28].label =~= humanized(fixed_actions()[28].id));
    assert(fixed_actions()[29].label =~= humanized(fixed_actions()[29].id));
    assert(fixed_actions()[30].label =~= humanized(fixed_actions()[30].id));
    assert(fixed_actions()[31].label =~= humanized(fixed_actions()[31].id));
    assert(fixed_actions()[32].label =~= humanized(fixed_actions()[32].id));
    assert(fixed_actions()[33].label =~= humanized(fixed_actions()[33].id));
    assert(fixed_actions()[34].label =~= humanized(fixed_actions()[34].id));
    assert(fixed_actions()[35].label =~= humanized(fixed_actions()[35].id));
    assert(fixed_actions()[36].label =~= humanized(fixed_actions()[36].id));
    assert(fixed_actions()[40].label =~= humanized(fixed_actions()[40].id));
    assert(fixed_actions()[42].label =~= humanized(fixed_actions()[42].id));
    assert(fixed_actions()[43].label =~= humanized(fixed_actions()[43].id));
    assert(fixed_actions()[46].label =~= humanized(fixed_actions()[46].id));
    assert("move_to_workspace_"@ =~= fixed_actions()[49].id.subrange(0, 18));
    assert("move_to_workspace_"@ =~= fixed_actions()[50].id.subrange(0, 18));
}

/// Rows 0 to 9 name the last word of their id in their label
/// (the emergency restore aside).
proof fn lemma_fixed_labels_words_0()
    ensures
        forall|i: int|
            0 <= i < 10 ==> (#[trigger] fixed_actions()[i]).id == "panic_revert"@
                || contains_word(fixed_actions()[i].label, last_word(fixed_actions()[i].id)),
{
    reveal_strlit("Focus down");
    reveal_strlit("Focus end of strip");
    reveal_strlit("Focus left");
    reveal_strlit("Focus right");
    reveal_strlit("Focus start of strip");
    reveal_strlit("Focus up");
    reveal_strlit("Move column left");
    reveal_strlit("Move column right");
    reveal_strlit("Move column to end");
    reveal_strlit("Move column to start");
    reveal_strlit("down");
    reveal_strlit("end");
    reveal_strlit("focus_down");
    reveal_strlit("focus_end");
    reveal_strlit("focus_left");
    reveal_strlit("focus_right");
    reveal_strlit("focus_start");
    reveal_strlit("focus_up");
    reveal_strlit("left");
    reveal_strlit("move_column_left");
    reveal_strlit("move_column_right");
    reveal_strlit("move_column_to_end");
    reveal_strlit("move_column_to_start");
    reveal_strlit("right");
    reveal_strlit("start");
    reveal_strlit("up");
    reveal_with_fuel(last_word, 12);
    assert(last_word(fixed_actions()[0].id) =~= "left"@);
    assert(matches_at(fixed_actions()[0].label, "left"@, 6));
    assert(last_word(fixed_actions()[1].id) =~= "right"@);
    assert(matches_at(fixed_actions()[1].label, "right"@, 6));
    assert(last_word(fixed_actions()[2].id) =~= "up"@);
    assert(matches_at(fixed_actions()[2].label, "up"@, 6));
    assert(last_word(fixed_actions()[3].id) =~= "down"@);
    assert(matches_at(fixed_actions()[3].label, "down"@, 6));
    assert(last_word(fixed_actions()[4].id) =~= "start"@);
    assert(matches_at(fixed_actions()[4].label, "start"@, 6));
    assert(last_word(fixed_actions()[5].id) =~= "end"@);
    assert(matches_at(fixed_actions()[5].label, "end"@, 6));
    assert(last_word(fixed_actions()[6].id) =~= "left"@);
    assert(matches_at(fixed_actions()[6].label, "left"@, 12));
    assert(last_word(fixed_actions()[7].id) =~= "right"@);
    assert(matches_at(fixed_actions()[7].label, "right"@, 12));
    assert(last_word(fixed_actions()[8].id) =~= "start"@);
    assert(matches_at(fixed_actions()[8].label, "start"@, 15));
    assert(last_word(fixed_actions()[9].id) =~= "end"@);
    assert(matches_at(fixed_actions()[9].label, "end"@, 15));
}

/// Rows 10 to 19 name the last word of their id in their label
/// (the emergency restore aside).
proof fn lemma_fixed_labels_words_1()
    ensures
        forall|i: int|
            10 <= i < 20 ==> (#[trigger] fixed_actions()[i]).id == "panic_revert"@
                || contains_word(fixed_actions()[i].label, last_word(fixed_actions()[i].id)),
{
    reveal_strlit("Consume from left");
    reveal_strlit("Consume from right");
    reveal_strlit("Cycle width down");
    reveal_strlit("Cycle width up");
    reveal_strlit("Expel to left");
    reveal_strlit("Expel to right");
    reveal_strlit("Move window down");
    reveal_strlit("Move window left");
    reveal_strlit("Move window right");
    reveal_strlit("Move window up");
    reveal_strlit("consume_from_left");
    reveal_strlit("consume_from_right");
    reveal_strlit("cycle_width_down");
    reveal_strlit("cycle_width_up");
    reveal_strlit("down");
    reveal_strlit("expel_to_left");
    reveal_strlit("expel_to_right");
    reveal_strlit("left");
    reveal_strlit("move_window_down");
    reveal_strlit("move_window_left");
    reveal_strlit("move_window_right");
    reveal_strlit("move_window_up");
    reveal_strlit("right");
    reveal_strlit("up");
    reveal_with_fuel(last_word, 12);
    assert(last_word(fixed_actions()[10].id) =~= "left"@);
    assert(matches_at(fixed_actions()[10].label, "left"@, 12));
    assert(last_word(fixed_actions()[11].id) =~= "right"@);
    assert(matches_at(fixed_actions()[11].label, "right"@, 12));
    assert(last_word(fixed_actions()[12].id) =~= "left"@);
    assert(matches_at(fixed_actions()[12].label, "left"@, 9));
    assert(last_word(fixed_actions()[13].id) =~= "right"@);
    assert(matches_at(fixed_actions()[13].label, "right"@, 9));
    assert(last_word(fixed_actions()[14].id) =~= "left"@);
    assert(matches_at(fixed_actions()[14].label, "left"@, 13));
    assert(last_word(fixed_actions()[15].id) =~= "right"@);
    assert(matches_at(fixed_actions()[15].label, "right"@, 13));
    assert(last_word(fixed_actions()[16].id) =~= "up"@);
    assert(matches_at(fixed_actions()[16].label, "up"@, 12));
    assert(last_word(fixed_actions()[17].id) =~= "down"@);
    assert(matches_at(fixed_actions()[17].label, "down"@, 12));
    assert(last_word(fixed_actions()[18].id) =~= "down"@);
    assert(matches_at(fixed_actions()[18].label, "down"@, 12));
    assert(last_word(fixed_actions()[19].id) =~= "up"@);
    assert(matches_at(fixed_actions()[19].label, "up"@, 12));
}

/// Rows 20 to 29 name the last word of their id in their label
/// (the emergency restore aside).
proof fn lemma_fixed_labels_words_2()
    ensures
        forall|i: int|
            20 <= i < 30 ==> (#[trigger] fixed_actions()[i]).id == "panic_revert"@
                || contains_word(fixed_actions()[i].label, last_word(fixed_actions()[i].id)),
{
    reveal_strlit("Cycle height down");
    reveal_strlit("Cycle height up");
    reveal_strlit("Equalize heights");
    reveal_strlit("Equalize widths");
    reveal_strlit("Focus monitor down");
    reveal_strlit("Focus monitor left");
    reveal_strlit("Focus monitor right");
    reveal_strlit("Focus monitor up");
    reveal_strlit("Move to monitor left");
    reveal_strlit("Move to monitor right");
    reveal_strlit("cycle_height_down");
    reveal_strlit("cycle_height_up");
    reveal_strlit("down");
    reveal_strlit("equalize_heights");
    reveal_strlit("equalize_widths");
    reveal_strlit("focus_monitor_down");
    reveal_strlit("focus_monitor_left");
    reveal_strlit("focus_monitor_right");
    reveal_strlit("focus_monitor_up");
    reveal_strlit("heights");
    reveal_strlit("left");
    reveal_strlit("move_to_monitor_left");
    reveal_strlit("move_to_monitor_right");
    reveal_strlit("right");
    reveal_strlit("up");
    reveal_strlit("widths");
    reveal_with_fuel(last_word, 12);
    assert(last_word(fixed_actions()[20].id) =~= "widths"@);
    assert(matches_at(fixed_actions()[20].label, "widths"@, 9));
    assert(last_word(fixed_actions()[21].id) =~= "down"@);
    assert(matches_at(fixed_actions()[21].label, "down"@, 13));
    assert(last_word(fixed_actions()[22].id) =~= "up"@);
    assert(matches_at(fixed_actions()[22].label, "up"@, 13));
    assert(last_word(fixed_actions()[23].id) =~= "heights"@);
    assert(matches_at(fixed_actions()[23].label, "heights"@, 9));
    assert(last_word(fixed_actions()[24].id) =~= "left"@);
    assert(matches_at(fixed_actions()[24].label, "left"@, 14));
    assert(last_word(fixed_actions()[25].id) =~= "right"@);
    assert(matches_at(fixed_actions()[25].label, "right"@, 14));
    assert(last_word(fixed_actions()[26].id) =~= "up"@);
    assert(matches_at(fixed_actions()[26].label, "up"@, 14));
    assert(last_word(fixed_actions()[27].id) =~= "down"@);
    assert(matches_at(fixed_actions()[27].label, "down"@, 14));
    assert(last_word(fixed_actions()[28].id) =~= "left"@);
    assert(matches_at(fixed_actions()[28].label, "left"@, 16));
    assert(last_word(fixed_actions()[29].id) =~= "right"@);
    assert(matches_at(fixed_actions()[29].label, "right"@, 16));
}

/// Rows 30 to 39 name the last word of their id in their label
/// (the emergency restore aside).
proof fn lemma_fixed_labels_words_3()
    ensures
        forall|i: int|
            30 <= i < 40 ==> (#[trigger] fixed_actions()[i]).id == "panic_revert"@
                || contains_word(fixed_actions()[i].label, last_word(fixed_actions()[i].id)),
{
    reveal_strlit("Center column");
    reveal_strlit("Close window");
    reveal_strlit("Maximize column");
    reveal_strlit("Move to monitor down");
    reveal_strlit("Move to monitor up");
    reveal_strlit("Stash to scratchpad");
    reveal_strlit("Toggle floating");
    reveal_strlit("Toggle fullscreen");
    reveal_strlit("Toggle scratchpad");
    reveal_strlit("Toggle tabbed column");
    reveal_strlit("center_column");
    reveal_strlit("close_window");
    reveal_strlit("column");
    reveal_strlit("down");
    reveal_strlit("floating");
    reveal_strlit("fullscreen");
    reveal_strlit("maximize_column");
    reveal_strlit("move_to_monitor_down");
    reveal_strlit("move_to_monitor_up");
    reveal_strlit("scratchpad_stash");
    reveal_strlit("scratchpad_toggle");
    reveal_strlit("stash");
    reveal_strlit("tabbed");
    reveal_strlit("toggle");
    reveal_strlit("toggle_floating");
    reveal_strlit("toggle_fullscreen");
    reveal_strlit("toggle_tabbed");
    reveal_strlit("up");
    reveal_strlit("window");
    reveal_with_fuel(last_word, 12);
    assert(last_word(fixed_actions()[30].id) =~= "up"@);
    assert(matches_at(fixed_actions()[30].label, "up"@, 16));
    assert(last_word(fixed_actions()[31].id) =~= "down"@);
    assert(matches_at(fixed_actions()[31].label, "down"@, 16));
    assert(last_word(fixed_actions()[32].id) =~= "column"@);
    assert(matches_at(fixed_actions()[32].label, "column"@, 7));
    assert(last_word(fixed_actions()[33].id) =~= "column"@);
    assert(matches_at(fixed_actions()[33].label, "column"@, 9));
    assert(last_word(fixed_actions()[34].id) =~= "window"@);
    assert(matches_at(fixed_actions()[34].label, "window"@, 6));
    assert(last_word(fixed_actions()[35].id) =~= "floating"@);
    assert(matches_at(fixed_actions()[35].label, "floating"@, 7));
    assert(last_word(fixed_actions()[36].id) =~= "fullscreen"@);
    assert(matches_at(fixed_actions()[36].label, "fullscreen"@, 7));
    assert(last_word(fixed_actions()[37].id) =~= "tabbed"@);
    assert(matches_at(fixed_actions()[37].label, "tabbed"@, 7));
    assert(last_word(fixed_actions()[38].id) =~= "toggle"@);
    assert(matches_at(fixed_actions()[38].label, "toggle"@, 0));
    assert(last_word(fixed_actions()[39].id) =~= "stash"@);
    assert(matches_at(fixed_actions()[39].label, "stash"@, 0));
}

/// Rows 40 to 50 name the last word of their id in their label
/// (the emergency restore aside).
proof fn lemma_fixed_labels_words_4()
    ensures
        forall|i: int|
            40 <= i < 51 ==> (#[trigger] fixed_actions()[i]).id == "panic_revert"@
                || contains_word(fixed_actions()[i].label, last_word(fixed_actions()[i].id)),
{
    reveal_strlit("Move window to next workspace");
    reveal_strlit("Move window to previous workspace");
    reveal_strlit("Next workspace");
    reveal_strlit("Previous workspace");
    reveal_strlit("Refresh");
    reveal_strlit("Reload config");
    reveal_strlit("Toggle new-window placement (new column / in column)");
    reveal_strlit("Toggle overview");
    reveal_strlit("Toggle pause");
    reveal_strlit("Toggle sticky");
    reveal_strlit("move_to_workspace_next");
    reveal_strlit("move_to_workspace_prev");
    reveal_strlit("next");
    reveal_strlit("overview");
    reveal_strlit("panic_revert");
    reveal_strlit("pause");
    reveal_strlit("placement");
    reveal_strlit("prev");
    reveal_strlit("refresh");
    reveal_strlit("reload");
    reveal_strlit("sticky");
    reveal_strlit("toggle_new_window_placement");
    reveal_strlit("toggle_overview");
    reveal_strlit("toggle_pause");
    reveal_strlit("toggle_sticky");
    reveal_strlit("workspace_next");
    reveal_strlit("workspace_prev");
    reveal_with_fuel(last_word, 12);
    assert(last_word(fixed_actions()[40].id) =~= "sticky"@);
    assert(matches_at(fixed_actions()[40].label, "sticky"@, 7));
    assert(last_word(fixed_actions()[41].id) =~= "placement"@);
    assert(matches_at(fixed_actions()[41].label, "placement"@, 18));
    assert(last_word(fixed_actions()[42].id) =~= "pause"@);
    assert(matches_at(fixed_actions()[42].label, "pause"@, 7));
    assert(last_word(fixed_actions()[43].id) =~= "refresh"@);
    assert(matches_at(fixed_actions()[43].label, "refresh"@, 0));
    assert(last_word(fixed_actions()[44].id) =~= "reload"@);
    assert(matches_at(fixed_actions()[44].label, "reload"@, 0));
    assert(last_word(fixed_actions()[46].id) =~= "overview"@);
    assert(matches_at(fixed_actions()[46].label, "overview"@, 7));
    assert(last_word(fixed_actions()[47].id) =~= "prev"@);
    assert(matches_at(fixed_actions()[47].label, "prev"@, 0));
    assert(last_word(fixed_actions()[48].id) =~= "next"@);
    assert(matches_at(fixed_actions()[48].label, "next"@, 0));
    assert(last_word(fixed_actions()[49].id) =~= "prev"@);
    assert(matches_at(fixed_actions()[49].label, "prev"@, 15));
    assert(last_word(fixed_actions()[50].id) =~= "next"@);
    assert(matches_at(fixed_actions()[50].label, "next"@, 15));
}

/// The rows written out one by one name the last word of their id in their
/// label, except the emergency restore.
proof fn lemma_fixed_labels_words()
    ensures
        forall|i: int|
            0 <= i < fixed_actions().len() ==> (#[trigger] fixed_actions()[i]).id == "panic_revert"@
                || contains_word(fixed_actions()[i].label, last_word(fixed_actions()[i].id)),
{
    lemma_fixed_labels_words_0();
    lemma_fixed_labels_words_1();
    lemma_fixed_labels_words_2();
    lemma_fixed_labels_words_3();
    lemma_fixed_labels_words_4();
}

/// The numbered workspace rows: their labels are worded otherwise, and name
/// the workspace number that ends their id.
proof fn lemma_numbered_labels(n: int)
    requires
        1 <= n <= 9,
    ensures
        has_worded_label(switch_workspace_action(n).id),
        has_worded_label(move_to_workspace_action(n).id),
        contains_word(switch_workspace_action(n).label, last_word(switch_workspace_action(n).id)),
        contains_word(
            move_to_workspace_action(n).label,
            last_word(move_to_workspace_action(n).id),
        ),
{
    reveal_strlit("switch_workspace_");
    reveal_strlit("move_to_workspace_");
    reveal_strlit("Workspace ");
    reveal_strlit("Move to Workspace ");
    reveal_with_fuel(last_word, 3);
    let s = switch_workspace_action(n);
    let m = move_to_workspace_action(n);
    let d = digit(n);
    assert("switch_workspace_"@ =~= s.id.subrange(0, 17));
    assert("move_to_workspace_"@ =~= m.id.subrange(0, 18));
    assert(s.id.drop_last() =~= "switch_workspace_"@);
    assert(m.id.drop_last() =~= "move_to_workspace_"@);
    assert(last_word(s.id) =~= d);
    assert(last_word(m.id) =~= d);
    assert(matches_at(s.label, d, 10));
    assert(matches_at(m.label, d, 18));
}

/// Each catalog label reads as its id (underscores as spaces, a capital
/// first letter), unless the id is one whose label is worded otherwise.
pub proof fn lemma_catalog_labels_read_as_ids()
    ensures
        forall|i: int|
            0 <= i < catalog_spec().len() ==> (#[trigger] catalog_spec()[i]).label == humanized(
                catalog_spec()[i].id,
            ) || has_worded_label(catalog_spec()[i].id),
{
    lemma_fixed_labels_humanized();
    assert forall|i: int| 0 <= i < catalog_spec().len() implies (#[trigger] catalog_spec()[i]).label
        == humanized(catalog_spec()[i].id) || has_worded_label(catalog_spec()[i].id) by {
        if i < 51 {
            assert(catalog_spec()[i] == fixed_actions()[i]);
        } else if i < 60 {
            assert(catalog_spec()[i] == switch_workspace_actions()[i - 51]);
            lemma_numbered_labels(i - 50);
        } else {
            assert(catalog_spec()[i] == move_to_workspace_actions()[i - 60]);
            lemma_numbered_labels(i - 59);
        }
    }
}

/// Each catalog label names the last word of its id (ignoring case: the
/// direction, the toggled mode, the workspace number, ...), except the
/// emergency restore, whose label says what `panic_revert` does.
pub proof fn lemma_catalog_labels_name_last_word()
    ensures
        forall|i: int|
            0 <= i < catalog_spec().len() ==> (#[trigger] catalog_spec()[i]).id == "panic_revert"@
                || contains_word(catalog_spec()[i].label, last_word(catalog_spec()[i].id)),
{
    lemma_fixed_labels_words();
    assert forall|i: int| 0 <= i < catalog_spec().len() implies (#[trigger] catalog_spec()[i]).id
        == "panic_revert"@ || contains_word(catalog_spec()[i].label, last_word(catalog_spec()[i].id)) by {
        if i < 51 {
            assert(catalog_spec()[i] == fixed_actions()[i]);
        } else if i < 60 {
            assert(catalog_spec()[i] == switch_workspace_actions()[i - 51]);
            lemma_numbered_labels(i - 50);
        } else {
            assert(catalog_spec()[i] == move_to_workspace_actions()[i - 60]);
            lemma_numbered_labels(i - 59);
        }
    }
}

} // verus!
