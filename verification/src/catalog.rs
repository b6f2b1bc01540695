//! The catalog of bindable actions: the one place where each action's id,
//! default key chord, label and display group are written down.

use vstd::prelude::*;

use crate::labels::{
    contains_word, has_worded_label, humanized, last_word, lemma_catalog_labels_name_last_word,
    lemma_catalog_labels_read_as_ids,
};

verus! {

/// A bindable action plus its presentation metadata.
#[derive(Clone, Debug)]
pub struct HotkeyAction {
    /// Action id used in config files and by `command_for_action`.
    pub id: String,
    /// Default key chord, or `None` for actions with no default binding.
    pub default_key: Option<String>,
    /// Human-readable label for the settings UI.
    pub label: String,
    /// Section grouping (drives settings order and config-template comments).
    pub group: &'static str,
}

/// What a `HotkeyAction` says, as character sequences.
pub struct ActionView {
    pub id: Seq<char>,
    pub key: Option<Seq<char>>,
    pub label: Seq<char>,
    pub group: Seq<char>,
}

/// The characters of an optional string.
pub open spec fn opt_chars(s: Option<String>) -> Option<Seq<char>> {
    match s {
        Some(k) => Some(k@),
        None => None,
    }
}

/// The characters of an optional string slice.
pub open spec fn opt_str_chars(s: Option<&str>) -> Option<Seq<char>> {
    match s {
        Some(k) => Some(k@),
        None => None,
    }
}

impl View for HotkeyAction {
    type V = ActionView;

    open spec fn view(&self) -> ActionView {
        ActionView {
            id: self.id@,
            key: opt_chars(self.default_key),
            label: self.label@,
            group: self.group@,
        }
    }
}

/// The views of a sequence of actions.
pub open spec fn actions_view(s: Seq<HotkeyAction>) -> Seq<ActionView> {
    s.map_values(|a: HotkeyAction| a@)
}

/// An action view from its four parts.
pub open spec fn av(
    id: Seq<char>,
    key: Option<Seq<char>>,
    label: Seq<char>,
    group: Seq<char>,
) -> ActionView {
    ActionView { id, key, label, group }
}

/// The actions written out one by one, in display order.
pub open spec fn fixed_actions() -> Seq<ActionView> {
    seq![
        av("focus_left"@, Some("F13+H"@), "Focus left"@, "Focus"@),
        av("focus_right"@, Some("F13+L"@), "Focus right"@, "Focus"@),
        av("focus_up"@, Some("F13+K"@), "Focus up"@, "Focus"@),
        av("focus_down"@, Some("F13+J"@), "Focus down"@, "Focus"@),
        av("focus_start"@, Some("F13+Home"@), "Focus start of strip"@, "Focus"@),
        av("focus_end"@, Some("F13+End"@), "Focus end of strip"@, "Focus"@),
        av("move_column_left"@, Some("F13+Shift+H"@), "Move column left"@, "Move column"@),
        av("move_column_right"@, Some("F13+Shift+L"@), "Move column right"@, "Move column"@),
        av("move_column_to_start"@, Some("F13+Shift+Home"@), "Move column to start"@, "Move column"@),
        av("move_column_to_end"@, Some("F13+Shift+End"@), "Move column to end"@, "Move column"@),
        av("move_window_left"@, Some("F13+["@), "Move window left"@, "Move window to adjacent column"@),
        av("move_window_right"@, Some("F13+]"@), "Move window right"@, "Move window to adjacent column"@),
        av("expel_to_left"@, Some("F13+Shift+["@), "Expel to left"@, "Expel window to a new column"@),
        av("expel_to_right"@, Some("F13+Shift+]"@), "Expel to right"@, "Expel window to a new column"@),
        av("consume_from_left"@, Some("F13+,"@), "Consume from left"@, "Stack the neighbor's window into the focused column"@),
        av("consume_from_right"@, Some("F13+."@), "Consume from right"@, "Stack the neighbor's window into the focused column"@),
        av("move_window_up"@, Some("F13+Shift+K"@), "Move window up"@, "Move window within column"@),
        av("move_window_down"@, Some("F13+Shift+J"@), "Move window down"@, "Move window within column"@),
        av("cycle_width_down"@, Some("F13+-"@), "Cycle width down"@, "Column width"@),
        av("cycle_width_up"@, Some("F13+="@), "Cycle width up"@, "Column width"@),
        av("equalize_widths"@, Some("F13+0"@), "Equalize widths"@, "Column width"@),
        av("cycle_height_down"@, Some("F13+Shift+-"@), "Cycle height down"@, "Window height"@),
        av("cycle_height_up"@, Some("F13+Shift+="@), "Cycle height up"@, "Window height"@),
        av("equalize_heights"@, Some("F13+Shift+0"@), "Equalize heights"@, "Window height"@),
        av("focus_monitor_left"@, Some("F13+Ctrl+H"@), "Focus monitor left"@, "Monitor focus"@),
        av("focus_monitor_right"@, Some("F13+Ctrl+L"@), "Focus monitor right"@, "Monitor focus"@),
        av("focus_monitor_up"@, Some("F13+Ctrl+K"@), "Focus monitor up"@, "Monitor focus"@),
        av("focus_monitor_down"@, Some("F13+Ctrl+J"@), "Focus monitor down"@, "Monitor focus"@),
        av("move_to_monitor_left"@, Some("F13+Ctrl+Shift+H"@), "Move to monitor left"@, "Move window to monitor"@),
        av("move_to_monitor_right"@, Some("F13+Ctrl+Shift+L"@), "Move to monitor right"@, "Move window to monitor"@),
        av("move_to_monitor_up"@, Some("F13+Ctrl+Shift+K"@), "Move to monitor up"@, "Move window to monitor"@),
        av("move_to_monitor_down"@, Some("F13+Ctrl+Shift+J"@), "Move to monitor down"@, "Move window to monitor"@),
        av("center_column"@, Some("F13+C"@), "Center column"@, "Column layout"@),
        av("maximize_column"@, Some("F13+M"@), "Maximize column"@, "Column layout"@),
        av("close_window"@, Some("F13+W"@), "Close window"@, "Window"@),
        av("toggle_floating"@, Some("F13+F"@), "Toggle floating"@, "Window"@),
        av("toggle_fullscreen"@, Some("F13+Shift+F"@), "Toggle fullscreen"@, "Window"@),
        av("toggle_tabbed"@, Some("F13+T"@), "Toggle tabbed column"@, "Window"@),
        av("scratchpad_toggle"@, Some("F13+S"@), "Toggle scratchpad"@, "Window"@),
        av("scratchpad_stash"@, Some("F13+Shift+S"@), "Stash to scratchpad"@, "Window"@),
        av("toggle_sticky"@, Some("F13+Y"@), "Toggle sticky"@, "Window"@),
        av("toggle_new_window_placement"@, None, "Toggle new-window placement (new column / in column)"@, "Window"@),
        av("toggle_pause"@, Some("F13+P"@), "Toggle pause"@, "Session"@),
        av("refresh"@, Some("F13+R"@), "Refresh"@, "Session"@),
        av("reload"@, Some("F13+Shift+R"@), "Reload config"@, "Session"@),
        av("panic_revert"@, Some("Win+Ctrl+Escape"@), "Emergency restore"@, "Session"@),
        av("toggle_overview"@, Some("F13+Space"@), "Toggle overview"@, "Workspaces"@),
        av("workspace_prev"@, Some("F13+Left"@), "Previous workspace"@, "Workspaces"@),
        av("workspace_next"@, Some("F13+Right"@), "Next workspace"@, "Workspaces"@),
        av("move_to_workspace_prev"@, Some("F13+Shift+Left"@), "Move window to previous workspace"@, "Move window to workspace"@),
        av("move_to_workspace_next"@, Some("F13+Shift+Right"@), "Move window to next workspace"@, "Move window to workspace"@),
    ]
}

/// The decimal digit that writes `n` (for `0 <= n <= 9`).
pub open spec fn digit(n: int) -> Seq<char> {
    seq![((('0' as int) + n) as char)]
}

/// The action that switches to workspace `n`.
pub open spec fn switch_workspace_action(n: int) -> ActionView {
    av(
        "switch_workspace_"@ + digit(n),
        Some("F13+"@ + digit(n)),
        "Workspace "@ + digit(n),
        "Switch to workspace"@,
    )
}

/// The action that moves the focused window to workspace `n`.
pub open spec fn move_to_workspace_action(n: int) -> ActionView {
    av(
        "move_to_workspace_"@ + digit(n),
        Some("F13+Shift+"@ + digit(n)),
        "Move to Workspace "@ + digit(n),
        "Move window to workspace"@,
    )
}

/// The switch actions for workspaces 1 to 9.
pub open spec fn switch_workspace_actions() -> Seq<ActionView> {
    Seq::new(9, |i: int| switch_workspace_action(i + 1))
}

/// The move actions for workspaces 1 to 9.
pub open spec fn move_to_workspace_actions() -> Seq<ActionView> {
    Seq::new(9, |i: int| move_to_workspace_action(i + 1))
}

/// The whole catalog in display order.
pub open spec fn catalog_spec() -> Seq<ActionView> {
    fixed_actions() + switch_workspace_actions() + move_to_workspace_actions()
}

fn action(id: &str, default_key: Option<&str>, label: &str, group: &'static str) -> (a:
    HotkeyAction)
    ensures
        a@ == av(id@, opt_str_chars(default_key), label@, group@),
{
    HotkeyAction {
        id: id.to_owned(),
        default_key: match default_key {
            Some(k) => Some(k.to_owned()),
            None => None,
        },
        label: label.to_owned(),
        group,
    }
}

/// The decimal digit for `n` as a string slice.
fn digit_str(n: u8) -> (s: &'static str)
    requires
        1 <= n <= 9,
    ensures
        s@ == digit(n as int),
{
    let s = match n {
        1 => "1",
        2 => "2",
        3 => "3",
        4 => "4",
        5 => "5",
        6 => "6",
        7 => "7",
        8 => "8",
        _ => "9",
    };
    proof {
        reveal_strlit("1");
        reveal_strlit("2");
        reveal_strlit("3");
        reveal_strlit("4");
        reveal_strlit("5");
        reveal_strlit("6");
        reveal_strlit("7");
        reveal_strlit("8");
        reveal_strlit("9");
        assert(s@ =~= digit(n as int));
    }
    s
}

/// The label laws of the catalog, read on rows whose views are the catalog.
proof fn lemma_rows_labels(rows: Seq<HotkeyAction>)
    requires
        actions_view(rows) == catalog_spec(),
    ensures
        forall|i: int|
            0 <= i < rows.len() ==> (#[trigger] rows[i]).label@ == humanized(rows[i].id@)
                || has_worded_label(rows[i].id@),
        forall|i: int|
            0 <= i < rows.len() ==> (#[trigger] rows[i]).id@ == "panic_revert"@ || contains_word(
                rows[i].label@,
                last_word(rows[i].id@),
            ),
{
    lemma_catalog_labels_read_as_ids();
    lemma_catalog_labels_name_last_word();
    assert forall|i: int| 0 <= i < rows.len() implies (#[trigger] rows[i]).label@ == humanized(
        rows[i].id@,
    ) || has_worded_label(rows[i].id@) by {
        assert(actions_view(rows)[i] == rows[i]@);
        assert(catalog_spec()[i] == rows[i]@);
    }
    assert forall|i: int| 0 <= i < rows.len() implies (#[trigger] rows[i]).id@ == "panic_revert"@
        || contains_word(rows[i].label@, last_word(rows[i].id@)) by {
        assert(actions_view(rows)[i] == rows[i]@);
        assert(catalog_spec()[i] == rows[i]@);
    }
}

/// The ordered catalog of every bindable action. Order here is the display
/// order in the settings UI; `group` drives section headers there and in
/// the generated config template.
///
/// Personal desktop grammar:
/// - F13 is the dedicated desktop/WM modifier (Caps Lock is remapped to F13 externally).
/// - Shift carries/manipulates the focused object.
/// - Ctrl widens directional H/J/K/L commands from the current monitor to monitors.
pub fn hotkey_catalog() -> (v: Vec<HotkeyAction>)
    ensures
        actions_view(v@) == catalog_spec(),
        ids_distinct(actions_view(v@)),
        keys_distinct(actions_view(v@)),
        labels_distinct(actions_view(v@)),
        forall|i: int|
            0 <= i < v.len() ==> (#[trigger] v@[i]).label@ == humanized(v@[i].id@)
                || has_worded_label(v@[i].id@),
        forall|i: int|
            0 <= i < v.len() ==> (#[trigger] v@[i]).id@ == "panic_revert"@ || contains_word(
                v@[i].label@,
                last_word(v@[i].id@),
            ),
{
    let mut v = vec![
        action("focus_left", Some("F13+H"), "Focus left", "Focus"),
        action("focus_right", Some("F13+L"), "Focus right", "Focus"),
        action("focus_up", Some("F13+K"), "Focus up", "Focus"),
        action("focus_down", Some("F13+J"), "Focus down", "Focus"),
        action("focus_start", Some("F13+Home"), "Focus start of strip", "Focus"),
        action("focus_end", Some("F13+End"), "Focus end of strip", "Focus"),
        action("move_column_left", Some("F13+Shift+H"), "Move column left", "Move column"),
        action("move_column_right", Some("F13+Shift+L"), "Move column right", "Move column"),
        action("move_column_to_start", Some("F13+Shift+Home"), "Move column to start", "Move column"),
        action("move_column_to_end", Some("F13+Shift+End"), "Move column to end", "Move column"),
        action("move_window_left", Some("F13+["), "Move window left", "Move window to adjacent column"),
        action("move_window_right", Some("F13+]"), "Move window right", "Move window to adjacent column"),
        action("expel_to_left", Some("F13+Shift+["), "Expel to left", "Expel window to a new column"),
        action("expel_to_right", Some("F13+Shift+]"), "Expel to right", "Expel window to a new column"),
        action("consume_from_left", Some("F13+,"), "Consume from left", "Stack the neighbor's window into the focused column"),
        action("consume_from_right", Some("F13+."), "Consume from right", "Stack the neighbor's window into the focused column"),
        action("move_window_up", Some("F13+Shift+K"), "Move window up", "Move window within column"),
        action("move_window_down", Some("F13+Shift+J"), "Move window down", "Move window within column"),
        action("cycle_width_down", Some("F13+-"), "Cycle width down", "Column width"),
        action("cycle_width_up", Some("F13+="), "Cycle width up", "Column width"),
        action("equalize_widths", Some("F13+0"), "Equalize widths", "Column width"),
        action("cycle_height_down", Some("F13+Shift+-"), "Cycle height down", "Window height"),
        action("cycle_height_up", Some("F13+Shift+="), "Cycle height up", "Window height"),
        action("equalize_heights", Some("F13+Shift+0"), "Equalize heights", "Window height"),
        action("focus_monitor_left", Some("F13+Ctrl+H"), "Focus monitor left", "Monitor focus"),
        action("focus_monitor_right", Some("F13+Ctrl+L"), "Focus monitor right", "Monitor focus"),
        action("focus_monitor_up", Some("F13+Ctrl+K"), "Focus monitor up", "Monitor focus"),
        action("focus_monitor_down", Some("F13+Ctrl+J"), "Focus monitor down", "Monitor focus"),
        action("move_to_monitor_left", Some("F13+Ctrl+Shift+H"), "Move to monitor left", "Move window to monitor"),
        action("move_to_monitor_right", Some("F13+Ctrl+Shift+L"), "Move to monitor right", "Move window to monitor"),
        action("move_to_monitor_up", Some("F13+Ctrl+Shift+K"), "Move to monitor up", "Move window to monitor"),
        action("move_to_monitor_down", Some("F13+Ctrl+Shift+J"), "Move to monitor down", "Move window to monitor"),
        action("center_column", Some("F13+C"), "Center column", "Column layout"),
        action("maximize_column", Some("F13+M"), "Maximize column", "Column layout"),
        action("close_window", Some("F13+W"), "Close window", "Window"),
        action("toggle_floating", Some("F13+F"), "Toggle floating", "Window"),
        action("toggle_fullscreen", Some("F13+Shift+F"), "Toggle fullscreen", "Window"),
        action("toggle_tabbed", Some("F13+T"), "Toggle tabbed column", "Window"),
        action("scratchpad_toggle", Some("F13+S"), "Toggle scratchpad", "Window"),
        action("scratchpad_stash", Some("F13+Shift+S"), "Stash to scratchpad", "Window"),
        action("toggle_sticky", Some("F13+Y"), "Toggle sticky", "Window"),
        action("toggle_new_window_placement", None, "Toggle new-window placement (new column / in column)", "Window"),
        action("toggle_pause", Some("F13+P"), "Toggle pause", "Session"),
        action("refresh", Some("F13+R"), "Refresh", "Session"),
        action("reload", Some("F13+Shift+R"), "Reload config", "Session"),
        action("panic_revert", Some("Win+Ctrl+Escape"), "Emergency restore", "Session"),
        action("toggle_overview", Some("F13+Space"), "Toggle overview", "Workspaces"),
        action("workspace_prev", Some("F13+Left"), "Previous workspace", "Workspaces"),
        action("workspace_next", Some("F13+Right"), "Next workspace", "Workspaces"),
        action("move_to_workspace_prev", Some("F13+Shift+Left"), "Move window to previous workspace", "Move window to workspace"),
        action("move_to_workspace_next", Some("F13+Shift+Right"), "Move window to next workspace", "Move window to workspace"),
    ];
    assert(actions_view(v@) =~= fixed_actions());
    let mut i: u8 = 1;
    while i <= 9
        invariant
            1 <= i <= 10,
            actions_view(v@) =~= fixed_actions() + switch_workspace_actions().take(i - 1),
        decreases 10 - i,
    {
        let d = digit_str(i);
        let id = "switch_workspace_".to_owned().concat(d);
        let key = "F13+".to_owned().concat(d);
        let label = "Workspace ".to_owned().concat(d);
        let a = action(id.as_str(), Some(key.as_str()), label.as_str(), "Switch to workspace");
        assert(a@ == switch_workspace_action(i as int));
        let ghost before = actions_view(v@);
        v.push(a);
        assert(actions_view(v@) =~= before.push(a@));
        assert(switch_workspace_actions().take(i as int) =~= switch_workspace_actions().take(
            i - 1,
        ).push(switch_workspace_action(i as int)));
        i = i + 1;
    }
    let mut i: u8 = 1;
    while i <= 9
        invariant
            1 <= i <= 10,
            actions_view(v@) =~= fixed_actions() + switch_workspace_actions()
                + move_to_workspace_actions().take(i - 1),
        decreases 10 - i,
    {
        let d = digit_str(i);
        let id = "move_to_workspace_".to_owned().concat(d);
        let key = "F13+Shift+".to_owned().concat(d);
        let label = "Move to Workspace ".to_owned().concat(d);
        let a = action(id.as_str(), Some(key.as_str()), label.as_str(), "Move window to workspace");
        assert(a@ == move_to_workspace_action(i as int));
        let ghost before = actions_view(v@);
        v.push(a);
        assert(actions_view(v@) =~= before.push(a@));
        assert(move_to_workspace_actions().take(i as int) =~= move_to_workspace_actions().take(
            i - 1,
        ).push(move_to_workspace_action(i as int)));
        i = i + 1;
    }
    assert(switch_workspace_actions().take(9) =~= switch_workspace_actions());
    assert(move_to_workspace_actions().take(9) =~= move_to_workspace_actions());
    proof {
        lemma_catalog_distinct();
        lemma_catalog_labels_distinct();
        lemma_rows_labels(v@);
    }
    v
}

/// The character code at position `i` of `s`, or 0 outside of `s`.
spec fn code_at(s: Seq<char>, i: int) -> int {
    if 0 <= i < s.len() {
        s[i] as int
    } else {
        0
    }
}

/// A number computed from the length of `s` and three of its characters;
/// equal strings have equal fingerprints.
spec fn fingerprint(s: Seq<char>) -> int {
    let b = 0x110000int;
    ((s.len() * b + code_at(s, 5)) * b + code_at(s, s.len() - 1)) * b + code_at(s, s.len() - 2)
}

/// The fingerprint of an action's default key, or -1 for an unbound action.
spec fn key_fingerprint(a: ActionView) -> int {
    match a.key {
        Some(k) => fingerprint(k),
        None => -1,
    }
}

/// No two actions share an id.
pub open spec fn ids_distinct(acts: Seq<ActionView>) -> bool {
    forall|i: int, j: int|
        0 <= i < acts.len() && 0 <= j < acts.len() && i != j ==> #[trigger] acts[i].id
            != #[trigger] acts[j].id
}

/// No two actions share a label.
pub open spec fn labels_distinct(acts: Seq<ActionView>) -> bool {
    forall|i: int, j: int|
        0 <= i < acts.len() && 0 <= j < acts.len() && i != j ==> #[trigger] acts[i].label
            != #[trigger] acts[j].label
}

/// No two bound actions share a default key.
pub open spec fn keys_distinct(acts: Seq<ActionView>) -> bool {
    forall|i: int, j: int|
        0 <= i < acts.len() && 0 <= j < acts.len() && i != j && (#[trigger] acts[i]).key is Some
            && (#[trigger] acts[j]).key is Some ==> acts[i].key != acts[j].key
}

// The distinctness of the catalog's ids and keys is shown through
// fingerprints: a string's length and three of its characters packed into
// one number. The fingerprints of the catalog are listed below; they are
// pairwise distinct numbers, and equal strings would have equal ones.

/// The fingerprints of the catalog's ids, in catalog order.
#[verifier::opaque]
spec fn id_fingerprints() -> Seq<int> {
    seq![
        13828983524250878054,
        15211870084830330984,
        11063210403087515765,
        13828983524244193399,
        15211870084830330994,
        12446096963653599342,
        22126307852709789798,
        23509194413289242728,
        27657854095027601522,
        24892080973850869870,
        22126332677620760678,
        23509219238200213608,
        17977643205989236838,
        19360529766568689768,
        23509206825744728166,
        24892093386324181096,
        19360559556457398389,
        22126332677614076023,
        22126302887720910967,
        19360529766564233333,
        20743428739602514024,
        23509189448300363895,
        20743416327143686261,
        22126315300181966964,
        24892076008886501478,
        26274962569465954408,
        22126302887723139189,
        24892076008879816823,
        27657875196201926758,
        29040761756781379688,
        24892102075038564469,
        27657875196195242103,
        17977666789647974509,
        20743428739596943469,
        16594756645413126255,
        20743423774606950510,
        23509196895773655141,
        17977650653444702309,
        23509194413272531052,
        22126307852696420467,
        17977650653468098667,
        37338062501574869102,
        16594764092866363507,
        9680348667410120819,
        8297443488142983265,
        16594756645409783922,
        20743423774624776293,
        19360550867745243237,
        19360550867743015032,
        30423648317363060837,
        30423648317360832632,
        24892087180021792863,
        24892087180022906975,
        24892087180024021087,
        24892087180025135199,
        24892087180026249311,
        24892087180027363423,
        24892087180028477535,
        24892087180029591647,
        24892087180030705759,
        26274988635547828319,
        26274988635548942431,
        26274988635550056543,
        26274988635551170655,
        26274988635552284767,
        26274988635553398879,
        26274988635554512991,
        26274988635555627103,
        26274988635556741215
    ]
}

/// The fingerprints of the catalog's default keys, in catalog order.
#[verifier::opaque]
spec fn key_fingerprints() -> Seq<int> {
    seq![
        6914432802977480747,
        6914432802981937195,
        6914432802980823083,
        6914432802979708971,
        11063230263004037229,
        9680342461177921646,
        15211881255991246891,
        15211881255995703339,
        19360540937761914989,
        17977654377181347950,
        6914432802998648875,
        6914432803000877099,
        15211881256012415019,
        15211881256014643243,
        6914432802946285611,
        6914432802948513835,
        15211881255994589227,
        15211881255993475115,
        6914432802947399723,
        6914432802965225515,
        6914432802950742059,
        15211881255961165867,
        15211881255978991659,
        15211881255964508203,
        13829009590358376491,
        13829009590362832939,
        13829009590361718827,
        13829009590360604715,
        22126328953835094059,
        22126328953839550507,
        22126328953838436395,
        22126328953837322283,
        6914432802971910187,
        6914432802983051307,
        6914432802994192427,
        6914432802975252523,
        15211881255989018667,
        6914432802990850091,
        6914432802989735979,
        15211881256003502123,
        6914432802996420651,
        -1,
        6914432802986393643,
        6914432802988621867,
        15211881256002388011,
        20743442393287950448,
        12446118064829038691,
        11063217850565263462,
        12446109376126910568,
        19360540937778626662,
        20743427498358079592,
        6914432802951856171,
        6914432802952970283,
        6914432802954084395,
        6914432802955198507,
        6914432802956312619,
        6914432802957426731,
        6914432802958540843,
        6914432802959654955,
        6914432802960769067,
        15211881255965622315,
        15211881255966736427,
        15211881255967850539,
        15211881255968964651,
        15211881255970078763,
        15211881255971192875,
        15211881255972306987,
        15211881255973421099,
        15211881255974535211
    ]
}

/// The fingerprints of the catalog's labels, in catalog order.
#[verifier::opaque]
spec fn label_fingerprints() -> Seq<int> {
    seq![
        13828905325781319782,
        15211791886360772712,
        11063132204617957493,
        13828905325774635127,
        27657770931571392617,
        24891997810412486761,
        22126307852709789798,
        23509194413289242728,
        27657854095027601522,
        24892080973850869870,
        22126332677620760678,
        23509219238200213608,
        17977565007519678566,
        19360451568099131496,
        23509206825744728166,
        24892093386324181096,
        19360559556457398389,
        22126332677614076023,
        22126224689251352695,
        19360451568094675061,
        20743428739602514024,
        23509111249830805623,
        20743338128674127989,
        22126315300181966964,
        24891997810416943206,
        26274884370996396136,
        22126224689253580917,
        24891997810410258551,
        27657875196201926758,
        29040761756781379688,
        24892102075038564469,
        27657875196195242103,
        17977666789647974509,
        20743428739596943469,
        16594678446943567983,
        20743423774606950510,
        23509196895773655141,
        27657856577512013933,
        23509196895762514017,
        26274884370978570337,
        17977650653468098667,
        71910226515977633902,
        16594764092866363507,
        9680348667410120819,
        17977649412202496105,
        23509196895763628146,
        20743423774624776293,
        24892095868798566499,
        19360559556445143139,
        45635404207454748771,
        40103857965136937059,
        15211891185930010656,
        15211891185931124768,
        15211891185932238880,
        15211891185933352992,
        15211891185934467104,
        15211891185935581216,
        15211891185936695328,
        15211891185937809440,
        15211891185938923552,
        26274988635547828256,
        26274988635548942368,
        26274988635550056480,
        26274988635551170592,
        26274988635552284704,
        26274988635553398816,
        26274988635554512928,
        26274988635555627040,
        26274988635556741152
    ]
}

proof fn lemma_label_fingerprints()
    ensures
        catalog_spec().map_values(|a: ActionView| fingerprint(a.label)) =~= label_fingerprints(),
        label_fingerprints().no_duplicates(),
{
    reveal(label_fingerprints);
    reveal_strlit("Center column");
    reveal_strlit("Close window");
    reveal_strlit("Consume from left");
    reveal_strlit("Consume from right");
    reveal_strlit("Cycle height down");
    reveal_strlit("Cycle height up");
    reveal_strlit("Cycle width down");
    reveal_strlit("Cycle width up");
    reveal_strlit("Emergency restore");
    reveal_strlit("Equalize heights");
    reveal_strlit("Equalize widths");
    reveal_strlit("Expel to left");
    reveal_strlit("Expel to right");
    reveal_strlit("Focus down");
    reveal_strlit("Focus end of strip");
    reveal_strlit("Focus left");
    reveal_strlit("Focus monitor down");
    reveal_strlit("Focus monitor left");
    reveal_strlit("Focus monitor right");
    reveal_strlit("Focus monitor up");
    reveal_strlit("Focus right");
    reveal_strlit("Focus start of strip");
    reveal_strlit("Focus up");
    reveal_strlit("Maximize column");
    reveal_strlit("Move column left");
    reveal_strlit("Move column right");
    reveal_strlit("Move column to end");
    reveal_strlit("Move column to start");
    reveal_strlit("Move to Workspace ");
    reveal_strlit("Move to monitor down");
    reveal_strlit("Move to monitor left");
    reveal_strlit("Move to monitor right");
    reveal_strlit("Move to monitor up");
    reveal_strlit("Move window down");
    reveal_strlit("Move window left");
    reveal_strlit("Move window right");
    reveal_strlit("Move window to next workspace");
    reveal_strlit("Move window to previous workspace");
    reveal_strlit("Move window up");
    reveal_strlit("Next workspace");
    reveal_strlit("Previous workspace");
    reveal_strlit("Refresh");
    reveal_strlit("Reload config");
    reveal_strlit("Stash to scratchpad");
    reveal_strlit("Toggle floating");
    reveal_strlit("Toggle fullscreen");
    reveal_strlit("Toggle new-window placement (new column / in column)");
    reveal_strlit("Toggle overview");
    reveal_strlit("Toggle pause");
    reveal_strlit("Toggle scratchpad");
    reveal_strlit("Toggle sticky");
    reveal_strlit("Toggle tabbed column");
    reveal_strlit("Workspace ");
}

proof fn lemma_fingerprints_distinct()
    ensures
        id_fingerprints().no_duplicates(),
        key_fingerprints().no_duplicates(),
{
    reveal(id_fingerprints);
    reveal(key_fingerprints);
}

/// The fingerprints of the catalog's ids and default keys, in catalog order.
proof fn lemma_catalog_fingerprints()
    ensures
        catalog_spec().map_values(|a: ActionView| fingerprint(a.id)) =~= id_fingerprints(),
        catalog_spec().map_values(|a: ActionView| key_fingerprint(a)) =~= key_fingerprints(),
{
    reveal(id_fingerprints);
    reveal(key_fingerprints);
    reveal_strlit("F13+");
    reveal_strlit("F13+,");
    reveal_strlit("F13+-");
    reveal_strlit("F13+.");
    reveal_strlit("F13+0");
    reveal_strlit("F13+=");
    reveal_strlit("F13+C");
    reveal_strlit("F13+Ctrl+H");
    reveal_strlit("F13+Ctrl+J");
    reveal_strlit("F13+Ctrl+K");
    reveal_strlit("F13+Ctrl+L");
    reveal_strlit("F13+Ctrl+Shift+H");
    reveal_strlit("F13+Ctrl+Shift+J");
    reveal_strlit("F13+Ctrl+Shift+K");
    reveal_strlit("F13+Ctrl+Shift+L");
    reveal_strlit("F13+End");
    reveal_strlit("F13+F");
    reveal_strlit("F13+H");
    reveal_strlit("F13+Home");
    reveal_strlit("F13+J");
    reveal_strlit("F13+K");
    reveal_strlit("F13+L");
    reveal_strlit("F13+Left");
    reveal_strlit("F13+M");
    reveal_strlit("F13+P");
    reveal_strlit("F13+R");
    reveal_strlit("F13+Right");
    reveal_strlit("F13+S");
    reveal_strlit("F13+Shift+");
    reveal_strlit("F13+Shift+-");
    reveal_strlit("F13+Shift+0");
    reveal_strlit("F13+Shift+=");
    reveal_strlit("F13+Shift+End");
    reveal_strlit("F13+Shift+F");
    reveal_strlit("F13+Shift+H");
    reveal_strlit("F13+Shift+Home");
    reveal_strlit("F13+Shift+J");
    reveal_strlit("F13+Shift+K");
    reveal_strlit("F13+Shift+L");
    reveal_strlit("F13+Shift+Left");
    reveal_strlit("F13+Shift+R");
    reveal_strlit("F13+Shift+Right");
    reveal_strlit("F13+Shift+S");
    reveal_strlit("F13+Shift+[");
    reveal_strlit("F13+Shift+]");
    reveal_strlit("F13+Space");
    reveal_strlit("F13+T");
    reveal_strlit("F13+W");
    reveal_strlit("F13+Y");
    reveal_strlit("F13+[");
    reveal_strlit("F13+]");
    reveal_strlit("Win+Ctrl+Escape");
    reveal_strlit("center_column");
    reveal_strlit("close_window");
    reveal_strlit("consume_from_left");
    reveal_strlit("consume_from_right");
    reveal_strlit("cycle_height_down");
    reveal_strlit("cycle_height_up");
    reveal_strlit("cycle_width_down");
    reveal_strlit("cycle_width_up");
    reveal_strlit("equalize_heights");
    reveal_strlit("equalize_widths");
    reveal_strlit("expel_to_left");
    reveal_strlit("expel_to_right");
    reveal_strlit("focus_down");
    reveal_strlit("focus_end");
    reveal_strlit("focus_left");
    reveal_strlit("focus_monitor_down");
    reveal_strlit("focus_monitor_left");
    reveal_strlit("focus_monitor_right");
    reveal_strlit("focus_monitor_up");
    reveal_strlit("focus_right");
    reveal_strlit("focus_start");
    reveal_strlit("focus_up");
    reveal_strlit("maximize_column");
    reveal_strlit("move_column_left");
    reveal_strlit("move_column_right");
    reveal_strlit("move_column_to_end");
    reveal_strlit("move_column_to_start");
    reveal_strlit("move_to_monitor_down");
    reveal_strlit("move_to_monitor_left");
    reveal_strlit("move_to_monitor_right");
    reveal_strlit("move_to_monitor_up");
    reveal_strlit("move_to_workspace_");
    reveal_strlit("move_to_workspace_next");
    reveal_strlit("move_to_workspace_prev");
    reveal_strlit("move_window_down");
    reveal_strlit("move_window_left");
    reveal_strlit("move_window_right");
    reveal_strlit("move_window_up");
    reveal_strlit("panic_revert");
    reveal_strlit("refresh");
    reveal_strlit("reload");
    reveal_strlit("scratchpad_stash");
    reveal_strlit("scratchpad_toggle");
    reveal_strlit("switch_workspace_");
    reveal_strlit("toggle_floating");
    reveal_strlit("toggle_fullscreen");
    reveal_strlit("toggle_new_window_placement");
    reveal_strlit("toggle_overview");
    reveal_strlit("toggle_pause");
    reveal_strlit("toggle_sticky");
    reveal_strlit("toggle_tabbed");
    reveal_strlit("workspace_next");
    reveal_strlit("workspace_prev");
}

/// The catalog has no two actions with the same id, and no two actions
/// with the same default key.
pub proof fn lemma_catalog_distinct()
    ensures
        ids_distinct(catalog_spec()),
        keys_distinct(catalog_spec()),
{
    lemma_catalog_fingerprints();
    lemma_fingerprints_distinct();
    let c = catalog_spec();
    let fi = c.map_values(|a: ActionView| fingerprint(a.id));
    let fk = c.map_values(|a: ActionView| key_fingerprint(a));
    assert(fi.no_duplicates());
    assert(fk.no_duplicates());
    assert forall|i: int, j: int|
        0 <= i < c.len() && 0 <= j < c.len() && i != j implies #[trigger] c[i].id
            != #[trigger] c[j].id by {
        assert(fi[i] != fi[j]);
    }
    assert forall|i: int, j: int|
        0 <= i < c.len() && 0 <= j < c.len() && i != j && (#[trigger] c[i]).key is Some
            && (#[trigger] c[j]).key is Some implies c[i].key != c[j].key by {
        assert(fk[i] != fk[j]);
    }
}

/// The two width-resize renames, `resize_grow` and `resize_shrink`, are not
/// ids of the catalog.
/// The fingerprints of `resize_grow` and `resize_shrink` are not among
/// those of the catalog's ids.
proof fn lemma_width_rename_fingerprints()
    ensures
        forall|i: int|
            0 <= i < id_fingerprints().len() ==> #[trigger] id_fingerprints()[i]
                != 15211877532306964591int && id_fingerprints()[i] != 17977650653452501102int,
{
    reveal(id_fingerprints);
}

/// The two width-resize renames, `resize_grow` and `resize_shrink`, are not
/// ids of the catalog.
pub proof fn lemma_width_renames_not_in_catalog()
    ensures
        forall|i: int|
            0 <= i < catalog_spec().len() ==> #[trigger] catalog_spec()[i].id != "resize_grow"@
                && catalog_spec()[i].id != "resize_shrink"@,
{
    lemma_catalog_fingerprints();
    lemma_width_rename_fingerprints();
    reveal_strlit("resize_grow");
    reveal_strlit("resize_shrink");
    let fi = catalog_spec().map_values(|a: ActionView| fingerprint(a.id));
    assert(fingerprint("resize_grow"@) == 15211877532306964591);
    assert(fingerprint("resize_shrink"@) == 17977650653452501102);
    assert forall|i: int| 0 <= i < catalog_spec().len() implies #[trigger] catalog_spec()[i].id
        != "resize_grow"@ && catalog_spec()[i].id != "resize_shrink"@ by {
        assert(fi[i] == fingerprint(catalog_spec()[i].id));
        assert(fi[i] == id_fingerprints()[i]);
    }
}

/// No two actions of the catalog share a label, so the settings UI never
/// shows two actions under the same name.
pub proof fn lemma_catalog_labels_distinct()
    ensures
        labels_distinct(catalog_spec()),
{
    lemma_label_fingerprints();
    let c = catalog_spec();
    let fl = c.map_values(|a: ActionView| fingerprint(a.label));
    assert forall|i: int, j: int|
        0 <= i < c.len() && 0 <= j < c.len() && i != j implies #[trigger] c[i].label
            != #[trigger] c[j].label by {
        assert(fl[i] != fl[j]);
    }
}

} // verus!
