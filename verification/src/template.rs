//! The `[hotkeys]` binding lines of the generated config template.

use vstd::prelude::*;

use crate::bindings::bound_count;
use crate::catalog::{actions_view, catalog_spec, hotkey_catalog, keys_distinct, ActionView};
use crate::text::str_equal;

verus! {

/// The group of the last action of `acts` that has a default key, if any.
pub open spec fn last_bound_group(acts: Seq<ActionView>) -> Option<Seq<char>>
    decreases acts.len(),
{
    if acts.len() == 0 {
        None
    } else if acts.last().key is Some {
        Some(acts.last().group)
    } else {
        last_bound_group(acts.drop_last())
    }
}

/// The comment line `# <group>` that opens a section.
pub open spec fn group_header(group: Seq<char>) -> Seq<char> {
    "# "@ + group + "\n"@
}

/// The line `"<key>" = "<id>"` that binds a key chord to an action id.
pub open spec fn binding_line(key: Seq<char>, id: Seq<char>) -> Seq<char> {
    "\""@ + key + "\" = \""@ + id + "\"\n"@
}

/// The section opening that `group` needs after the bound actions of
/// `before`: nothing while the group stays the same, else its comment line,
/// set off by a blank line from the section before it. Before the first
/// binding the current group is the empty string.
pub open spec fn section_opening(before: Seq<ActionView>, group: Seq<char>) -> Seq<char> {
    match last_bound_group(before) {
        None => if group == ""@ {
            Seq::empty()
        } else {
            group_header(group)
        },
        Some(g) => if group == g {
            Seq::empty()
        } else {
            "\n"@ + group_header(group)
        },
    }
}

/// What action `a` adds to the template after the actions `before`: for an
/// action with a default key, its section opening and its binding line;
/// nothing for an action without one.
pub open spec fn entry_text(before: Seq<ActionView>, a: ActionView) -> Seq<char> {
    match a.key {
        Some(k) => section_opening(before, a.group) + binding_line(k, a.id),
        None => Seq::empty(),
    }
}

/// The template block for the actions `acts`, in order.
pub open spec fn template_of(acts: Seq<ActionView>) -> Seq<char>
    decreases acts.len(),
{
    if acts.len() == 0 {
        Seq::empty()
    } else {
        template_of(acts.drop_last()) + entry_text(acts.drop_last(), acts.last())
    }
}

/// The group that the renderer holds after `acts`: the group of the last
/// bound action, or the empty string before any.
pub open spec fn current_group_of(acts: Seq<ActionView>) -> Seq<char> {
    match last_bound_group(acts) {
        Some(g) => g,
        None => ""@,
    }
}

/// `t` appears as a contiguous run of characters inside `s`.
pub open spec fn occurs_in(t: Seq<char>, s: Seq<char>) -> bool {
    exists|j: int| 0 <= j && j + t.len() <= s.len() && #[trigger] s.subrange(j, j + t.len()) == t
}

/// The template of a prefix of the actions is a prefix of their template.
pub proof fn lemma_template_prefix(acts: Seq<ActionView>, m: int)
    requires
        0 <= m <= acts.len(),
    ensures
        template_of(acts.take(m)).is_prefix_of(template_of(acts)),
    decreases acts.len(),
{
    if m == acts.len() {
        assert(acts.take(m) =~= acts);
        assert(template_of(acts).subrange(0, template_of(acts).len() as int) =~= template_of(acts));
    } else {
        let pre = acts.drop_last();
        assert(acts.take(m) =~= pre.take(m));
        lemma_template_prefix(pre, m);
        let t = template_of(pre.take(m));
        assert(template_of(acts).subrange(0, t.len() as int) =~= template_of(pre).subrange(
            0,
            t.len() as int,
        ));
    }
}

/// Every action with a default key has its binding line in the template,
/// and, where it opens a new section, the comment line of its group.
pub proof fn lemma_template_lines(acts: Seq<ActionView>, i: int)
    requires
        0 <= i < acts.len(),
        acts[i].key is Some,
    ensures
        occurs_in(binding_line(acts[i].key.unwrap(), acts[i].id), template_of(acts)),
        acts[i].group != current_group_of(acts.take(i)) ==> occurs_in(
            group_header(acts[i].group),
            template_of(acts),
        ),
{
    let before = acts.take(i);
    let upto = acts.take(i + 1);
    assert(upto.drop_last() =~= before);
    lemma_template_prefix(acts, i + 1);
    let whole = template_of(acts);
    let a = acts[i];
    let k = a.key.unwrap();
    let opening = section_opening(before, a.group);
    let line = binding_line(k, a.id);
    let t0 = template_of(before);
    assert(template_of(upto) == t0 + (opening + line));
    let j: int = t0.len() as int + opening.len() as int;
    let tu = template_of(upto);
    assert(tu =~= whole.subrange(0, tu.len() as int));
    assert forall|x: int| 0 <= x < line.len() implies #[trigger] whole.subrange(
        j,
        j + line.len(),
    )[x] == line[x] by {
        assert(whole.subrange(0, tu.len() as int)[j + x] == whole[j + x]);
        assert(tu[j + x] == line[x]);
    }
    assert(whole.subrange(j, j + line.len()) =~= line);
    if a.group != current_group_of(before) {
        let h = group_header(a.group);
        let jh: int = if last_bound_group(before) is Some {
            t0.len() as int + 1
        } else {
            t0.len() as int
        };
        reveal_strlit("");
        reveal_strlit("\n");
        assert(opening == if last_bound_group(before) is Some {
            "\n"@ + h
        } else {
            h
        });
        assert forall|x: int| 0 <= x < h.len() implies #[trigger] whole.subrange(
            jh,
            jh + h.len(),
        )[x] == h[x] by {
            reveal_strlit("\n");
            assert(whole.subrange(0, tu.len() as int)[jh + x] == whole[jh + x]);
            assert(tu[jh + x] == h[x]);
        }
        assert(jh + h.len() == j);
        assert(whole.subrange(jh, jh + h.len()) =~= h);
    }
}

/// The actions of `acts` that have a default key, in order.
pub open spec fn bound_actions(acts: Seq<ActionView>) -> Seq<ActionView> {
    acts.filter(|a: ActionView| a.key is Some)
}

/// The text of the `j`-th bound action of `b`: a comment line for its group
/// when it is the first one or its group differs from the previous one
/// (set off by a blank line after the first section), then its binding line.
pub open spec fn bound_entry(b: Seq<ActionView>, j: int) -> Seq<char> {
    let opening = if j == 0 {
        group_header(b[j].group)
    } else if b[j].group != b[j - 1].group {
        "\n"@ + group_header(b[j].group)
    } else {
        Seq::empty()
    };
    opening + binding_line(b[j].key.unwrap(), b[j].id)
}

/// The concatenation of the entries of the bound actions `b`.
pub open spec fn bound_text(b: Seq<ActionView>) -> Seq<char>
    decreases b.len(),
{
    if b.len() == 0 {
        Seq::empty()
    } else {
        bound_text(b.drop_last()) + bound_entry(b, b.len() - 1)
    }
}

/// When every bound action has a non-empty group, the template is the
/// concatenation, over the bound actions in order, of their entries.
pub proof fn lemma_template_bound_form(acts: Seq<ActionView>)
    requires
        forall|i: int|
            0 <= i < acts.len() && (#[trigger] acts[i]).key is Some ==> acts[i].group != ""@,
    ensures
        template_of(acts) == bound_text(bound_actions(acts)),
        last_bound_group(acts) == if bound_actions(acts).len() == 0 {
            None
        } else {
            Some(bound_actions(acts).last().group)
        },
    decreases acts.len(),
{
    reveal(Seq::filter);
    if acts.len() > 0 {
        let pre = acts.drop_last();
        let a = acts.last();
        assert forall|i: int|
            0 <= i < pre.len() && (#[trigger] pre[i]).key is Some implies pre[i].group != ""@ by {
            assert(pre[i] == acts[i]);
        }
        lemma_template_bound_form(pre);
        let b0 = bound_actions(pre);
        assert(bound_actions(acts) == if a.key is Some {
            b0.push(a)
        } else {
            b0
        });
        if a.key is Some {
            let b = b0.push(a);
            assert(b.drop_last() =~= b0);
            assert(a.group != ""@);
            let j = b0.len() as int;
            assert(b[j] == a);
            if j > 0 {
                assert(b[j - 1] == b0.last());
            }
            assert(section_opening(pre, a.group) + binding_line(a.key.unwrap(), a.id) =~= bound_entry(b, j));
        }
    }
}

/// The comment line `# <group>`, without its line break.
pub open spec fn header_line(group: Seq<char>) -> Seq<char> {
    "# "@ + group
}

/// The binding line `"<key>" = "<id>"`, without its line break.
pub open spec fn binding_text(key: Seq<char>, id: Seq<char>) -> Seq<char> {
    "\""@ + key + "\" = \""@ + id + "\""@
}

/// The lines of the section opening that `group` needs after `before`.
pub open spec fn opening_lines(before: Seq<ActionView>, group: Seq<char>) -> Seq<Seq<char>> {
    match last_bound_group(before) {
        None => if group == ""@ {
            Seq::empty()
        } else {
            seq![header_line(group)]
        },
        Some(g) => if group == g {
            Seq::empty()
        } else {
            seq![Seq::empty(), header_line(group)]
        },
    }
}

/// The lines that action `a` adds after the actions `before`.
pub open spec fn entry_lines(before: Seq<ActionView>, a: ActionView) -> Seq<Seq<char>> {
    match a.key {
        Some(k) => opening_lines(before, a.group).push(binding_text(k, a.id)),
        None => Seq::empty(),
    }
}

/// The lines of the template block for `acts`, without line breaks.
pub open spec fn template_lines(acts: Seq<ActionView>) -> Seq<Seq<char>>
    decreases acts.len(),
{
    if acts.len() == 0 {
        Seq::empty()
    } else {
        template_lines(acts.drop_last()) + entry_lines(acts.drop_last(), acts.last())
    }
}

/// Lines joined into text, each followed by a line break.
pub open spec fn lines_text(ls: Seq<Seq<char>>) -> Seq<char>
    decreases ls.len(),
{
    if ls.len() == 0 {
        Seq::empty()
    } else {
        lines_text(ls.drop_last()) + ls.last() + "\n"@
    }
}

/// How many of the lines `ls` satisfy `p`.
pub open spec fn count_lines(ls: Seq<Seq<char>>, p: spec_fn(Seq<char>) -> bool) -> nat
    decreases ls.len(),
{
    if ls.len() == 0 {
        0
    } else {
        count_lines(ls.drop_last(), p) + if p(ls.last()) {
            1nat
        } else {
            0nat
        }
    }
}

/// A line that starts with a double quote, as binding lines do.
pub open spec fn starts_with_quote(l: Seq<char>) -> bool {
    l.len() > 0 && l[0] == '"'
}

/// The test for lines that start with a double quote.
pub open spec fn quoted_line() -> spec_fn(Seq<char>) -> bool {
    |l: Seq<char>| starts_with_quote(l)
}

/// The test for lines equal to `x`.
pub open spec fn line_equal_to(x: Seq<char>) -> spec_fn(Seq<char>) -> bool {
    |l: Seq<char>| l == x
}

/// No line of `ls` holds a line break.
pub open spec fn lines_unbroken(ls: Seq<Seq<char>>) -> bool {
    forall|j: int, p: int| 0 <= j < ls.len() && 0 <= p < ls[j].len() ==> #[trigger] ls[j][p] != '\n'
}

/// `s` holds neither a double quote nor a line break.
pub open spec fn is_plain_text(s: Seq<char>) -> bool {
    forall|p: int| 0 <= p < s.len() ==> #[trigger] s[p] != '"' && s[p] != '\n'
}

/// How many actions of `acts` bind `key` to `id`.
pub open spec fn count_bindings(acts: Seq<ActionView>, key: Seq<char>, id: Seq<char>) -> nat
    decreases acts.len(),
{
    if acts.len() == 0 {
        0
    } else {
        count_bindings(acts.drop_last(), key, id) + if acts.last().key == Some(key)
            && acts.last().id == id {
            1nat
        } else {
            0nat
        }
    }
}

/// Joining concatenated lines is concatenating the joined lines.
pub proof fn lemma_lines_text_concat(a: Seq<Seq<char>>, b: Seq<Seq<char>>)
    ensures
        lines_text(a + b) == lines_text(a) + lines_text(b),
    decreases b.len(),
{
    if b.len() == 0 {
        assert(a + b =~= a);
        assert(lines_text(a) + lines_text(b) =~= lines_text(a));
    } else {
        assert((a + b).drop_last() =~= a + b.drop_last());
        lemma_lines_text_concat(a, b.drop_last());
        assert(lines_text(a + b) =~= lines_text(a) + lines_text(b));
    }
}

/// Counting over concatenated lines adds the counts.
pub proof fn lemma_count_lines_concat(
    a: Seq<Seq<char>>,
    b: Seq<Seq<char>>,
    p: spec_fn(Seq<char>) -> bool,
)
    ensures
        count_lines(a + b, p) == count_lines(a, p) + count_lines(b, p),
    decreases b.len(),
{
    if b.len() == 0 {
        assert(a + b =~= a);
    } else {
        assert((a + b).drop_last() =~= a + b.drop_last());
        lemma_count_lines_concat(a, b.drop_last(), p);
    }
}

/// A binding line gives back its key and its id when the key is plain text.
pub proof fn lemma_binding_text_injective(k1: Seq<char>, i1: Seq<char>, k2: Seq<char>, i2: Seq<char>)
    requires
        is_plain_text(k1),
        is_plain_text(k2),
        binding_text(k1, i1) == binding_text(k2, i2),
    ensures
        k1 == k2,
        i1 == i2,
{
    reveal_strlit("\"");
    reveal_strlit("\" = \"");
    let t = binding_text(k1, i1);
    assert(t == binding_text(k2, i2));
    if k1.len() < k2.len() {
        assert(t[1 + k1.len() as int] == '"');
        assert(t[1 + k1.len() as int] == k2[k1.len() as int]);
    } else if k2.len() < k1.len() {
        assert(t[1 + k2.len() as int] == '"');
        assert(t[1 + k2.len() as int] == k1[k2.len() as int]);
    } else {
        assert forall|p: int| 0 <= p < k1.len() implies k1[p] == k2[p] by {
            assert(t[1 + p] == k1[p]);
            assert(t[1 + p] == k2[p]);
        }
        assert(k1 =~= k2);
        let off: int = 1 + k1.len() as int + 5;
        let t2 = binding_text(k2, i2);
        assert(t.len() == off + i1.len() + 1);
        assert(t2.len() == off + i2.len() + 1);
        assert forall|p: int| 0 <= p < i1.len() implies i1[p] == i2[p] by {
            assert(t[off + p] == i1[p]);
            assert(t2[off + p] == i2[p]);
        }
        assert(i1 =~= i2);
    }
}

/// Each action's text is its lines, each followed by a line break; those
/// lines hold no line break, one of them is a binding line when the action
/// has a default key, and that line is the only one that can equal a
/// binding line of a plain key.
proof fn lemma_entry_lines(before: Seq<ActionView>, a: ActionView, k: Seq<char>, v: Seq<char>)
    requires
        a.key is Some ==> is_plain_text(a.key.unwrap()) && is_plain_text(a.id) && is_plain_text(
            a.group,
        ),
        is_plain_text(k),
    ensures
        entry_text(before, a) == lines_text(entry_lines(before, a)),
        lines_unbroken(entry_lines(before, a)),
        count_lines(entry_lines(before, a), quoted_line()) == if a.key is Some {
            1nat
        } else {
            0nat
        },
        count_lines(entry_lines(before, a), line_equal_to(binding_text(k, v))) == if a.key == Some(k)
            && a.id == v {
            1nat
        } else {
            0nat
        },
{
    reveal_strlit("");
    reveal_strlit("# ");
    reveal_strlit("\n");
    reveal_strlit("\"");
    reveal_strlit("\" = \"");
    reveal_strlit("\"\n");
    reveal_with_fuel(count_lines, 4);
    reveal_with_fuel(lines_text, 4);
    let x = binding_text(k, v);
    assert(x[0] == '"');
    if let Some(key) = a.key {
        let g = a.group;
        let h = header_line(g);
        let line = binding_text(key, a.id);
        let ls = entry_lines(before, a);
        assert(h[0] == '#');
        assert(line[0] == '"');
        assert(h != x) by {
            assert(h[0] != x[0]);
        }
        assert(Seq::<char>::empty() != x) by {
            assert(x.len() > 0);
        }
        if line == x {
            lemma_binding_text_injective(key, a.id, k, v);
        }
        assert forall|p: int| 0 <= p < h.len() implies #[trigger] h[p] != '\n' by {
            if p >= 2 {
                assert(h[p] == g[p - 2]);
            }
        }
        assert forall|p: int| 0 <= p < line.len() implies #[trigger] line[p] != '\n' by {
            let n = key.len() as int;
            if 1 <= p < 1 + n {
                assert(line[p] == key[p - 1]);
            } else if 1 + n + 5 <= p < 1 + n + 5 + a.id.len() {
                assert(line[p] == a.id[p - 1 - n - 5]);
            }
        }
        let o = opening_lines(before, g);
        assert(ls == o.push(line));
        assert(ls.drop_last() =~= o);
        if o.len() == 2 {
            assert(o.drop_last() =~= seq![Seq::<char>::empty()]);
            assert(o.drop_last().drop_last() =~= Seq::<Seq<char>>::empty());
            assert(lines_text(o) =~= section_opening(before, g));
        } else if o.len() == 1 {
            assert(o.drop_last() =~= Seq::<Seq<char>>::empty());
            assert(lines_text(o) =~= section_opening(before, g));
        } else {
            assert(lines_text(o) =~= section_opening(before, g));
        }
        assert(lines_text(ls) == lines_text(o) + line + "\n"@);
        assert(binding_line(key, a.id) =~= line + "\n"@);
        assert(entry_text(before, a) =~= lines_text(ls));
    } else {
        assert(entry_lines(before, a) =~= Seq::<Seq<char>>::empty());
    }
}

/// The template block is its lines, each followed by a line break. No line
/// holds a line break; the lines that start with a double quote are one
/// per action with a default key; and the binding line of a plain key `k`
/// and an id `v` appears as often as an action binds `k` to `v`.
pub proof fn lemma_template_lines_structure(acts: Seq<ActionView>, k: Seq<char>, v: Seq<char>)
    requires
        forall|i: int|
            0 <= i < acts.len() && (#[trigger] acts[i]).key is Some ==> is_plain_text(
                acts[i].key.unwrap(),
            ) && is_plain_text(acts[i].id) && is_plain_text(acts[i].group),
        is_plain_text(k),
    ensures
        template_of(acts) == lines_text(template_lines(acts)),
        lines_unbroken(template_lines(acts)),
        count_lines(template_lines(acts), quoted_line()) == bound_count(acts),
        count_lines(template_lines(acts), line_equal_to(binding_text(k, v))) == count_bindings(
            acts,
            k,
            v,
        ),
    decreases acts.len(),
{
    if acts.len() > 0 {
        let pre = acts.drop_last();
        let a = acts.last();
        assert forall|i: int|
            0 <= i < pre.len() && (#[trigger] pre[i]).key is Some implies is_plain_text(
                pre[i].key.unwrap(),
            ) && is_plain_text(pre[i].id) && is_plain_text(pre[i].group) by {
            assert(pre[i] == acts[i]);
        }
        assert(a == acts[acts.len() - 1]);
        lemma_template_lines_structure(pre, k, v);
        lemma_entry_lines(pre, a, k, v);
        let t = template_lines(pre);
        let e = entry_lines(pre, a);
        lemma_lines_text_concat(t, e);
        lemma_count_lines_concat(t, e, quoted_line());
        lemma_count_lines_concat(t, e, line_equal_to(binding_text(k, v)));
        assert forall|j: int, p: int|
            0 <= j < (t + e).len() && 0 <= p < (t + e)[j].len() implies #[trigger] (t + e)[j][p]
            != '\n' by {
            if j < t.len() {
                assert((t + e)[j] == t[j]);
            } else {
                assert((t + e)[j] == e[j - t.len()]);
            }
        }
    } else {
        assert(template_lines(acts) =~= Seq::<Seq<char>>::empty());
    }
}

/// When no action binds `k`, no action binds `k` to any id.
proof fn lemma_count_bindings_none(acts: Seq<ActionView>, k: Seq<char>, v: Seq<char>)
    requires
        forall|i: int| 0 <= i < acts.len() ==> (#[trigger] acts[i]).key != Some(k),
    ensures
        count_bindings(acts, k, v) == 0,
    decreases acts.len(),
{
    if acts.len() > 0 {
        let pre = acts.drop_last();
        assert forall|i: int| 0 <= i < pre.len() implies (#[trigger] pre[i]).key != Some(k) by {
            assert(pre[i] == acts[i]);
        }
        lemma_count_bindings_none(pre, k, v);
        assert(acts[acts.len() - 1].key != Some(k));
    }
}

/// When default keys are distinct, the action that binds `k` to `v` is the
/// only one that does.
pub proof fn lemma_count_bindings_unique(acts: Seq<ActionView>, k: Seq<char>, v: Seq<char>, i0: int)
    requires
        keys_distinct(acts),
        0 <= i0 < acts.len(),
        acts[i0].key == Some(k),
        acts[i0].id == v,
    ensures
        count_bindings(acts, k, v) == 1,
    decreases acts.len(),
{
    let pre = acts.drop_last();
    let n = acts.len() - 1;
    if i0 == n {
        assert forall|i: int| 0 <= i < pre.len() implies (#[trigger] pre[i]).key != Some(k) by {
            assert(pre[i] == acts[i]);
            assert(acts[i].key != acts[n].key);
        }
        lemma_count_bindings_none(pre, k, v);
    } else {
        assert(keys_distinct(pre)) by {
            assert forall|i: int, j: int|
                0 <= i < pre.len() && 0 <= j < pre.len() && i != j && (#[trigger] pre[i]).key is Some
                    && (#[trigger] pre[j]).key is Some implies pre[i].key != pre[j].key by {
                assert(acts[i] == pre[i] && acts[j] == pre[j]);
            }
        }
        assert(pre[i0] == acts[i0]);
        lemma_count_bindings_unique(pre, k, v, i0);
        assert(acts[n].key != acts[i0].key);
    }
}

/// Renders the `[hotkeys]` binding lines for the generated config template,
/// grouped with a `# <group>` comment before each section. Does not emit
/// the `[hotkeys]` header or `scroll_modifier` line.
pub fn render_template_block() -> (out: String)
    ensures
        out@ == template_of(catalog_spec()),
{
    let catalog = hotkey_catalog();
    let ghost acts = actions_view(catalog@);
    let mut out = String::new();
    let mut current_group: &str = "";
    proof {
        reveal_strlit("");
        reveal_strlit("\"");
        assert(template_of(acts.take(0)) =~= out@);
    }
    let mut i: usize = 0;
    while i < catalog.len()
        invariant
            i <= catalog.len(),
            acts == actions_view(catalog@),
            out@ == template_of(acts.take(i as int)),
            current_group@ == current_group_of(acts.take(i as int)),
            (out@.len() > 0) == (last_bound_group(acts.take(i as int)) is Some),
        decreases catalog.len() - i,
    {
        let ghost before = acts.take(i as int);
        assert(acts.take(i + 1).drop_last() =~= before);
        assert(acts.take(i + 1).last() == catalog@[i as int]@);
        let a = &catalog[i];
        match &a.default_key {
            Some(key) => {
                let ghost out0 = out@;
                if !str_equal(a.group, current_group) {
                    if !out.as_str().is_empty() {
                        out.append("\n");
                    }
                    out.append("# ");
                    out.append(a.group);
                    out.append("\n");
                    current_group = a.group;
                }
                let ghost out1 = out@;
                assert(out1 == out0 + section_opening(before, a.group@)) by {
                    reveal_strlit("");
                    if last_bound_group(before) is None && a.group@ != ""@ {
                        assert(out0.len() == 0);
                        assert(out0 + group_header(a.group@) =~= "# "@ + a.group@ + "\n"@);
                    }
                    if last_bound_group(before) is Some && a.group@ != current_group_of(before) {
                        assert(out0 + ("\n"@ + group_header(a.group@)) =~= out0 + "\n"@ + "# "@
                            + a.group@ + "\n"@);
                    }
                    if a.group@ == current_group_of(before) {
                        assert(out0 + Seq::<char>::empty() =~= out0);
                    }
                };
                out.append("\"");
                out.append(key.as_str());
                out.append("\" = \"");
                out.append(a.id.as_str());
                out.append("\"\n");
                assert(out@ =~= out1 + binding_line(key@, a.id@));
                assert(out@.len() > 0) by {
                    reveal_strlit("\"");
                };
                assert(out@ =~= template_of(before) + entry_text(before, a@));
            },
            None => {
                assert(entry_text(before, a@) =~= Seq::<char>::empty());
                assert(out@ =~= template_of(before) + entry_text(before, a@));
            },
        }
        i = i + 1;
    }
    assert(acts.take(catalog.len() as int) =~= acts);
    out
}

} // verus!
