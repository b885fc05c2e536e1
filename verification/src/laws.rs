//! What holds of the explorer across its operations.

use crate::app::{cursor_target, modified_selection, toggled, NavigateDirection};
use crate::clipboard::{holds_path, with_paths};
use crate::file::PasteKind;
use crate::file_system::{self, PasteStep};
use crate::paths::{self, is_normal_part, spec_components, spec_path_push};
use crate::toasts::{self, expired, first_with_message, raised};
use crate::app::sorting;
use crate::app::{self, property_label, ClipboardMode, Command, OverlayKind, Property};
use crate::config::KeybindAction;
use crate::input;
use crate::theme;
use crate::config;
use crate::file::info;
use crate::text;
use vstd::prelude::*;

verus! {

/// Toggling a window twice leaves it as it was.
pub proof fn law_toggle_twice(state: Option<bool>)
    requires
        state is None || state == Some(true),
    ensures
        toggled(toggled(state)) == state,
{
}

/// Entering a folder and going back up returns to the folder entered from: the folder that
/// holds `folder` pushed with a component is `folder` again, and that path lies directly in it.
pub proof fn law_back_after_forward(folder: Seq<char>, name: Seq<char>)
    requires
        is_normal_part(name),
    ensures
        paths::spec_parent_components(spec_path_push(folder, name)) == spec_components(folder),
        file_system::spec_in_folder(spec_path_push(folder, name), folder),
{
    paths::lemma_push_components(folder, name);
    assert(spec_components(folder).2.push(name).drop_last() =~= spec_components(folder).2);
}

proof fn lemma_push_all_components(base: Seq<char>, parts: Seq<Seq<char>>)
    requires
        forall|i: int| 0 <= i < parts.len() ==> is_normal_part(#[trigger] parts[i]),
    ensures
        spec_components(file_system::push_all(base, parts)) == (
            spec_components(base).0,
            spec_components(base).1,
            spec_components(base).2 + parts,
        ),
    decreases parts.len(),
{
    if parts.len() == 0 {
        assert(spec_components(base).2 + parts =~= spec_components(base).2);
    } else {
        lemma_push_all_components(base, parts.drop_last());
        assert(is_normal_part(parts[parts.len() - 1]));
        paths::lemma_push_components(file_system::push_all(base, parts.drop_last()), parts.last());
        assert((spec_components(base).2 + parts.drop_last()).push(parts.last()) =~= spec_components(
            base,
        ).2 + parts);
    }
}

/// A path typed for a new file or folder is made under the current folder, component by
/// component: the components of the path made are those of the current folder followed by those
/// typed, from the same root.
pub proof fn law_created_under_current(current: Seq<char>, typed: Seq<char>, star: bool)
    requires
        !file_system::spec_blank(typed),
        !file_system::spec_invalid(typed, star),
    ensures
        spec_components(file_system::spec_created_path(current, typed)).2 == spec_components(
            current,
        ).2 + spec_components(typed).2,
        spec_components(file_system::spec_created_path(current, typed)).0 == spec_components(
            current,
        ).0,
{
    paths::lemma_components_normal(typed);
    let c = spec_components(typed);
    let base = if c.1 {
        spec_path_push(current, "."@)
    } else {
        current
    };
    paths::lemma_push_dot(current);
    lemma_push_all_components(base, c.2);
}

proof fn lemma_with_paths_prefix(base: Seq<Seq<char>>, added: Seq<Seq<char>>)
    ensures
        with_paths(base, added).len() >= base.len(),
        with_paths(base, added).subrange(0, base.len() as int) == base,
    decreases added.len(),
{
    if added.len() == 0 {
        assert(base.subrange(0, base.len() as int) =~= base);
    } else {
        lemma_with_paths_prefix(base, added.drop_last());
        let acc = with_paths(base, added.drop_last());
        assert(acc.push(added.last()).subrange(0, base.len() as int) =~= acc.subrange(0, base.len() as int));
    }
}

proof fn lemma_holds_in_prefix(s: Seq<Seq<char>>, t: Seq<Seq<char>>, p: Seq<char>)
    requires
        holds_path(s, p),
        t.len() >= s.len(),
        t.subrange(0, s.len() as int) == s,
    ensures
        holds_path(t, p),
{
    let i = choose|i: int| 0 <= i < s.len() && paths::spec_same_path(#[trigger] s[i], p);
    assert(t.subrange(0, s.len() as int)[i] == t[i]);
    assert(paths::spec_same_path(t[i], p));
}

/// After paths are put on the clipboard, each of them is on it, and so is every path that was
/// on it before (where the behaviour is to add).
pub proof fn law_clipboard_holds(base: Seq<Seq<char>>, added: Seq<Seq<char>>)
    ensures
        forall|i: int| 0 <= i < added.len() ==> holds_path(with_paths(base, added), #[trigger] added[i]),
        forall|i: int| 0 <= i < base.len() ==> holds_path(with_paths(base, added), #[trigger] base[i]),
    decreases added.len(),
{
    lemma_with_paths_prefix(base, added);
    assert forall|i: int| 0 <= i < base.len() implies holds_path(with_paths(base, added), #[trigger] base[i]) by {
        assert(paths::spec_same_path(base[i], base[i]));
        assert(holds_path(base, base[i]));
        lemma_holds_in_prefix(base, with_paths(base, added), base[i]);
    }
    if added.len() > 0 {
        let front = added.drop_last();
        law_clipboard_holds(base, front);
        let acc = with_paths(base, front);
        let whole = with_paths(base, added);
        assert(added.drop_last() == front);
        if holds_path(acc, added.last()) {
            assert(whole == acc);
            assert(whole.subrange(0, acc.len() as int) =~= acc);
        } else {
            assert(whole == acc.push(added.last()));
            assert(whole.subrange(0, acc.len() as int) =~= acc);
        }
        assert forall|i: int| 0 <= i < added.len() implies holds_path(whole, #[trigger] added[i]) by {
            if i < added.len() - 1 {
                assert(added[i] == front[i]);
                lemma_holds_in_prefix(acc, whole, added[i]);
            } else if holds_path(acc, added.last()) {
                lemma_holds_in_prefix(acc, whole, added[i]);
            } else {
                assert(whole == acc.push(added.last()));
                assert(paths::spec_same_path(whole[acc.len() as int], added[i]));
            }
        }
    }
}

proof fn lemma_with_held(base: Seq<Seq<char>>, added: Seq<Seq<char>>)
    requires
        forall|i: int| 0 <= i < added.len() ==> holds_path(base, #[trigger] added[i]),
    ensures
        with_paths(base, added) == base,
    decreases added.len(),
{
    if added.len() > 0 {
        lemma_with_held(base, added.drop_last());
        assert(holds_path(base, added[added.len() - 1]));
    }
}

/// Putting the same paths on the clipboard again, adding to it, leaves it as it is.
pub proof fn law_clipboard_again(base: Seq<Seq<char>>, added: Seq<Seq<char>>)
    ensures
        with_paths(with_paths(base, added), added) == with_paths(base, added),
{
    law_clipboard_holds(base, added);
    lemma_with_held(with_paths(base, added), added);
}

/// Raising a notification that is shown counts it once more; when that raise's time is up, the
/// notifications are as they were.
pub proof fn law_raise_then_expire(
    s: Seq<(Seq<char>, Seq<char>, crate::app::ToastKind, i8, u64)>,
    title: Seq<char>,
    content: Seq<char>,
    kind: crate::app::ToastKind,
    fresh_id: u64,
    i: int,
)
    requires
        forall|a: int, b: int| 0 <= a < b < s.len() ==> (#[trigger] s[a]).4 != (#[trigger] s[b]).4,
        first_with_message(s, title, content, i),
        1 <= s[i].3 < i8::MAX,
    ensures
        raised(s, title, content, kind, fresh_id).1 == s[i].4,
        raised(s, title, content, kind, fresh_id).0[i].3 == s[i].3 + 1,
        expired(raised(s, title, content, kind, fresh_id).0, raised(s, title, content, kind, fresh_id).1)
            == s,
{
    let c = choose|k: int| first_with_message(s, title, content, k);
    assert(first_with_message(s, title, content, c));
    if c < i {
        assert(!toasts::same_message(s[c], title, content));
    } else if c > i {
        assert(!toasts::same_message(s[i], title, content));
    }
    let s2 = s.update(i, (s[i].0, s[i].1, s[i].2, (s[i].3 + 1) as i8, s[i].4));
    let id = s[i].4;
    assert(raised(s, title, content, kind, fresh_id) == (s2, id));
    assert(toasts::first_with_id(s2, id, i)) by {
        assert forall|j: int| 0 <= j < i implies (#[trigger] s2[j]).4 != id by {
            assert(s2[j] == s[j]);
        }
    }
    let d = choose|k: int| toasts::first_with_id(s2, id, k);
    assert(toasts::first_with_id(s2, id, d));
    if d < i {
        assert(s2[d].4 != id);
    } else if d > i {
        assert(s2[i].4 != id);
    }
    assert(s2.update(i, (s2[i].0, s2[i].1, s2[i].2, (s2[i].3 - 1) as i8, s2[i].4)) =~= s);
}

/// A plain click on a displayed entry selects that entry alone.
pub proof fn law_plain_click_selects_one(
    sel: Set<usize>,
    d: Seq<usize>,
    cursor: int,
    index: int,
)
    requires
        0 <= index < d.len(),
    ensures
        modified_selection(sel, d, cursor, index, false, false) == set![d[index]],
{
    assert(modified_selection(sel, d, cursor, index, false, false) =~= set![d[index]]);
}

/// Two control-clicks on the same entry leave the selection as it was.
pub proof fn law_ctrl_click_twice(sel: Set<usize>, d: Seq<usize>, cursor: int, index: int)
    requires
        0 <= index < d.len(),
    ensures
        modified_selection(
            modified_selection(sel, d, cursor, index, true, false),
            d,
            index,
            index,
            true,
            false,
        ) == sel,
{
    let e = d[index];
    let once = modified_selection(sel, d, cursor, index, true, false);
    if sel.contains(e) {
        assert(once == sel.remove(e));
        assert(once.insert(e) =~= sel);
    } else {
        assert(once == sel.insert(e));
        assert(once.remove(e) =~= sel);
    }
}

/// Pasting an item, replacing, into the folder it already lies in leaves it where it is: its
/// target there is the item itself.
pub proof fn law_paste_into_own_folder(
    item: Seq<char>,
    dest: Seq<char>,
    name: Seq<char>,
    folder_is_file: bool,
)
    requires
        file_system::spec_in_folder(item, dest),
        paths::spec_file_name(item) == Some(name),
    ensures
        file_system::spec_paste_step(
            PasteKind::Replace,
            item,
            spec_path_push(file_system::push_all(dest, Seq::empty()), name),
            true,
            folder_is_file,
        ) == PasteStep::Keep,
{
    let parts = spec_components(item).2;
    paths::lemma_last_normal(crate::text::spec_split(item, '/'));
    paths::lemma_components_normal(item);
    assert(parts.len() > 0);
    assert(name == parts.last());
    assert(is_normal_part(parts[parts.len() - 1]));
    paths::lemma_push_components(dest, name);
    assert(parts.drop_last().push(name) =~= parts);
    assert(file_system::push_all(dest, Seq::empty()) == dest);
}

/// A duplicate is tried under a new name each time: the names tried for different counts
/// differ.
pub proof fn law_duplicate_names_distinct(stem: Seq<char>, extension: Seq<char>, k1: nat, k2: nat)
    requires
        k1 != k2,
    ensures
        file_system::spec_numbered_name(stem, extension, k1) != file_system::spec_numbered_name(
            stem,
            extension,
            k2,
        ),
{
    reveal_strlit(" (");
    reveal_strlit(")");
    let a = file_system::spec_numbered_name(stem, extension, k1);
    let b = file_system::spec_numbered_name(stem, extension, k2);
    crate::text::lemma_decimal_digits(k1);
    crate::text::lemma_decimal_digits(k2);
    if k1 == 0 || k2 == 0 {
        assert(a.len() != b.len());
    } else {
        let x = stem + " ("@;
        let d1 = crate::text::spec_decimal(k1);
        let d2 = crate::text::spec_decimal(k2);
        assert(a =~= x + d1 + ")"@ + extension);
        assert(b =~= x + d2 + ")"@ + extension);
        if a == b {
            if d1.len() == d2.len() {
                assert(a.subrange(x.len() as int, (x.len() + d1.len()) as int) =~= d1);
                assert(b.subrange(x.len() as int, (x.len() + d2.len()) as int) =~= d2);
                crate::text::lemma_decimal_injective(k1, k2);
            } else if d1.len() < d2.len() {
                assert(a[(x.len() + d1.len()) as int] == ')');
                assert(b[(x.len() + d1.len()) as int] == d2[d1.len() as int]);
            } else {
                assert(b[(x.len() + d2.len()) as int] == ')');
                assert(a[(x.len() + d2.len()) as int] == d1[d2.len() as int]);
            }
        }
    }
}

/// No notification that is not an operation comes after an operation.
pub open spec fn operations_below(s: Seq<(Seq<char>, Seq<char>, crate::app::ToastKind, i8, u64)>) -> bool {
    forall|i: int, j: int|
        0 <= i < j < s.len() && (#[trigger] s[i]).2 == crate::app::ToastKind::Operation ==> (#[trigger] s[j]).2
            == crate::app::ToastKind::Operation
}

proof fn lemma_of_kind_kinds(s: Seq<(Seq<char>, Seq<char>, crate::app::ToastKind, i8, u64)>, op: bool)
    ensures
        forall|i: int|
            0 <= i < toasts::of_kind(s, op).len() ==> ((#[trigger] toasts::of_kind(s, op)[i]).2
                == crate::app::ToastKind::Operation) == op,
    decreases s.len(),
{
    if s.len() > 0 {
        lemma_of_kind_kinds(s.drop_last(), op);
        let r = toasts::of_kind(s.drop_last(), op);
        assert forall|i: int| 0 <= i < toasts::of_kind(s, op).len() implies ((#[trigger] toasts::of_kind(
            s,
            op,
        )[i]).2 == crate::app::ToastKind::Operation) == op by {
            if i < r.len() {
                assert(toasts::of_kind(s, op)[i] == r[i]);
            }
        }
    }
}

proof fn lemma_without_id_from(s: Seq<(Seq<char>, Seq<char>, crate::app::ToastKind, i8, u64)>, id: u64)
    ensures
        forall|i: int|
            0 <= i < toasts::without_id(s, id).len() ==> exists|k: int|
                0 <= k < s.len() && #[trigger] toasts::without_id(s, id)[i] == s[k],
    decreases s.len(),
{
    if s.len() > 0 {
        lemma_without_id_from(s.drop_last(), id);
        let r = toasts::without_id(s.drop_last(), id);
        assert forall|i: int| 0 <= i < toasts::without_id(s, id).len() implies exists|k: int|
            0 <= k < s.len() && #[trigger] toasts::without_id(s, id)[i] == s[k] by {
            if i < r.len() {
                assert(toasts::without_id(s, id)[i] == r[i]);
                let k = choose|k: int| 0 <= k < s.drop_last().len() && r[i] == s.drop_last()[k];
                assert(s[k] == s.drop_last()[k]);
            } else {
                assert(toasts::without_id(s, id)[i] == s[s.len() - 1]);
            }
        }
    }
}

proof fn lemma_without_id_below(s: Seq<(Seq<char>, Seq<char>, crate::app::ToastKind, i8, u64)>, id: u64)
    requires
        operations_below(s),
    ensures
        operations_below(toasts::without_id(s, id)),
    decreases s.len(),
{
    if s.len() > 0 {
        let d = s.drop_last();
        assert(operations_below(d)) by {
            assert forall|i: int, j: int|
                0 <= i < j < d.len() && (#[trigger] d[i]).2 == crate::app::ToastKind::Operation implies (
                #[trigger] d[j]).2 == crate::app::ToastKind::Operation by {
                assert(d[i] == s[i] && d[j] == s[j]);
            }
        }
        lemma_without_id_below(d, id);
        lemma_without_id_from(d, id);
        let r = toasts::without_id(d, id);
        let w = toasts::without_id(s, id);
        assert forall|i: int, j: int|
            0 <= i < j < w.len() && (#[trigger] w[i]).2 == crate::app::ToastKind::Operation implies (
            #[trigger] w[j]).2 == crate::app::ToastKind::Operation by {
            if j < r.len() {
                assert(w[i] == r[i] && w[j] == r[j]);
            } else {
                assert(w[i] == r[i]);
                let k = choose|k: int| 0 <= k < d.len() && r[i] == d[k];
                assert(s[k] == d[k]);
                assert(w[j] == s[s.len() - 1]);
            }
        }
    }
}

/// Operations stay below the other notifications: raising a notification, or a notification's
/// time being up, keeps every operation after every other notification.
pub proof fn law_operations_stay_below(
    s: Seq<(Seq<char>, Seq<char>, crate::app::ToastKind, i8, u64)>,
    title: Seq<char>,
    content: Seq<char>,
    kind: crate::app::ToastKind,
    fresh_id: u64,
    id: u64,
)
    requires
        operations_below(s),
    ensures
        operations_below(raised(s, title, content, kind, fresh_id).0),
        operations_below(expired(s, id)),
{
    if exists|k: int| first_with_message(s, title, content, k) {
        let i = choose|k: int| first_with_message(s, title, content, k);
        let u = s.update(i, (s[i].0, s[i].1, s[i].2, (s[i].3 + 1) as i8, s[i].4));
        assert forall|a: int, b: int|
            0 <= a < b < u.len() && (#[trigger] u[a]).2 == crate::app::ToastKind::Operation implies (
            #[trigger] u[b]).2 == crate::app::ToastKind::Operation by {
            assert(u[a].2 == s[a].2 && u[b].2 == s[b].2);
        }
    } else {
        let x = s.push((title, content, kind, 1i8, fresh_id));
        lemma_of_kind_kinds(x, false);
        lemma_of_kind_kinds(x, true);
        let f = toasts::of_kind(x, false);
        let t = toasts::of_kind(x, true);
        let o = f + t;
        assert forall|a: int, b: int|
            0 <= a < b < o.len() && (#[trigger] o[a]).2 == crate::app::ToastKind::Operation implies (
            #[trigger] o[b]).2 == crate::app::ToastKind::Operation by {
            if a < f.len() {
                assert(o[a] == f[a]);
            } else {
                assert(o[b] == t[b - f.len()]);
            }
        }
    }
    lemma_without_id_below(s, id);
    if exists|k: int| toasts::first_with_id(s, id, k) {
        let i = choose|k: int| toasts::first_with_id(s, id, k);
        let u = s.update(i, (s[i].0, s[i].1, s[i].2, (s[i].3 - 1) as i8, s[i].4));
        assert forall|a: int, b: int|
            0 <= a < b < u.len() && (#[trigger] u[a]).2 == crate::app::ToastKind::Operation implies (
            #[trigger] u[b]).2 == crate::app::ToastKind::Operation by {
            assert(u[a].2 == s[a].2 && u[b].2 == s[b].2);
        }
    }
}

/// A permutation of `0..n` takes every value of `0..n`.
proof fn lemma_perm_onto(m: Seq<int>, n: int, v: int)
    requires
        crate::order::is_index_perm(m, n),
        0 <= v < n,
    ensures
        exists|j: int| 0 <= j < n && m[j] == v,
{
    assert(m.no_duplicates()) by {
        assert forall|i: int, j: int| 0 <= i < m.len() && 0 <= j < m.len() && i != j implies m[i] != m[j] by {
            if i < j {
                assert(m[i] != m[j]);
            } else {
                assert(m[j] != m[i]);
            }
        }
    }
    m.unique_seq_to_set();
    vstd::seq_lib::seq_to_set_is_finite(m);
    vstd::set_lib::lemma_int_range(0, n);
    let r = vstd::set_lib::set_int_range(0, n);
    assert(m.to_set().subset_of(r)) by {
        assert forall|x: int| m.to_set().contains(x) implies r.contains(x) by {
            let j = choose|j: int| 0 <= j < m.len() && m[j] == x;
            assert(0 <= m[j] < n);
        }
    }
    vstd::set_lib::lemma_subset_equality(m.to_set(), r);
    assert(r.contains(v));
    assert(m.to_set().contains(v));
}

/// Two entries at different positions are never each shown before the other.
proof fn lemma_shown_before_asymmetric(
    a: crate::app::Entry,
    pa: int,
    b: crate::app::Entry,
    pb: int,
    by: crate::app::Property,
    reversed: bool,
)
    requires
        pa != pb,
    ensures
        !(sorting::shown_before(a, pa, b, pb, by, reversed) && sorting::shown_before(
            b,
            pb,
            a,
            pa,
            by,
            reversed,
        )),
{
    sorting::lemma_key_order(a, b, by, 0, 0);
    sorting::lemma_key_order(b, a, by, 0, 0);
    crate::order::lemma_lex_total(sorting::enc_key(a, by) + seq![0u64], sorting::enc_key(b, by) + seq![0u64]);
    if sorting::key_eq(a, b, by) {
        assert(sorting::enc_key(a, by) == sorting::enc_key(b, by));
        crate::order::lemma_lex_total(sorting::enc_key(a, by) + seq![0u64], sorting::enc_key(a, by) + seq![0u64]);
    }
    assert(sorting::key_eq(a, b, by) == sorting::key_eq(b, a, by));
}

/// Position `p` of `orig` is shown before position `q`.
pub open spec fn before_at(
    entries: Seq<crate::app::Entry>,
    orig: Seq<usize>,
    p: int,
    q: int,
    by: crate::app::Property,
    reversed: bool,
) -> bool {
    sorting::shown_before(entries[orig[p] as int], p, entries[orig[q] as int], q, by, reversed)
}

/// Two permutations that both put the positions in display order agree on their first `k`
/// places.
proof fn lemma_sorted_perms_agree(
    entries: Seq<crate::app::Entry>,
    orig: Seq<usize>,
    m1: Seq<int>,
    m2: Seq<int>,
    by: crate::app::Property,
    reversed: bool,
    k: int,
)
    requires
        crate::order::is_index_perm(m1, orig.len() as int),
        crate::order::is_index_perm(m2, orig.len() as int),
        forall|i: int, j: int|
            0 <= i < j < orig.len() ==> #[trigger] before_at(entries, orig, m1[i], m1[j], by, reversed),
        forall|i: int, j: int|
            0 <= i < j < orig.len() ==> #[trigger] before_at(entries, orig, m2[i], m2[j], by, reversed),
        0 <= k <= orig.len(),
    ensures
        forall|l: int| 0 <= l < k ==> m1[l] == m2[l],
    decreases k,
{
    let n = orig.len() as int;
    if k > 0 {
        lemma_sorted_perms_agree(entries, orig, m1, m2, by, reversed, k - 1);
        let c = k - 1;
        if m1[c] != m2[c] {
            assert(0 <= m2[c] < n && 0 <= m1[c] < n);
            lemma_perm_onto(m1, n, m2[c]);
            let j = choose|j: int| 0 <= j < n && m1[j] == m2[c];
            if j < c {
                assert(m1[j] == m2[j]);
                assert(m2[j] != m2[c]);
            }
            assert(j > c);
            assert(before_at(entries, orig, m1[c], m1[j], by, reversed));
            lemma_perm_onto(m2, n, m1[c]);
            let j2 = choose|j: int| 0 <= j < n && m2[j] == m1[c];
            if j2 < c {
                assert(m1[j2] == m2[j2]);
                assert(m1[j2] != m1[c]);
            }
            assert(j2 > c);
            assert(before_at(entries, orig, m2[c], m2[j2], by, reversed));
            lemma_shown_before_asymmetric(
                entries[orig[m1[c]] as int],
                m1[c],
                entries[orig[m2[c]] as int],
                m2[c],
                by,
                reversed,
            );
        }
    }
}

/// The order a listing is shown in is fully decided: two arrangements of the same listed
/// entries that are both in display order are the same.
pub proof fn law_display_order_unique(
    entries: Seq<crate::app::Entry>,
    orig: Seq<usize>,
    r1: Seq<usize>,
    r2: Seq<usize>,
    by: crate::app::Property,
    reversed: bool,
)
    requires
        sorting::sorted_for_display(entries, orig, r1, by, reversed),
        sorting::sorted_for_display(entries, orig, r2, by, reversed),
    ensures
        r1 == r2,
{
    let n = orig.len() as int;
    let m1 = choose|m: Seq<int>|
        #[trigger] crate::order::is_index_perm(m, n) && r1.len() == orig.len() && (forall|i: int|
            0 <= i < r1.len() ==> #[trigger] r1[i] == orig[m[i]]) && (forall|i: int, j: int|
            #![trigger m[i], m[j]]
            0 <= i < j < r1.len() ==> sorting::shown_before(
                entries[r1[i] as int],
                m[i],
                entries[r1[j] as int],
                m[j],
                by,
                reversed,
            ));
    let m2 = choose|m: Seq<int>|
        #[trigger] crate::order::is_index_perm(m, n) && r2.len() == orig.len() && (forall|i: int|
            0 <= i < r2.len() ==> #[trigger] r2[i] == orig[m[i]]) && (forall|i: int, j: int|
            #![trigger m[i], m[j]]
            0 <= i < j < r2.len() ==> sorting::shown_before(
                entries[r2[i] as int],
                m[i],
                entries[r2[j] as int],
                m[j],
                by,
                reversed,
            ));
    assert forall|i: int, j: int| 0 <= i < j < n implies #[trigger] before_at(entries, orig, m1[i], m1[j], by, reversed) by {
        assert(r1[i] == orig[m1[i]] && r1[j] == orig[m1[j]]);
    }
    assert forall|i: int, j: int| 0 <= i < j < n implies #[trigger] before_at(entries, orig, m2[i], m2[j], by, reversed) by {
        assert(r2[i] == orig[m2[i]] && r2[j] == orig[m2[j]]);
    }
    lemma_sorted_perms_agree(entries, orig, m1, m2, by, reversed, n);
    assert forall|i: int| 0 <= i < n implies r1[i] == r2[i] by {
        assert(r1[i] == orig[m1[i]] && r2[i] == orig[m2[i]]);
    }
    assert(r1 =~= r2);
}

/// Moving the cursor down and then up returns it where it was, unless it was on the last entry;
/// moving up and then down returns it, unless it was on the first.
pub proof fn law_cursor_round_trip(cur: int, len: int)
    requires
        0 <= cur < len,
    ensures
        cur < len - 1 ==> cursor_target(cursor_target(cur, len, NavigateDirection::Down), len, NavigateDirection::Up) == cur,
        cur > 0 ==> cursor_target(cursor_target(cur, len, NavigateDirection::Up), len, NavigateDirection::Down) == cur,
{
}

/// The number of hidden entries `r` starts with, counting from `k`.
pub open spec fn hidden_lead(entries: Seq<crate::app::Entry>, r: Seq<usize>, k: int) -> int
    decreases r.len() - k,
{
    if k < 0 || k >= r.len() || !entries[r[k] as int].is_hidden {
        k
    } else {
        hidden_lead(entries, r, k + 1)
    }
}

/// `r` with its leading hidden entries reversed and the rest reversed after them.
pub open spec fn reversed_groups(entries: Seq<crate::app::Entry>, r: Seq<usize>) -> Seq<usize> {
    let h = hidden_lead(entries, r, 0);
    Seq::new(r.len(), |i: int| if i < h { r[h - 1 - i] } else { r[r.len() - 1 - (i - h)] })
}

proof fn lemma_hidden_lead(entries: Seq<crate::app::Entry>, r: Seq<usize>, k: int)
    requires
        0 <= k <= r.len(),
    ensures
        k <= hidden_lead(entries, r, k) <= r.len(),
        forall|i: int| k <= i < hidden_lead(entries, r, k) ==> entries[r[i] as int].is_hidden,
        hidden_lead(entries, r, k) < r.len() ==> !entries[r[hidden_lead(entries, r, k)] as int].is_hidden,
    decreases r.len() - k,
{
    if k < r.len() && entries[r[k] as int].is_hidden {
        lemma_hidden_lead(entries, r, k + 1);
    }
}

/// Listing in descending order shows the ascending listing with each of its two groups, the
/// hidden entries first and then the rest, reversed.
pub proof fn law_reversed_listing(
    entries: Seq<crate::app::Entry>,
    orig: Seq<usize>,
    up: Seq<usize>,
    down: Seq<usize>,
    by: crate::app::Property,
)
    requires
        sorting::sorted_for_display(entries, orig, up, by, false),
        sorting::sorted_for_display(entries, orig, down, by, true),
    ensures
        down == reversed_groups(entries, up),
{
    let n = orig.len() as int;
    let m = choose|m: Seq<int>|
        #[trigger] crate::order::is_index_perm(m, n) && up.len() == orig.len() && (forall|i: int|
            0 <= i < up.len() ==> #[trigger] up[i] == orig[m[i]]) && (forall|i: int, j: int|
            #![trigger m[i], m[j]]
            0 <= i < j < up.len() ==> sorting::shown_before(
                entries[up[i] as int],
                m[i],
                entries[up[j] as int],
                m[j],
                by,
                false,
            ));
    lemma_hidden_lead(entries, up, 0);
    let h = hidden_lead(entries, up, 0);
    // every entry from the first visible one on is visible
    assert forall|i: int| h <= i < n implies !entries[up[i] as int].is_hidden by {
        if i > h && entries[up[i] as int].is_hidden {
            assert(sorting::shown_before(entries[up[h] as int], m[h], entries[up[i] as int], m[i], by, false));
        }
    }
    let c = reversed_groups(entries, up);
    let mc = Seq::new(n as nat, |i: int| if i < h { m[h - 1 - i] } else { m[n - 1 - (i - h)] });
    assert(crate::order::is_index_perm(mc, n)) by {
        assert forall|i: int, j: int| 0 <= i < j < n implies #[trigger] mc[i] != #[trigger] mc[j] by {
            let a = if i < h { h - 1 - i } else { n - 1 - (i - h) };
            let b = if j < h { h - 1 - j } else { n - 1 - (j - h) };
            assert(mc[i] == m[a] && mc[j] == m[b]);
            assert(a != b);
            if a < b {
                assert(m[a] != m[b]);
            } else {
                assert(m[b] != m[a]);
            }
        }
        assert forall|i: int| 0 <= i < n implies 0 <= #[trigger] mc[i] < n by {
            let a = if i < h { h - 1 - i } else { n - 1 - (i - h) };
            assert(mc[i] == m[a]);
        }
    }
    assert forall|i: int| 0 <= i < c.len() implies #[trigger] c[i] == orig[mc[i]] by {
        let a = if i < h { h - 1 - i } else { n - 1 - (i - h) };
        assert(c[i] == up[a] && mc[i] == m[a]);
    }
    assert forall|i: int, j: int| 0 <= i < j < c.len() implies #[trigger] sorting::shown_before(
        entries[c[i] as int],
        mc[i],
        entries[c[j] as int],
        mc[j],
        by,
        true,
    ) by {
        let a = if i < h { h - 1 - i } else { n - 1 - (i - h) };
        let b = if j < h { h - 1 - j } else { n - 1 - (j - h) };
        assert(c[i] == up[a] && mc[i] == m[a]);
        assert(c[j] == up[b] && mc[j] == m[b]);
        if i < h && j >= h {
            assert(entries[up[a] as int].is_hidden);
            assert(!entries[up[b] as int].is_hidden);
        } else {
            assert(b < a);
            assert(sorting::shown_before(entries[up[b] as int], m[b], entries[up[a] as int], m[a], by, false));
            if i < h {
                assert(entries[up[a] as int].is_hidden && entries[up[b] as int].is_hidden);
            } else {
                assert(!entries[up[a] as int].is_hidden && !entries[up[b] as int].is_hidden);
            }
            assert(sorting::key_eq(entries[up[a] as int], entries[up[b] as int], by) == sorting::key_eq(
                entries[up[b] as int],
                entries[up[a] as int],
                by,
            ));
        }
    }
    assert(c.len() == orig.len());
    assert(sorting::sorted_for_display(entries, orig, c, by, true));
    law_display_order_unique(entries, orig, down, c, by, true);
}


/// Keybind settings are read case-insensitively: an ASCII setting names the same shortcut
/// written in upper case or in lower case.
pub proof fn law_keybind_case_insensitive(raw: Seq<char>)
    requires
        text::spec_is_ascii(raw),
    ensures
        config::spec_match_key(text::spec_ascii_uppercase(raw)) == config::spec_match_key(raw),
        config::spec_match_key(text::spec_ascii_lowercase(raw)) == config::spec_match_key(raw),
{
    text::lemma_ascii_lower_of_upper(raw);
    assert(text::spec_lowercase(text::spec_ascii_uppercase(raw)) == text::spec_lowercase(raw));
    assert(text::spec_lowercase(text::spec_ascii_lowercase(raw)) == text::spec_lowercase(raw));
}

/// Property settings are read case-insensitively too: an ASCII setting names the same property
/// written in upper case or in lower case.
pub proof fn law_property_case_insensitive(raw: Seq<char>)
    requires
        text::spec_is_ascii(raw),
    ensures
        config::spec_match_property(text::spec_ascii_uppercase(raw)) == config::spec_match_property(raw),
        config::spec_match_property(text::spec_ascii_lowercase(raw)) == config::spec_match_property(raw),
{
    text::lemma_ascii_lower_of_upper(raw);
    assert(text::spec_lowercase(text::spec_ascii_uppercase(raw)) == text::spec_lowercase(raw));
    assert(text::spec_lowercase(text::spec_ascii_lowercase(raw)) == text::spec_lowercase(raw));
}

/// The name a property is shown under reads back as that property, in any case.
pub proof fn law_property_label_round_trip(p: Property)
    ensures
        config::spec_match_property(property_label(p)) == p,
        config::spec_match_property(text::spec_ascii_uppercase(property_label(p))) == p,
{
    reveal_strlit("name");
    reveal_strlit("accessed");
    reveal_strlit("created");
    reveal_strlit("type");
    reveal_strlit("size");
    reveal_strlit("path");
    let l = property_label(p);
    assert("name"@[0] == 'n' && "accessed"@[0] == 'a' && "created"@[0] == 'c');
    assert("type"@[0] == 't' && "size"@[0] == 's' && "path"@[0] == 'p');
    assert(text::spec_is_ascii(l));
    assert(text::spec_ascii_lowercase(l) =~= l);
    assert(text::spec_lowercase(l) == l);
    assert(config::property_named(l) == p);
    law_property_case_insensitive(l);
}

/// A setting that names no property, whatever its case, means sorting by name.
pub proof fn law_unknown_property_is_name(raw: Seq<char>)
    requires
        text::spec_lowercase(raw) != "name"@,
        text::spec_lowercase(raw) != "accessed"@,
        text::spec_lowercase(raw) != "created"@,
        text::spec_lowercase(raw) != "type"@,
        text::spec_lowercase(raw) != "size"@,
        text::spec_lowercase(raw) != "path"@,
    ensures
        config::spec_match_property(raw) == Property::Name,
{
}

/// A file's name without its extension, and its extension after a dot, make up its name again
/// (where the name does not end in a dot, which leaves an empty extension behind).
pub proof fn law_stem_and_extension_rebuild_name(path: Seq<char>, name: Seq<char>)
    requires
        paths::spec_file_name(path) == Some(name),
        name.len() > 0 ==> name.last() != '.',
    ensures
        info::spec_name_without_extension(path, false) + file_system::spec_dotted(
            info::spec_file_extension(path),
        ) == name,
{
    reveal_strlit(".");
    let i = text::spec_last_index_of(name, '.');
    text::lemma_last_index_of(name, '.');
    if i > 0 {
        let ext = name.subrange(i + 1, name.len() as int);
        assert(ext.len() > 0);
        assert(name.subrange(0, i) + ("."@ + ext) =~= name);
    } else {
        assert(info::spec_file_extension(path) =~= Seq::<char>::empty());
        assert(name + Seq::<char>::empty() =~= name);
    }
}



/// A shift-click selects every displayed entry between the cursor and the clicked position
/// (both ends included), keeps what was selected before, and selects nothing else.
pub proof fn law_shift_click_selects_range(sel: Set<usize>, d: Seq<usize>, cursor: int, index: int)
    requires
        0 <= cursor < d.len(),
        0 <= index < d.len(),
    ensures
        ({
            let r = modified_selection(sel, d, cursor, index, false, true);
            let lo = if index < cursor { index } else { cursor };
            let hi = if index < cursor { cursor } else { index };
            &&& forall|p: int| lo <= p <= hi ==> r.contains(#[trigger] d[p])
            &&& sel.subset_of(r)
            &&& forall|x: usize|
                #[trigger] r.contains(x) && !sel.contains(x) ==> exists|p: int|
                    lo <= p <= hi && d[p] == x
        }),
{
    let r = modified_selection(sel, d, cursor, index, false, true);
    let lo = if index < cursor { index } else { cursor };
    let hi = if index < cursor { cursor } else { index };
    let between = app::shown_between(d, lo, hi);
    assert forall|p: int| lo <= p <= hi implies r.contains(#[trigger] d[p]) by {
        assert(between.contains(d[p]));
    }
    assert(between.contains(d[index]));
    assert(r == sel.union(between));
}

/// A modifier that a shortcut asks for must be held for it to match: alt, shift and control
/// alike; a shortcut always matches its own modifiers, and holding alt or shift besides never
/// stops a match.
pub proof fn law_required_modifiers_must_be_held(held: config::Modifiers, pattern: config::Modifiers)
    ensures
        pattern.alt && !held.alt ==> !input::spec_matches_logically(held, pattern),
        pattern.shift && !held.shift ==> !input::spec_matches_logically(held, pattern),
        pattern.ctrl && !held.ctrl ==> !input::spec_matches_logically(held, pattern),
        input::spec_matches_logically(pattern, pattern),
        input::spec_matches_logically(held, pattern) ==> input::spec_matches_logically(
            config::Modifiers { alt: true, shift: true, ..held },
            pattern,
        ),
{
}

/// A key binding with alt or shift never fires in a frame where that modifier is not held,
/// whatever was pressed; one with control never fires without control held, unless a
/// clipboard event (which stands for control) came in the frame.
pub proof fn law_binding_needs_its_modifiers(
    b: config::Keybind,
    held: config::Modifiers,
    events: Seq<input::ClipboardEvent>,
    pressed: Seq<config::Key>,
)
    ensures
        b.1.modifiers.alt && !held.alt ==> !input::fires(b, held, events, pressed),
        b.1.modifiers.shift && !held.shift ==> !input::fires(b, held, events, pressed),
        b.1.modifiers.ctrl && !held.ctrl && events.len() == 0 ==> !input::fires(
            b,
            held,
            events,
            pressed,
        ),
{
    let pattern = input::frame_modifiers(held, events).spec_plus(b.1.modifiers);
    law_required_modifiers_must_be_held(held, pattern);
}

/// With entries selected, and neither a dialog open nor the search field focused, copying puts
/// them on the clipboard to be copied and cutting puts them there to be moved (the two modes
/// differ); with nothing selected neither does anything, and neither does anything while a
/// dialog is open or the search field has the focus.
pub proof fn law_copy_and_cut(count: nat, overlay_open: bool, field_focused: bool)
    ensures
        count > 0 ==> app::spec_command(KeybindAction::Copy, false, false, count) == Command::AddToClipboard(
            ClipboardMode::Copy,
        ),
        count > 0 ==> app::spec_command(KeybindAction::Cut, false, false, count) == Command::AddToClipboard(
            ClipboardMode::Cut,
        ),
        ClipboardMode::Copy != ClipboardMode::Cut,
        count == 0 ==> app::spec_command(KeybindAction::Copy, overlay_open, field_focused, count)
            == Command::Nothing,
        count == 0 ==> app::spec_command(KeybindAction::Cut, overlay_open, field_focused, count)
            == Command::Nothing,
        overlay_open || field_focused ==> app::spec_command(
            KeybindAction::Copy,
            overlay_open,
            field_focused,
            count,
        ) == Command::Nothing && app::spec_command(
            KeybindAction::Cut,
            overlay_open,
            field_focused,
            count,
        ) == Command::Nothing,
{
}

/// With no dialog open and the search field not focused, each action does what its name says:
/// navigation moves, paste pastes, delete asks to delete the selection (when there is one),
/// rename, create and info open their dialogs, and so on; while a dialog is open only the
/// choices count, and they answer it with their own number.
pub proof fn law_actions_do_what_they_name(count: nat, c: usize, field_focused: bool)
    ensures
        app::spec_command(KeybindAction::NavigateUp, false, false, count) == Command::Navigate(
            NavigateDirection::Up,
        ),
        app::spec_command(KeybindAction::NavigateDown, false, false, count) == Command::Navigate(
            NavigateDirection::Down,
        ),
        app::spec_command(KeybindAction::NavigateForward, false, false, count)
            == Command::NavigateForward,
        app::spec_command(KeybindAction::NavigateBackward, false, false, count)
            == Command::NavigateBackward,
        app::spec_command(KeybindAction::Paste, false, false, count) == Command::Paste,
        app::spec_command(KeybindAction::ClearClipboard, false, false, count)
            == Command::ClearClipboard,
        count > 0 ==> app::spec_command(KeybindAction::Delete, false, false, count)
            == Command::OpenOverlay(OverlayKind::Delete),
        count == 0 ==> app::spec_command(KeybindAction::Delete, false, false, count) == Command::Nothing,
        app::spec_command(KeybindAction::Rename, false, false, count) == Command::OpenOverlay(
            OverlayKind::Rename,
        ),
        app::spec_command(KeybindAction::ToggleHidden, false, false, count) == Command::ToggleHidden,
        app::spec_command(KeybindAction::CreateFile, false, false, count) == Command::OpenOverlay(
            OverlayKind::CreateFile,
        ),
        app::spec_command(KeybindAction::CreateFolder, false, false, count) == Command::OpenOverlay(
            OverlayKind::CreateFolder,
        ),
        app::spec_command(KeybindAction::Info, false, false, count) == Command::OpenOverlay(
            OverlayKind::Metadata,
        ),
        app::spec_command(KeybindAction::Search, false, false, count) == Command::Search,
        app::spec_command(KeybindAction::Refresh, false, false, count) == Command::Refresh,
        app::spec_command(KeybindAction::Choice(c), true, field_focused, count)
            == Command::FinalizeChoice(c),
        app::spec_command(KeybindAction::Paste, true, field_focused, count) == Command::Nothing,
        app::spec_command(KeybindAction::Paste, false, true, count) == Command::Nothing,
{
}


/// The lower-case hexadecimal digit for `d` (below 16).
pub open spec fn hex_digit(d: int) -> char {
    if d < 10 {
        (48 + d) as char
    } else {
        (87 + d) as char
    }
}

/// A byte written as two hexadecimal digits.
pub open spec fn hex_byte(v: int) -> Seq<char> {
    seq![hex_digit(v / 16), hex_digit(v % 16)]
}

proof fn lemma_hex_digit(d: int)
    requires
        0 <= d < 16,
    ensures
        theme::hex_value(hex_digit(d)) == Some(d as nat),
        hex_digit(d) != '#',
        hex_digit(d) != '+',
        hex_digit(d) != '-',
{
    if d < 10 {
        assert(hex_digit(d) as int == 48 + d);
    } else {
        assert(hex_digit(d) as int == 87 + d);
    }
}

proof fn lemma_scan_push(p: Seq<char>, c: char, v: nat, x: nat)
    requires
        theme::scan_hex(p) == Ok::<nat, theme::HexError>(v),
        theme::hex_value(c) == Some(x),
        v * 16 + x <= u32::MAX,
    ensures
        theme::scan_hex(p.push(c)) == Ok::<nat, theme::HexError>(v * 16 + x),
{
    assert(p.push(c).drop_last() =~= p);
}

/// The hexadecimal digits of the bytes `bytes`, read after one another, give the number those
/// bytes make, most significant first.
proof fn lemma_scan_bytes(bytes: Seq<u8>)
    requires
        bytes.len() <= 4,
    ensures
        theme::scan_hex(bytes_hex(bytes)) == Ok::<nat, theme::HexError>(bytes_value(bytes)),
        bytes_value(bytes) < pow256(bytes.len()),
        forall|i: int| 0 <= i < bytes_hex(bytes).len() ==> {
            let c = #[trigger] bytes_hex(bytes)[i];
            c != '#' && c != '+' && c != '-'
        },
        bytes_hex(bytes).len() == 2 * bytes.len(),
    decreases bytes.len(),
{
    if bytes.len() == 0 {
        assert(bytes_hex(bytes) =~= Seq::<char>::empty());
    } else {
        let front = bytes.drop_last();
        let b = bytes.last() as int;
        lemma_scan_bytes(front);
        let v = bytes_value(front);
        lemma_hex_digit(b / 16);
        lemma_hex_digit(b % 16);
        let hi = hex_digit(b / 16);
        let lo = hex_digit(b % 16);
        assert(pow256(bytes.len() as nat) == 256 * pow256(front.len()));
        lemma_pow256_bound(front.len());
        assert(v * 16 + (b / 16) <= u32::MAX) by (nonlinear_arith)
            requires
                v < pow256(front.len()),
                front.len() <= 3,
                pow256(front.len()) <= 0x1000000,
                0 <= b < 256,
        ;
        lemma_scan_push(bytes_hex(front), hi, v, (b / 16) as nat);
        assert((v * 16 + b / 16) * 16 + b % 16 == v * 256 + b) by (nonlinear_arith)
            requires
                0 <= b < 256,
        ;
        assert(v * 256 + b <= u32::MAX) by (nonlinear_arith)
            requires
                v < pow256(front.len()),
                pow256(front.len()) <= 0x1000000,
                0 <= b < 256,
        ;
        lemma_scan_push(bytes_hex(front).push(hi), lo, (v * 16 + b / 16) as nat, (b % 16) as nat);
        assert(bytes_hex(bytes) =~= bytes_hex(front).push(hi).push(lo));
        assert(v * 256 + b < 256 * pow256(front.len())) by (nonlinear_arith)
            requires
                v < pow256(front.len()),
                0 <= b < 256,
        ;
    }
}

proof fn lemma_pow256_bound(n: nat)
    requires
        n <= 3,
    ensures
        pow256(n) <= 0x1000000,
{
    reveal_with_fuel(pow256, 4);
}

/// `256` to the power `n`.
pub open spec fn pow256(n: nat) -> nat
    decreases n,
{
    if n == 0 {
        1
    } else {
        256 * pow256((n - 1) as nat)
    }
}

/// The hexadecimal digits of `bytes`, two per byte.
pub open spec fn bytes_hex(bytes: Seq<u8>) -> Seq<char>
    decreases bytes.len(),
{
    if bytes.len() == 0 {
        Seq::empty()
    } else {
        bytes_hex(bytes.drop_last()) + hex_byte(bytes.last() as int)
    }
}

/// The number `bytes` make, most significant first.
pub open spec fn bytes_value(bytes: Seq<u8>) -> nat
    decreases bytes.len(),
{
    if bytes.len() == 0 {
        0
    } else {
        bytes_value(bytes.drop_last()) * 256 + bytes.last() as nat
    }
}

proof fn lemma_colour_text(bytes: Seq<u8>)
    requires
        1 <= bytes.len() <= 4,
    ensures
        theme::without_hashes("#"@ + bytes_hex(bytes)) == bytes_hex(bytes),
        theme::spec_parse_hex(bytes_hex(bytes)) == Ok::<nat, theme::HexError>(bytes_value(bytes)),
{
    reveal_strlit("#");
    lemma_scan_bytes(bytes);
    let t = bytes_hex(bytes);
    let h = "#"@ + t;
    assert(h.len() > 0 && h[0] == '#');
    assert(h.drop_first() =~= t);
    assert(t.len() > 0);
    assert(t[0] != '#' && t[0] != '+' && t[0] != '-');
    assert(theme::without_hashes(t) == t);
    assert(theme::without_hashes(h) == theme::without_hashes(h.drop_first()));
}

/// A colour written as `#rrggbb` reads back as its red, green and blue, fully opaque.
pub proof fn law_colour_hex_round_trip(r: u8, g: u8, b: u8)
    ensures
        theme::spec_hex_to_rgba("#"@ + hex_byte(r as int) + hex_byte(g as int) + hex_byte(b as int))
            == Ok::<(u32, u32, u32, u32), theme::HexError>((r as u32, g as u32, b as u32, 255u32)),
{
    let b1 = seq![r];
    let b2 = seq![r, g];
    let bytes = seq![r, g, b];
    assert(b1.drop_last() =~= Seq::<u8>::empty());
    assert(bytes_hex(b1.drop_last()) =~= Seq::<char>::empty());
    assert(bytes_value(b1.drop_last()) == 0);
    assert(b1.last() == r);
    assert(b2.drop_last() =~= b1);
    assert(bytes.drop_last() =~= b2);
    assert(bytes_hex(b1) =~= hex_byte(r as int));
    assert(bytes_hex(b2) =~= hex_byte(r as int) + hex_byte(g as int));
    assert(bytes_hex(bytes) =~= hex_byte(r as int) + hex_byte(g as int) + hex_byte(b as int));
    assert(bytes_value(b1) == r as nat);
    assert(bytes_value(b2) == (r as nat) * 256 + g as nat);
    assert(bytes_value(bytes) == (r as nat) * 65536 + (g as nat) * 256 + b as nat);
    lemma_colour_text(bytes);
    let t = "#"@ + hex_byte(r as int) + hex_byte(g as int) + hex_byte(b as int);
    assert(t =~= "#"@ + bytes_hex(bytes));
    let n = (r as nat) * 65536 + (g as nat) * 256 + b as nat;
    assert(n / 0x10000 % 0x100 == r && n / 0x100 % 0x100 == g && n % 0x100 == b) by (nonlinear_arith)
        requires
            n == (r as nat) * 65536 + (g as nat) * 256 + b as nat,
            r < 256,
            g < 256,
            b < 256,
    ;
}

/// A colour written as `#rrggbbaa` reads back as its red, green, blue and alpha.
pub proof fn law_colour_hex_alpha_round_trip(r: u8, g: u8, b: u8, a: u8)
    ensures
        theme::spec_hex_to_rgba(
            "#"@ + hex_byte(r as int) + hex_byte(g as int) + hex_byte(b as int) + hex_byte(a as int),
        ) == Ok::<(u32, u32, u32, u32), theme::HexError>((r as u32, g as u32, b as u32, a as u32)),
{
    let b1 = seq![r];
    let b2 = seq![r, g];
    let b3 = seq![r, g, b];
    let bytes = seq![r, g, b, a];
    assert(b1.drop_last() =~= Seq::<u8>::empty());
    assert(bytes_hex(b1.drop_last()) =~= Seq::<char>::empty());
    assert(bytes_value(b1.drop_last()) == 0);
    assert(b1.last() == r);
    assert(b2.drop_last() =~= b1);
    assert(b3.drop_last() =~= b2);
    assert(bytes.drop_last() =~= b3);
    assert(bytes_hex(b1) =~= hex_byte(r as int));
    assert(bytes_hex(b2) =~= hex_byte(r as int) + hex_byte(g as int));
    assert(bytes_hex(b3) =~= hex_byte(r as int) + hex_byte(g as int) + hex_byte(b as int));
    assert(bytes_hex(bytes) =~= hex_byte(r as int) + hex_byte(g as int) + hex_byte(b as int) + hex_byte(
        a as int,
    ));
    let n = (r as nat) * 0x1000000 + (g as nat) * 65536 + (b as nat) * 256 + a as nat;
    assert(bytes_value(b1) == r as nat);
    assert(bytes_value(b2) == (r as nat) * 256 + g as nat);
    assert(bytes_value(b3) == (r as nat) * 65536 + (g as nat) * 256 + b as nat);
    assert(bytes_value(bytes) == n);
    lemma_colour_text(bytes);
    let t = "#"@ + hex_byte(r as int) + hex_byte(g as int) + hex_byte(b as int) + hex_byte(a as int);
    assert(t =~= "#"@ + bytes_hex(bytes));
    assert(n / 0x1000000 % 0x100 == r && n / 0x10000 % 0x100 == g && n / 0x100 % 0x100 == b && n
        % 0x100 == a) by (nonlinear_arith)
        requires
            n == (r as nat) * 0x1000000 + (g as nat) * 65536 + (b as nat) * 256 + a as nat,
            r < 256,
            g < 256,
            b < 256,
            a < 256,
    ;
}


/// Lower-casing the ASCII way leaves whitespace whitespace and everything else not.
proof fn lemma_lower_keeps_whitespace(c: char)
    ensures
        text::spec_is_whitespace(text::ascii_lower_char(c)) == text::spec_is_whitespace(c),
{
    if 'A' <= c <= 'Z' {
        assert(text::ascii_lower_char(c) as u32 == c as u32 + 32);
    }
}

proof fn lemma_trim_start_lower(s: Seq<char>)
    ensures
        text::spec_trim_start(text::spec_ascii_lowercase(s)) == text::spec_ascii_lowercase(
            text::spec_trim_start(s),
        ),
    decreases s.len(),
{
    let l = text::spec_ascii_lowercase(s);
    if s.len() > 0 {
        lemma_lower_keeps_whitespace(s[0]);
        assert(l[0] == text::ascii_lower_char(s[0]));
        assert(l.drop_first() =~= text::spec_ascii_lowercase(s.drop_first()));
        lemma_trim_start_lower(s.drop_first());
    } else {
        assert(l =~= s);
    }
}

proof fn lemma_trim_end_lower(s: Seq<char>)
    ensures
        text::spec_trim_end(text::spec_ascii_lowercase(s)) == text::spec_ascii_lowercase(
            text::spec_trim_end(s),
        ),
    decreases s.len(),
{
    let l = text::spec_ascii_lowercase(s);
    if s.len() > 0 {
        lemma_lower_keeps_whitespace(s.last());
        assert(l.last() == text::ascii_lower_char(s.last()));
        assert(l.drop_last() =~= text::spec_ascii_lowercase(s.drop_last()));
        lemma_trim_end_lower(s.drop_last());
    } else {
        assert(l =~= s);
    }
}

/// Trimming and lower-casing the ASCII way can be done in either order, and lower-casing twice
/// is lower-casing once.
proof fn lemma_trim_lower(s: Seq<char>)
    ensures
        text::spec_trim(text::spec_ascii_lowercase(s)) == text::spec_ascii_lowercase(text::spec_trim(s)),
        text::spec_ascii_lowercase(text::spec_ascii_lowercase(text::spec_trim(s)))
            == text::spec_ascii_lowercase(text::spec_trim(s)),
{
    lemma_trim_start_lower(s);
    lemma_trim_end_lower(text::spec_trim_start(s));
    text::lemma_ascii_lower_of_upper(text::spec_trim(s));
}

/// Trimming keeps text ASCII.
proof fn lemma_trim_ascii(s: Seq<char>)
    requires
        text::spec_is_ascii(s),
    ensures
        text::spec_is_ascii(text::spec_trim(s)),
        text::spec_is_ascii(text::spec_trim_start(s)),
    decreases s.len(),
{
    lemma_trim_start_ascii(s);
    lemma_trim_end_ascii(text::spec_trim_start(s));
}

proof fn lemma_trim_start_ascii(s: Seq<char>)
    requires
        text::spec_is_ascii(s),
    ensures
        text::spec_is_ascii(text::spec_trim_start(s)),
    decreases s.len(),
{
    if s.len() > 0 && text::spec_is_whitespace(s[0]) {
        assert forall|i: int| 0 <= i < s.drop_first().len() implies (#[trigger] s.drop_first()[i] as u32) < 128 by {
            assert(s.drop_first()[i] == s[i + 1]);
        }
        lemma_trim_start_ascii(s.drop_first());
    }
}

proof fn lemma_trim_end_ascii(s: Seq<char>)
    requires
        text::spec_is_ascii(s),
    ensures
        text::spec_is_ascii(text::spec_trim_end(s)),
    decreases s.len(),
{
    if s.len() > 0 && text::spec_is_whitespace(s.last()) {
        assert forall|i: int| 0 <= i < s.drop_last().len() implies (#[trigger] s.drop_last()[i] as u32) < 128 by {
            assert(s.drop_last()[i] == s[i]);
        }
        lemma_trim_end_ascii(s.drop_last());
    }
}

/// Cutting at `sep` after a `sep`: the pieces of `a`, then `b` where `b` holds no `sep`.
proof fn lemma_split_after_sep(a: Seq<char>, b: Seq<char>, sep: char)
    requires
        forall|j: int| 0 <= j < b.len() ==> b[j] != sep,
    ensures
        text::spec_split(a.push(sep) + b, sep) == text::spec_split(a, sep).push(b),
    decreases b.len(),
{
    if b.len() == 0 {
        assert(a.push(sep) + b =~= a.push(sep));
        assert(a.push(sep).drop_last() =~= a);
        assert(Seq::<char>::empty() =~= b);
    } else {
        lemma_split_after_sep(a, b.drop_last(), sep);
        let whole = a.push(sep) + b;
        assert(whole.drop_last() =~= a.push(sep) + b.drop_last());
        assert(whole.last() == b.last());
        assert(b.drop_last().push(b.last()) =~= b);
        text::lemma_split_nonempty(whole.drop_last(), sep);
        assert(text::spec_split(a, sep).push(b.drop_last()).update(
            text::spec_split(a, sep).len() as int,
            b.drop_last().push(b.last()),
        ) =~= text::spec_split(a, sep).push(b));
    }
}

/// A keybind setting that names one key, in any letter case and with any spaces around it,
/// needs no modifier and reads as the key its lower-cased, trimmed name names: `End` is the
/// End key.
pub proof fn law_single_key_setting(raw: Seq<char>)
    requires
        text::spec_is_ascii(raw),
        forall|j: int| 0 <= j < raw.len() ==> raw[j] != '+',
    ensures
        config::spec_match_key(raw) == (config::KeyboardShortcut {
            modifiers: config::mods(false, false, false),
            logical_key: config::key_named(text::spec_ascii_lowercase(text::spec_trim(raw))),
        }),
{
    let l = text::spec_ascii_lowercase(raw);
    text::lemma_ascii_lower_of_upper(raw);
    assert(text::spec_lowercase(raw) == l);
    assert forall|j: int| 0 <= j < l.len() implies l[j] != '+' by {
        assert(raw[j] != '+');
    }
    paths::lemma_split_no_sep(l, '+');
    lemma_trim_lower(raw);
    lemma_trim_ascii(l);
    assert(text::spec_trim(l) == text::spec_ascii_lowercase(text::spec_trim(raw)));
    assert(text::spec_lowercase(text::spec_trim(l)) == text::spec_ascii_lowercase(text::spec_trim(l)));
    assert(text::spec_split(l, '+').drop_last() =~= Seq::<Seq<char>>::empty());
}

/// A keybind setting `modifier + key`, in any letter case and with any spaces around either
/// name, needs the modifier the first name names and reads as the key the second one names:
/// `Alt + N` is N with alt held.
pub proof fn law_modifier_and_key_setting(modifier: Seq<char>, key: Seq<char>)
    requires
        text::spec_is_ascii(modifier),
        text::spec_is_ascii(key),
        forall|j: int| 0 <= j < modifier.len() ==> modifier[j] != '+',
        forall|j: int| 0 <= j < key.len() ==> key[j] != '+',
    ensures
        config::spec_match_key(modifier + "+"@ + key) == (config::KeyboardShortcut {
            modifiers: config::modifier_named(text::spec_ascii_lowercase(text::spec_trim(modifier))),
            logical_key: config::key_named(text::spec_ascii_lowercase(text::spec_trim(key))),
        }),
{
    reveal_strlit("+");
    let raw = modifier + "+"@ + key;
    let lm = text::spec_ascii_lowercase(modifier);
    let lk = text::spec_ascii_lowercase(key);
    let l = text::spec_ascii_lowercase(raw);
    assert forall|i: int| 0 <= i < raw.len() implies (#[trigger] raw[i] as u32) < 128 by {
        if i < modifier.len() {
            assert(raw[i] == modifier[i]);
        } else if i > modifier.len() {
            assert(raw[i] == key[i - modifier.len() - 1]);
        }
    }
    text::lemma_ascii_lower_of_upper(raw);
    assert(text::spec_lowercase(raw) == l);
    assert(l =~= lm.push('+') + lk);
    assert forall|j: int| 0 <= j < lk.len() implies lk[j] != '+' by {
        assert(key[j] != '+');
    }
    assert forall|j: int| 0 <= j < lm.len() implies lm[j] != '+' by {
        assert(modifier[j] != '+');
    }
    lemma_split_after_sep(lm, lk, '+');
    paths::lemma_split_no_sep(lm, '+');
    let pieces = text::spec_split(l, '+');
    assert(pieces =~= seq![lm, lk]);
    assert(pieces.drop_last() =~= seq![lm]);
    assert(pieces.drop_last().drop_last() =~= Seq::<Seq<char>>::empty());
    lemma_trim_lower(key);
    lemma_trim_lower(modifier);
    lemma_trim_ascii(lk);
    assert(text::spec_lowercase(text::spec_trim(lk)) == text::spec_ascii_lowercase(text::spec_trim(lk)));
    let m = config::modifier_named(text::spec_trim(lm));
    assert(config::mods(false, false, false).spec_plus(m) == m);
    assert(pieces.drop_last().last() == lm);
    assert(config::spec_modifiers(pieces.drop_last().drop_last()) == config::mods(false, false, false));
    assert(config::spec_modifiers(pieces.drop_last()) == m);
    assert(pieces.last() == lk);
    assert(text::spec_trim(lk) == text::spec_ascii_lowercase(text::spec_trim(key)));
    assert(text::spec_trim(lm) == text::spec_ascii_lowercase(text::spec_trim(modifier)));
}

/// The modifier names a keybind setting may use: `ctrl`, `shift` and `alt` each name their
/// key; `super`, and anything else, names none.
pub proof fn law_modifier_names(name: Seq<char>)
    ensures
        config::modifier_named("ctrl"@) == config::mods(false, true, false),
        config::modifier_named("shift"@) == config::mods(false, false, true),
        config::modifier_named("alt"@) == config::mods(true, false, false),
        config::modifier_named("super"@) == config::mods(false, false, false),
        name != "ctrl"@ && name != "shift"@ && name != "alt"@ ==> config::modifier_named(name)
            == config::mods(false, false, false),
{
    reveal_strlit("ctrl");
    reveal_strlit("shift");
    reveal_strlit("alt");
    reveal_strlit("super");
    assert("ctrl"@[0] == 'c' && "shift"@[0] == 's' && "alt"@[0] == 'a' && "super"@[1] == 'u');
    assert("shift"@[1] == 'h');
}


/// Moving the cursor goes one step in the direction asked when there is room that way, and
/// otherwise stays: it never leaves the listing, never moves against the direction and never
/// skips an entry.
pub proof fn law_cursor_moves_one_step(cur: int, len: int, direction: NavigateDirection)
    requires
        0 <= cur < len,
    ensures
        0 <= cursor_target(cur, len, direction) < len,
        cur - 1 <= cursor_target(cur, len, direction) <= cur + 1,
        direction == NavigateDirection::Down ==> cursor_target(cur, len, direction) >= cur,
        direction == NavigateDirection::Up ==> cursor_target(cur, len, direction) <= cur,
        direction == NavigateDirection::Down && cur < len - 1 ==> cursor_target(cur, len, direction)
            != cur,
        direction == NavigateDirection::Up && cur > 0 ==> cursor_target(cur, len, direction) != cur,
{
}

/// A control-click flips whether the clicked entry is selected and leaves every other entry
/// as it was.
pub proof fn law_ctrl_click_flips_one(sel: Set<usize>, d: Seq<usize>, cursor: int, index: int)
    requires
        0 <= index < d.len(),
    ensures
        modified_selection(sel, d, cursor, index, true, false).contains(d[index]) != sel.contains(
            d[index],
        ),
        forall|x: usize|
            x != d[index] ==> (modified_selection(sel, d, cursor, index, true, false).contains(x)
                == #[trigger] sel.contains(x)),
{
}

} // verus!
