//! How the displayed entries are ordered: the order itself, stated over entries, and its
//! computation through integer keys sorted by `rayon`.

use crate::app::{Entry, Property};
use crate::order;
use crate::text;
use vstd::prelude::*;

verus! {

/// Strict order of strings by their characters' code points, a proper prefix first
/// (the order `String`'s `cmp` gives, UTF-8 preserving code point order).
pub open spec fn char_lex_lt(a: Seq<char>, b: Seq<char>) -> bool
    decreases a.len(),
{
    if b.len() == 0 {
        false
    } else if a.len() == 0 {
        true
    } else if a[0] != b[0] {
        (a[0] as u32) < (b[0] as u32)
    } else {
        char_lex_lt(a.drop_first(), b.drop_first())
    }
}

/// `Option`'s order on sizes: `None` first, then by value.
pub open spec fn opt_u64_lt(a: Option<u64>, b: Option<u64>) -> bool {
    match a {
        None => b is Some,
        Some(x) => match b {
            None => false,
            Some(y) => x < y,
        },
    }
}

/// `Option`'s order on timestamps: `None` first, then by value.
pub open spec fn opt_i64_lt(a: Option<i64>, b: Option<i64>) -> bool {
    match a {
        None => b is Some,
        Some(x) => match b {
            None => false,
            Some(y) => x < y,
        },
    }
}

/// `a` comes strictly before `b` when ordering by `by`. Names compare lower-cased; types and
/// paths compare character by character.
pub open spec fn key_lt(a: Entry, b: Entry, by: Property) -> bool {
    match by {
        Property::Name => char_lex_lt(text::spec_lowercase(a.name@), text::spec_lowercase(b.name@)),
        Property::Accessed => opt_i64_lt(a.accessed, b.accessed),
        Property::Created => opt_i64_lt(a.created, b.created),
        Property::Type => char_lex_lt(a.file_type@, b.file_type@),
        Property::Size => opt_u64_lt(a.file_size, b.file_size),
        Property::Path => char_lex_lt(a.path@, b.path@),
    }
}

/// `a` and `b` tie when ordering by `by`.
pub open spec fn key_eq(a: Entry, b: Entry, by: Property) -> bool {
    match by {
        Property::Name => text::spec_lowercase(a.name@) == text::spec_lowercase(b.name@),
        Property::Accessed => a.accessed == b.accessed,
        Property::Created => a.created == b.created,
        Property::Type => a.file_type@ == b.file_type@,
        Property::Size => a.file_size == b.file_size,
        Property::Path => a.path@ == b.path@,
    }
}

/// Within one group (hidden or not), `a` (at earlier position `pa`) is shown before `b` (at `pb`):
/// ascending by key with ties by position, or all of that reversed.
pub open spec fn group_before(a: Entry, pa: int, b: Entry, pb: int, by: Property, reversed: bool) -> bool {
    if !reversed {
        key_lt(a, b, by) || (key_eq(a, b, by) && pa < pb)
    } else {
        key_lt(b, a, by) || (key_eq(a, b, by) && pb < pa)
    }
}

/// `a`, which stood at position `pa`, is shown before `b`, which stood at `pb`: hidden entries
/// come first, and within each group the order is `group_before`.
pub open spec fn shown_before(a: Entry, pa: int, b: Entry, pb: int, by: Property, reversed: bool) -> bool {
    ||| a.is_hidden && !b.is_hidden
    ||| a.is_hidden == b.is_hidden && group_before(a, pa, b, pb, by, reversed)
}

/// `res` is `orig` rearranged into display order: `res[i] == orig[m[i]]` for a permutation `m`
/// of the positions, and every displayed entry is shown before every one after it.
pub open spec fn sorted_for_display(
    entries: Seq<Entry>,
    orig: Seq<usize>,
    res: Seq<usize>,
    by: Property,
    reversed: bool,
) -> bool {
    exists|m: Seq<int>|
        #![trigger order::is_index_perm(m, orig.len() as int)]
        order::is_index_perm(m, orig.len() as int) && res.len() == orig.len() && (forall|i: int|
            0 <= i < res.len() ==> #[trigger] res[i] == orig[m[i]]) && (forall|i: int, j: int|
            #![trigger m[i], m[j]]
            0 <= i < j < res.len() ==> shown_before(
                entries[res[i] as int],
                m[i],
                entries[res[j] as int],
                m[j],
                by,
                reversed,
            ))
}

/// The entry displayed at position `p` of `d`.
pub open spec fn entry_at(entries: Seq<Entry>, d: Seq<usize>, p: int) -> Entry {
    entries[d[p] as int]
}

/// Position `p` of `d` is shown before position `q`.
pub open spec fn display_before(entries: Seq<Entry>, d: Seq<usize>, p: int, q: int, by: Property, reversed: bool) -> bool {
    shown_before(entry_at(entries, d, p), p, entry_at(entries, d, q), q, by, reversed)
}

/// Position `p` of `d` comes before position `q` within a group.
pub open spec fn group_order(entries: Seq<Entry>, d: Seq<usize>, p: int, q: int, by: Property, reversed: bool) -> bool {
    group_before(entry_at(entries, d, p), p, entry_at(entries, d, q), q, by, reversed)
}

/// A prefix-free integer encoding of a string that orders as the string does.
pub open spec fn enc_chars(s: Seq<char>) -> Seq<u64> {
    Seq::new(s.len(), |i: int| ((s[i] as u32) as int + 1) as u64).push(0u64)
}

/// An integer encoding of an optional size that orders as `Option` does.
pub open spec fn enc_opt_u64(o: Option<u64>) -> Seq<u64> {
    match o {
        None => seq![0u64],
        Some(x) => seq![1u64, x],
    }
}

/// An integer encoding of an optional timestamp that orders as `Option` does.
pub open spec fn enc_opt_i64(o: Option<i64>) -> Seq<u64> {
    match o {
        None => seq![0u64],
        Some(x) => seq![1u64, (x as int + 0x8000_0000_0000_0000) as u64],
    }
}

/// The integer key of an entry's sort property.
pub open spec fn enc_key(e: Entry, by: Property) -> Seq<u64> {
    match by {
        Property::Name => enc_chars(text::spec_lowercase(e.name@)),
        Property::Accessed => enc_opt_i64(e.accessed),
        Property::Created => enc_opt_i64(e.created),
        Property::Type => enc_chars(e.file_type@),
        Property::Size => enc_opt_u64(e.file_size),
        Property::Path => enc_chars(e.path@),
    }
}

proof fn lemma_lex_single(x: u64, y: u64)
    ensures
        order::lex_lt(seq![x], seq![y]) == (x < y),
{
    reveal_with_fuel(order::lex_lt, 2);
    assert(seq![x].drop_first() =~= Seq::<u64>::empty());
    assert(seq![y].drop_first() =~= Seq::<u64>::empty());
}

proof fn lemma_enc_chars(s: Seq<char>, t: Seq<char>, x: Seq<u64>, y: Seq<u64>)
    ensures
        order::lex_lt(enc_chars(s) + x, enc_chars(t) + y) == (char_lex_lt(s, t) || (s == t && order::lex_lt(x, y))),
    decreases s.len(),
{
    let a = enc_chars(s) + x;
    let b = enc_chars(t) + y;
    assert(a.len() > 0 && b.len() > 0);
    if s.len() == 0 && t.len() == 0 {
        assert(a[0] == 0 && b[0] == 0);
        assert(a.drop_first() =~= x);
        assert(b.drop_first() =~= y);
        assert(s =~= t);
    } else if s.len() == 0 {
        assert(a[0] == 0);
        assert(b[0] == ((t[0] as u32) as int + 1) as u64);
        assert(s != t);
    } else if t.len() == 0 {
        assert(b[0] == 0);
        assert(a[0] == ((s[0] as u32) as int + 1) as u64);
        assert(s != t);
    } else {
        assert(a[0] == ((s[0] as u32) as int + 1) as u64);
        assert(b[0] == ((t[0] as u32) as int + 1) as u64);
        if s[0] == t[0] {
            lemma_enc_chars(s.drop_first(), t.drop_first(), x, y);
            assert(a.drop_first() =~= enc_chars(s.drop_first()) + x);
            assert(b.drop_first() =~= enc_chars(t.drop_first()) + y);
            if s.drop_first() == t.drop_first() {
                assert(s =~= seq![s[0]] + s.drop_first());
                assert(t =~= seq![t[0]] + t.drop_first());
            }
        } else {
            assert(s != t);
            if (s[0] as u32) == (t[0] as u32) {
                vstd::utf8::char_u32_cast(s[0], s[0] as u32);
                vstd::utf8::char_u32_cast(t[0], t[0] as u32);
            }
        }
    }
}

/// The key of an entry followed by its position orders as the entry's property, ties broken
/// by position.
pub proof fn lemma_key_order(a: Entry, b: Entry, by: Property, pa: u64, pb: u64)
    ensures
        order::lex_lt(enc_key(a, by) + seq![pa], enc_key(b, by) + seq![pb]) == (key_lt(a, b, by) || (
        key_eq(a, b, by) && pa < pb)),
{
    lemma_lex_single(pa, pb);
    match by {
        Property::Name => {
            lemma_enc_chars(text::spec_lowercase(a.name@), text::spec_lowercase(b.name@), seq![pa], seq![pb]);
        },
        Property::Type => {
            lemma_enc_chars(a.file_type@, b.file_type@, seq![pa], seq![pb]);
        },
        Property::Path => {
            lemma_enc_chars(a.path@, b.path@, seq![pa], seq![pb]);
        },
        Property::Size => {
            reveal_with_fuel(order::lex_lt, 4);
            let ka = enc_key(a, by) + seq![pa];
            let kb = enc_key(b, by) + seq![pb];
            match a.file_size {
                None => {
                    assert(ka =~= seq![0u64, pa]);
                },
                Some(x) => {
                    assert(ka =~= seq![1u64, x, pa]);
                },
            }
            match b.file_size {
                None => {
                    assert(kb =~= seq![0u64, pb]);
                },
                Some(y) => {
                    assert(kb =~= seq![1u64, y, pb]);
                },
            }
            assert(ka.drop_first().drop_first() =~= ka.subrange(2, ka.len() as int));
            assert(kb.drop_first().drop_first() =~= kb.subrange(2, kb.len() as int));
        },
        Property::Accessed => {
            lemma_opt_i64_order(a.accessed, b.accessed, pa, pb);
        },
        Property::Created => {
            lemma_opt_i64_order(a.created, b.created, pa, pb);
        },
    }
}

proof fn lemma_opt_i64_order(oa: Option<i64>, ob: Option<i64>, pa: u64, pb: u64)
    ensures
        order::lex_lt(enc_opt_i64(oa) + seq![pa], enc_opt_i64(ob) + seq![pb]) == (opt_i64_lt(oa, ob) || (oa
            == ob && pa < pb)),
{
    reveal_with_fuel(order::lex_lt, 4);
    let ka = enc_opt_i64(oa) + seq![pa];
    let kb = enc_opt_i64(ob) + seq![pb];
    match oa {
        None => {
            assert(ka =~= seq![0u64, pa]);
        },
        Some(x) => {
            assert(ka =~= seq![1u64, (x as int + 0x8000_0000_0000_0000) as u64, pa]);
        },
    }
    match ob {
        None => {
            assert(kb =~= seq![0u64, pb]);
        },
        Some(y) => {
            assert(kb =~= seq![1u64, (y as int + 0x8000_0000_0000_0000) as u64, pb]);
        },
    }
    assert(ka.drop_first().drop_first() =~= ka.subrange(2, ka.len() as int));
    assert(kb.drop_first().drop_first() =~= kb.subrange(2, kb.len() as int));
}

/// Appends the encoding of `s` to `k`.
fn push_enc_chars(k: &mut Vec<u64>, s: &str)
    ensures
        final(k)@ == old(k)@ + enc_chars(s@),
{
    let v = text::chars_of(s);
    let ghost start = k@;
    let mut i: usize = 0;
    while i < v.len()
        invariant
            v@ == s@,
            i <= v.len(),
            k@ == start + Seq::new(i as nat, |j: int| ((s@[j] as u32) as int + 1) as u64),
        decreases v.len() - i,
    {
        let c = v[i];
        let code = c as u32;
        k.push(code as u64 + 1);
        proof {
            assert(Seq::new((i + 1) as nat, |j: int| ((s@[j] as u32) as int + 1) as u64) =~= Seq::new(
                i as nat,
                |j: int| ((s@[j] as u32) as int + 1) as u64,
            ).push(((s@[i as int] as u32) as int + 1) as u64));
        }
        i = i + 1;
    }
    k.push(0);
    assert(k@ =~= start + enc_chars(s@));
}

fn push_opt_i64(k: &mut Vec<u64>, o: Option<i64>)
    ensures
        final(k)@ == old(k)@ + enc_opt_i64(o),
{
    match o {
        None => {
            k.push(0);
            assert(k@ =~= old(k)@ + seq![0u64]);
        },
        Some(x) => {
            k.push(1);
            let shifted: u64 = if x >= 0 {
                x as u64 + 0x8000_0000_0000_0000
            } else {
                (x + 0x7fff_ffff_ffff_ffff + 1) as u64
            };
            k.push(shifted);
            assert(k@ =~= old(k)@ + seq![1u64, (x as int + 0x8000_0000_0000_0000) as u64]);
        },
    }
}

/// The key of entry `e` for property `by`, followed by the position `pos`.
pub fn entry_key(e: &Entry, by: &Property, pos: usize) -> (k: Vec<u64>)
    ensures
        k@ == enc_key(*e, *by) + seq![pos as u64],
{
    let mut k: Vec<u64> = Vec::new();
    match by {
        Property::Name => {
            let lower = text::to_lowercase(e.name.as_str());
            push_enc_chars(&mut k, lower.as_str());
        },
        Property::Type => {
            push_enc_chars(&mut k, e.file_type);
        },
        Property::Size => {
            match e.file_size {
                None => {
                    k.push(0);
                },
                Some(x) => {
                    k.push(1);
                    k.push(x);
                },
            }
        },
        Property::Accessed => {
            push_opt_i64(&mut k, e.accessed);
        },
        Property::Created => {
            push_opt_i64(&mut k, e.created);
        },
        Property::Path => {
            push_enc_chars(&mut k, e.path.as_str());
        },
    }
    let ghost before = k@;
    k.push(pos as u64);
    assert(before =~= enc_key(*e, *by));
    k
}


/// Orders the positions in `group` (distinct positions of `d`) by the entries' property `by`,
/// ties by position, all of that reversed when `reversed`.
pub fn order_group(
    entries: &Vec<Entry>,
    d: &Vec<usize>,
    group: &Vec<usize>,
    by: &Property,
    reversed: bool,
) -> (res: Vec<usize>)
    requires
        forall|p: int| 0 <= p < d.len() ==> #[trigger] d@[p] < entries.len(),
        forall|t: int| 0 <= t < group.len() ==> #[trigger] group@[t] < d.len(),
        forall|t: int, u: int| 0 <= t < u < group.len() ==> #[trigger] group@[t] != #[trigger] group@[u],
    ensures
        res.len() == group.len(),
        forall|i: int| 0 <= i < res.len() ==> group@.contains(#[trigger] res@[i]),
        forall|i: int, j: int| 0 <= i < j < res.len() ==> #[trigger] res@[i] != #[trigger] res@[j],
        forall|i: int, j: int|
            0 <= i < j < res.len() ==> group_order(
                entries@,
                d@,
                #[trigger] res@[i] as int,
                #[trigger] res@[j] as int,
                *by,
                reversed,
            ),
{
    let gl = group.len();
    let mut keys: Vec<Vec<u64>> = Vec::new();
    let mut t: usize = 0;
    while t < gl
        invariant
            gl == group.len(),
            forall|p: int| 0 <= p < d.len() ==> #[trigger] d@[p] < entries.len(),
            forall|t: int| 0 <= t < group.len() ==> #[trigger] group@[t] < d.len(),
            t <= gl,
            keys.len() == t,
            forall|k: int|
                0 <= k < t ==> #[trigger] keys@[k]@ == enc_key(
                    entry_at(entries@, d@, group@[k] as int),
                    *by,
                ) + seq![group@[k] as u64],
        decreases gl - t,
    {
        let k = entry_key(&entries[d[group[t]]], by, group[t]);
        keys.push(k);
        t = t + 1;
    }
    let ghost before = keys@;
    order::par_sort_keys(&mut keys);
    let ghost m = choose|m: Seq<int>|
        #[trigger] order::is_index_perm(m, order::key_views(before).len() as int)
            && order::key_views(keys@).len() == order::key_views(before).len() && (forall|i: int|
            0 <= i < order::key_views(keys@).len() ==> order::key_views(keys@)[i]
                == order::key_views(before)[m[i]]);
    assert(order::key_views(before).len() == gl);
    assert forall|i: int| 0 <= i < gl implies #[trigger] keys@[i]@ == before[m[i]]@ by {
        assert(order::key_views(keys@)[i] == order::key_views(before)[m[i]]);
    }
    let mut asc: Vec<usize> = Vec::new();
    let mut i: usize = 0;
    while i < gl
        invariant
            gl == group.len(),
            keys.len() == gl,
            order::is_index_perm(m, gl as int),
            forall|k: int| 0 <= k < gl ==> #[trigger] keys@[k]@ == before[m[k]]@,
            forall|k: int|
                0 <= k < gl ==> #[trigger] before[k]@ == enc_key(
                    entry_at(entries@, d@, group@[k] as int),
                    *by,
                ) + seq![group@[k] as u64],
            i <= gl,
            asc.len() == i,
            forall|k: int| 0 <= k < i ==> #[trigger] asc@[k] == group@[m[k]],
        decreases gl - i,
    {
        let kl = keys[i].len();
        assert(keys@[i as int]@ == before[m[i as int]]@);
        assert(kl >= 1);
        let v = keys[i][kl - 1];
        assert(v == group@[m[i as int]] as u64);
        asc.push(v as usize);
        i = i + 1;
    }
    proof {
        assert forall|a: int, b: int| #![trigger asc@[a], asc@[b]] 0 <= a < b < gl implies ({
            let ea = entry_at(entries@, d@, asc@[a] as int);
            let eb = entry_at(entries@, d@, asc@[b] as int);
            key_lt(ea, eb, *by) || (key_eq(ea, eb, *by) && asc@[a] < asc@[b])
        }) by {
            let ka = order::key_views(keys@)[a];
            let kb = order::key_views(keys@)[b];
            assert(keys@[a]@ == before[m[a]]@);
            assert(keys@[b]@ == before[m[b]]@);
            assert(m[a] != m[b]);
            assert(group@[m[a]] != group@[m[b]]);
            assert(!order::lex_lt(kb, ka));
            if ka == kb {
                assert(ka[ka.len() - 1] == kb[kb.len() - 1]);
            }
            order::lemma_lex_total(ka, kb);
            lemma_key_order(
                entry_at(entries@, d@, asc@[a] as int),
                entry_at(entries@, d@, asc@[b] as int),
                *by,
                asc@[a] as u64,
                asc@[b] as u64,
            );
        }
        assert forall|a: int, b: int| 0 <= a < b < gl implies #[trigger] asc@[a] != #[trigger] asc@[b] by {
            assert(m[a] != m[b]);
        }
        assert forall|a: int| 0 <= a < gl implies group@.contains(#[trigger] asc@[a]) by {
            assert(group@[m[a]] == asc@[a]);
        }
    }
    if !reversed {
        return asc;
    }
    let mut res: Vec<usize> = Vec::new();
    let mut j: usize = gl;
    while j > 0
        invariant
            j <= gl,
            asc.len() == gl,
            res.len() == gl - j,
            forall|k: int| 0 <= k < gl - j ==> #[trigger] res@[k] == asc@[gl - 1 - k],
        decreases j,
    {
        res.push(asc[j - 1]);
        j = j - 1;
    }
    proof {
        assert forall|a: int, b: int| 0 <= a < b < gl implies group_order(
            entries@,
            d@,
            #[trigger] res@[a] as int,
            #[trigger] res@[b] as int,
            *by,
            reversed,
        ) by {
            assert(res@[a] == asc@[gl - 1 - a]);
            assert(res@[b] == asc@[gl - 1 - b]);
        }
        assert forall|a: int, b: int| 0 <= a < b < gl implies #[trigger] res@[a] != #[trigger] res@[b] by {
            assert(res@[a] == asc@[gl - 1 - a]);
            assert(res@[b] == asc@[gl - 1 - b]);
        }
        assert forall|a: int| 0 <= a < gl implies group@.contains(#[trigger] res@[a]) by {
            assert(res@[a] == asc@[gl - 1 - a]);
        }
    }
    res
}


/// The hidden flag of the entry at position `p`, as the leading key digit: hidden first.
pub open spec fn hidden_bit(entries: Seq<Entry>, d: Seq<usize>, p: int) -> u64 {
    if entry_at(entries, d, p).is_hidden {
        0
    } else {
        1
    }
}

/// The display order of the positions of `d`: a permutation of them in which every position is
/// shown before the ones after it.
pub fn display_order(entries: &Vec<Entry>, d: &Vec<usize>, by: &Property, reversed: bool) -> (res: Vec<usize>)
    requires
        forall|p: int| 0 <= p < d.len() ==> #[trigger] d@[p] < entries.len(),
    ensures
        res.len() == d.len(),
        forall|k: int| 0 <= k < res.len() ==> #[trigger] res@[k] < d.len(),
        forall|a: int, b: int| 0 <= a < b < res.len() ==> #[trigger] res@[a] != #[trigger] res@[b],
        forall|a: int, b: int|
            0 <= a < b < res.len() ==> display_before(
                entries@,
                d@,
                #[trigger] res@[a] as int,
                #[trigger] res@[b] as int,
                *by,
                reversed,
            ),
{
    let n = d.len();
    // hidden entries first, keeping their order
    let mut keys: Vec<Vec<u64>> = Vec::new();
    let mut p: usize = 0;
    while p < n
        invariant
            n == d.len(),
            forall|p: int| 0 <= p < d.len() ==> #[trigger] d@[p] < entries.len(),
            p <= n,
            keys.len() == p,
            forall|k: int|
                0 <= k < p ==> #[trigger] keys@[k]@ == seq![hidden_bit(entries@, d@, k), k as u64],
        decreases n - p,
    {
        let bit: u64 = if entries[d[p]].is_hidden {
            0
        } else {
            1
        };
        let mut k: Vec<u64> = Vec::new();
        k.push(bit);
        k.push(p as u64);
        assert(k@ =~= seq![hidden_bit(entries@, d@, p as int), p as u64]);
        keys.push(k);
        p = p + 1;
    }
    let ghost before = keys@;
    order::par_sort_keys(&mut keys);
    let ghost m = choose|m: Seq<int>|
        #[trigger] order::is_index_perm(m, order::key_views(before).len() as int)
            && order::key_views(keys@).len() == order::key_views(before).len() && (forall|i: int|
            0 <= i < order::key_views(keys@).len() ==> order::key_views(keys@)[i]
                == order::key_views(before)[m[i]]);
    assert forall|i: int| 0 <= i < n implies #[trigger] keys@[i]@ == before[m[i]]@ by {
        assert(order::key_views(keys@)[i] == order::key_views(before)[m[i]]);
    }
    let mut ord: Vec<usize> = Vec::new();
    let mut i: usize = 0;
    while i < n
        invariant
            n == d.len(),
            keys.len() == n,
            order::is_index_perm(m, n as int),
            forall|k: int| 0 <= k < n ==> #[trigger] keys@[k]@ == before[m[k]]@,
            forall|k: int|
                0 <= k < n ==> #[trigger] before[k]@ == seq![hidden_bit(entries@, d@, k), k as u64],
            i <= n,
            ord.len() == i,
            forall|k: int| 0 <= k < i ==> #[trigger] ord@[k] == m[k],
        decreases n - i,
    {
        assert(keys@[i as int]@ == before[m[i as int]]@);
        let v = keys[i][1];
        ord.push(v as usize);
        i = i + 1;
    }
    proof {
        assert forall|a: int, b: int| 0 <= a < b < n implies hidden_bit(entries@, d@, #[trigger] ord@[a] as int)
            <= hidden_bit(entries@, d@, #[trigger] ord@[b] as int) by {
            let ka = order::key_views(keys@)[a];
            let kb = order::key_views(keys@)[b];
            assert(keys@[a]@ == before[m[a]]@);
            assert(keys@[b]@ == before[m[b]]@);
            assert(m[a] != m[b]);
            assert(!order::lex_lt(kb, ka));
            if ka == kb {
                assert(ka[1] == kb[1]);
            }
            order::lemma_lex_total(ka, kb);
            reveal_with_fuel(order::lex_lt, 3);
            assert(ka.drop_first().drop_first() =~= Seq::<u64>::empty());
            assert(kb.drop_first().drop_first() =~= Seq::<u64>::empty());
        }
    }
    // the first shown entry that is not hidden splits the two groups
    let mut s: usize = 0;
    while s < n && entries[d[ord[s]]].is_hidden
        invariant
            n == d.len(),
            ord.len() == n,
            forall|k: int| 0 <= k < n ==> #[trigger] ord@[k] < n,
            forall|p: int| 0 <= p < d.len() ==> #[trigger] d@[p] < entries.len(),
            s <= n,
            forall|k: int| 0 <= k < s ==> entry_at(entries@, d@, #[trigger] ord@[k] as int).is_hidden,
        decreases n - s,
    {
        s = s + 1;
    }
    let ghost all_hidden = s == n;
    let split: usize = if s < n {
        s
    } else {
        0
    };
    proof {
        assert forall|k: int| split <= k < n implies entry_at(entries@, d@, #[trigger] ord@[k] as int).is_hidden
            == all_hidden by {
            if !all_hidden && k > s {
                assert(hidden_bit(entries@, d@, ord@[s as int] as int) <= hidden_bit(entries@, d@, ord@[k] as int));
            }
        }
    }
    let mut first: Vec<usize> = Vec::new();
    let mut second: Vec<usize> = Vec::new();
    let mut k: usize = 0;
    while k < n
        invariant
            n == d.len(),
            ord.len() == n,
            split <= n,
            k <= n,
            first.len() == if k < split { k } else { split },
            second.len() == if k < split { 0 } else { (k - split) as nat },
            forall|t: int| 0 <= t < first.len() ==> #[trigger] first@[t] == ord@[t],
            forall|t: int| 0 <= t < second.len() ==> #[trigger] second@[t] == ord@[split + t],
        decreases n - k,
    {
        if k < split {
            first.push(ord[k]);
        } else {
            second.push(ord[k]);
        }
        k = k + 1;
    }
    proof {
        assert forall|t: int, u: int| 0 <= t < u < first.len() implies #[trigger] first@[t] != #[trigger] first@[u] by {
            assert(first@[t] == m[t] && first@[u] == m[u]);
        }
        assert forall|t: int, u: int| 0 <= t < u < second.len() implies #[trigger] second@[t] != #[trigger] second@[u] by {
            assert(second@[t] == m[split + t] && second@[u] == m[split + u]);
        }
        assert forall|t: int| 0 <= t < first.len() implies #[trigger] first@[t] < d.len() by {
            assert(first@[t] == ord@[t]);
        }
        assert forall|t: int| 0 <= t < second.len() implies #[trigger] second@[t] < d.len() by {
            assert(second@[t] == ord@[split + t]);
        }
    }
    let g1 = order_group(entries, d, &first, by, reversed);
    let g2 = order_group(entries, d, &second, by, reversed);
    let mut res: Vec<usize> = Vec::new();
    let mut a: usize = 0;
    while a < g1.len()
        invariant
            a <= g1.len(),
            res.len() == a,
            forall|t: int| 0 <= t < a ==> #[trigger] res@[t] == g1@[t],
        decreases g1.len() - a,
    {
        res.push(g1[a]);
        a = a + 1;
    }
    let mut b: usize = 0;
    while b < g2.len()
        invariant
            b <= g2.len(),
            res.len() == g1.len() + b,
            forall|t: int| 0 <= t < g1.len() ==> #[trigger] res@[t] == g1@[t],
            forall|t: int| 0 <= t < b ==> res@[g1.len() + t] == #[trigger] g2@[t],
        decreases g2.len() - b,
    {
        res.push(g2[b]);
        b = b + 1;
    }
    proof {
        let l1 = g1.len() as int;
        assert forall|x: int| 0 <= x < l1 implies entry_at(entries@, d@, #[trigger] res@[x] as int).is_hidden
            && exists|t: int| 0 <= t < split && ord@[t] == res@[x] by {
            assert(res@[x] == g1@[x]);
            assert(first@.contains(g1@[x]));
            let t = choose|t: int| 0 <= t < first.len() && first@[t] == g1@[x];
            assert(first@[t] == ord@[t]);
        }
        assert forall|y: int| l1 <= y < res.len() implies entry_at(entries@, d@, #[trigger] res@[y] as int).is_hidden
            == all_hidden && exists|t: int| split <= t < n && ord@[t] == res@[y] by {
            assert(res@[y] == g2@[y - l1]);
            assert(second@.contains(g2@[y - l1]));
            let t = choose|t: int| 0 <= t < second.len() && second@[t] == g2@[y - l1];
            assert(second@[t] == ord@[split + t]);
        }
        assert forall|x: int| 0 <= x < res.len() implies #[trigger] res@[x] < d.len() by {
            if x < l1 {
                let t = choose|t: int| 0 <= t < split && ord@[t] == res@[x];
            } else {
                let t = choose|t: int| split <= t < n && ord@[t] == res@[x];
            }
        }
        assert forall|x: int, y: int| 0 <= x < y < res.len() implies #[trigger] res@[x] != #[trigger] res@[y]
            && display_before(entries@, d@, res@[x] as int, res@[y] as int, *by, reversed) by {
            if y < l1 {
                assert(res@[x] == g1@[x] && res@[y] == g1@[y]);
            } else if x >= l1 {
                assert(res@[x] == g2@[x - l1] && res@[y] == g2@[y - l1]);
            } else {
                let t = choose|t: int| 0 <= t < split && ord@[t] == res@[x];
                let u = choose|u: int| split <= u < n && ord@[u] == res@[y];
                assert(m[t] != m[u]);
                assert(!all_hidden);
            }
        }
    }
    res
}

} // verus!


