//! Paths held as strings, read as `std::path` reads them on Unix: components separated by `/`.

use crate::text;
use vstd::prelude::*;

verus! {

/// The last component of `parts` that is neither empty nor `.`.
pub open spec fn last_normal(parts: Seq<Seq<char>>) -> Option<Seq<char>>
    decreases parts.len(),
{
    if parts.len() == 0 {
        None
    } else if parts.last() == Seq::<char>::empty() || parts.last() == "."@ {
        last_normal(parts.drop_last())
    } else {
        Some(parts.last())
    }
}

/// The final component of `path` (what `Path::file_name` gives): none where the path has no
/// component, is a root, or ends in `..`.
pub open spec fn spec_file_name(path: Seq<char>) -> Option<Seq<char>> {
    match last_normal(text::spec_split(path, '/')) {
        Some(p) => if p == ".."@ {
            None
        } else {
            Some(p)
        },
        None => None,
    }
}

/// The final component of `path`.
pub fn file_name(path: &str) -> (res: Option<String>)
    ensures
        match res {
            Some(n) => spec_file_name(path@) == Some(n@),
            None => spec_file_name(path@) is None,
        },
{
    let chars = text::chars_of(path);
    let parts = text::split_chars(&chars, '/');
    let ghost sp = text::spec_split(path@, '/');
    assert(parts@.map_values(|p: Vec<char>| p@) == sp);
    let mut j: usize = parts.len();
    assert(sp.subrange(0, j as int) =~= sp);
    while j > 0
        invariant
            j <= parts.len(),
            parts@.map_values(|p: Vec<char>| p@) == sp,
            sp == text::spec_split(path@, '/'),
            last_normal(sp) == last_normal(sp.subrange(0, j as int)),
        decreases j,
    {
        let part = &parts[j - 1];
        assert(part@ == sp[j - 1]);
        assert(sp.subrange(0, j as int).drop_last() =~= sp.subrange(0, j - 1));
        let dot = text::chars_of(".");
        assert(sp.subrange(0, j as int).last() == sp[j - 1]);
        if part.len() != 0 && !text::chars_eq(part, &dot) {
            assert(part@ != Seq::<char>::empty());
            assert(last_normal(sp.subrange(0, j as int)) == Some(part@));
            let dots = text::chars_of("..");
            assert(last_normal(sp) == Some(part@));
            assert(text::spec_split(path@, '/') == sp);
            if text::chars_eq(part, &dots) {
                assert(spec_file_name(path@) is None);
                return None;
            }
            assert(spec_file_name(path@) == Some(part@));
            return Some(text::string_from_chars(part));
        }
        if part.len() == 0 {
            assert(part@ =~= Seq::<char>::empty());
        }
        j = j - 1;
    }
    None
}

/// The extension of `path` (what `Path::extension` gives): the part of the file name after its
/// last `.`, where that dot is not the name's first character.
pub open spec fn spec_extension(path: Seq<char>) -> Option<Seq<char>> {
    match spec_file_name(path) {
        None => None,
        Some(n) => {
            let i = text::spec_last_index_of(n, '.');
            if i <= 0 {
                None
            } else {
                Some(n.subrange(i + 1, n.len() as int))
            }
        },
    }
}

/// The extension of `path`.
pub fn extension(path: &str) -> (res: Option<String>)
    ensures
        match res {
            Some(e) => spec_extension(path@) == Some(e@),
            None => spec_extension(path@) is None,
        },
{
    match file_name(path) {
        None => None,
        Some(n) => {
            let v = text::chars_of(n.as_str());
            match text::last_index_of(&v, '.') {
                None => None,
                Some(i) => {
                    proof {
                        text::lemma_last_index_of(v@, '.');
                    }
                    if i == 0 {
                        None
                    } else {
                        Some(text::string_from_chars(&text::suffix_chars(&v, i + 1)))
                    }
                },
            }
        },
    }
}

/// `base` with `p` appended (what `PathBuf::push` makes of them): an absolute `p` replaces
/// `base`, and a separator is put between them where `base` does not end in one.
pub open spec fn spec_path_push(base: Seq<char>, p: Seq<char>) -> Seq<char> {
    if p.len() > 0 && p[0] == '/' {
        p
    } else if base.len() == 0 || base.last() == '/' {
        base + p
    } else {
        base + seq!['/'] + p
    }
}

/// Appends `p` to the path `base`.
pub fn path_push(base: &str, p: &str) -> (res: String)
    ensures
        res@ == spec_path_push(base@, p@),
{
    let pv = text::chars_of(p);
    if pv.len() > 0 && pv[0] == '/' {
        return text::owned(p);
    }
    let bv = text::chars_of(base);
    if bv.len() == 0 || bv[bv.len() - 1] == '/' {
        text::concat(base, p)
    } else {
        let with_sep = text::concat(base, "/");
        proof {
            reveal_strlit("/");
        }
        assert("/"@ =~= seq!['/']);
        text::concat(with_sep.as_str(), p)
    }
}


/// The components of `parts` that are neither empty nor `.`, in order.
pub open spec fn normal_parts(parts: Seq<Seq<char>>) -> Seq<Seq<char>>
    decreases parts.len(),
{
    if parts.len() == 0 {
        Seq::empty()
    } else if parts.last() == Seq::<char>::empty() || parts.last() == "."@ {
        normal_parts(parts.drop_last())
    } else {
        normal_parts(parts.drop_last()).push(parts.last())
    }
}

/// What `Path::components` yields for `p`, summed up: whether it starts at the root, whether it
/// starts with a `.` component, and the remaining components (`.` and empty ones dropped).
pub open spec fn spec_components(p: Seq<char>) -> (bool, bool, Seq<Seq<char>>) {
    let root = p.len() > 0 && p[0] == '/';
    let cur = !root && p.len() > 0 && p[0] == '.' && (p.len() == 1 || p[1] == '/');
    (root, cur, normal_parts(text::spec_split(p, '/')))
}

/// `a` and `b` name the same path component by component (what `==` on `Path` compares).
pub open spec fn spec_same_path(a: Seq<char>, b: Seq<char>) -> bool {
    spec_components(a) == spec_components(b)
}

pub(crate) fn normal_parts_of(path: &str) -> (res: Vec<Vec<char>>)
    ensures
        res@.map_values(|p: Vec<char>| p@) == normal_parts(text::spec_split(path@, '/')),
{
    let chars = text::chars_of(path);
    let parts = text::split_chars(&chars, '/');
    let ghost sp = text::spec_split(path@, '/');
    let dot = text::chars_of(".");
    let mut out: Vec<Vec<char>> = Vec::new();
    let mut i: usize = 0;
    while i < parts.len()
        invariant
            parts@.map_values(|p: Vec<char>| p@) == sp,
            dot@ == "."@,
            i <= parts.len(),
            out@.map_values(|p: Vec<char>| p@) == normal_parts(sp.subrange(0, i as int)),
        decreases parts.len() - i,
    {
        let ghost prev = out@;
        assert(sp.subrange(0, i + 1).drop_last() =~= sp.subrange(0, i as int));
        assert(parts@[i as int]@ == sp[i as int]);
        if parts[i].len() != 0 && !text::chars_eq(&parts[i], &dot) {
            out.push(text::prefix_chars(&parts[i], parts[i].len()));
            assert(parts@[i as int]@.subrange(0, parts@[i as int]@.len() as int) =~= parts@[i as int]@);
            assert(out@.map_values(|p: Vec<char>| p@) =~= prev.map_values(|p: Vec<char>| p@).push(sp[i as int]));
        } else {
            if parts[i].len() == 0 {
                assert(parts@[i as int]@ =~= Seq::<char>::empty());
            }
        }
        i = i + 1;
    }
    assert(sp.subrange(0, parts.len() as int) =~= sp);
    out
}

pub(crate) fn parts_eq(x: &Vec<Vec<char>>, y: &Vec<Vec<char>>) -> (res: bool)
    ensures
        res == (x@.map_values(|p: Vec<char>| p@) == y@.map_values(|p: Vec<char>| p@)),
{
    if x.len() != y.len() {
        assert(x@.map_values(|p: Vec<char>| p@).len() != y@.map_values(|p: Vec<char>| p@).len());
        return false;
    }
    let mut i: usize = 0;
    while i < x.len()
        invariant
            x.len() == y.len(),
            i <= x.len(),
            forall|k: int| 0 <= k < i ==> x@[k]@ == y@[k]@,
        decreases x.len() - i,
    {
        if !text::chars_eq(&x[i], &y[i]) {
            assert(x@.map_values(|p: Vec<char>| p@)[i as int] != y@.map_values(|p: Vec<char>| p@)[i as int]);
            return false;
        }
        i = i + 1;
    }
    assert(x@.map_values(|p: Vec<char>| p@) =~= y@.map_values(|p: Vec<char>| p@));
    true
}

pub(crate) fn root_and_cur(p: &str) -> (res: (bool, bool))
    ensures
        res.0 == spec_components(p@).0,
        res.1 == spec_components(p@).1,
{
    let v = text::chars_of(p);
    let root = v.len() > 0 && v[0] == '/';
    let cur = !root && v.len() > 0 && v[0] == '.' && (v.len() == 1 || v[1] == '/');
    (root, cur)
}

/// Whether `a` and `b` are the same path, component by component.
pub fn same_path(a: &str, b: &str) -> (res: bool)
    ensures
        res == spec_same_path(a@, b@),
{
    let (ra, ca) = root_and_cur(a);
    let (rb, cb) = root_and_cur(b);
    let pa = normal_parts_of(a);
    let pb = normal_parts_of(b);
    ra == rb && ca == cb && parts_eq(&pa, &pb)
}

/// The components of the folder that holds `p` (what `PathBuf::pop` leaves): the last component
/// dropped; a root or an empty path stays as it is.
pub open spec fn spec_parent_components(p: Seq<char>) -> (bool, bool, Seq<Seq<char>>) {
    let c = spec_components(p);
    if c.2.len() > 0 {
        (c.0, c.1, c.2.drop_last())
    } else {
        (c.0, false, Seq::empty())
    }
}

/// `parts` joined with `/` between them.
pub open spec fn join_parts(parts: Seq<Seq<char>>) -> Seq<char>
    decreases parts.len(),
{
    if parts.len() == 0 {
        Seq::empty()
    } else if parts.len() == 1 {
        parts[0]
    } else {
        join_parts(parts.drop_last()) + seq!['/'] + parts.last()
    }
}

/// A component as `Path::components` yields a normal one: not empty, not `.`, and without `/`.
pub open spec fn is_normal_part(p: Seq<char>) -> bool {
    &&& p.len() > 0
    &&& p != "."@
    &&& forall|j: int| 0 <= j < p.len() ==> p[j] != '/'
}

pub proof fn lemma_split_no_sep(s: Seq<char>, sep: char)
    requires
        forall|j: int| 0 <= j < s.len() ==> s[j] != sep,
    ensures
        text::spec_split(s, sep) == seq![s],
    decreases s.len(),
{
    if s.len() > 0 {
        lemma_split_no_sep(s.drop_last(), sep);
        assert(s.drop_last().push(s.last()) =~= s);
    } else {
        assert(s =~= Seq::<char>::empty());
    }
}

proof fn lemma_split_concat(a: Seq<char>, b: Seq<char>, sep: char)
    ensures
        text::spec_split(a + seq![sep] + b, sep) == text::spec_split(a, sep) + text::spec_split(b, sep),
    decreases b.len(),
{
    let s = a + seq![sep] + b;
    if b.len() == 0 {
        assert(s.drop_last() =~= a);
        assert(text::spec_split(b, sep) =~= seq![Seq::<char>::empty()]);
        assert(text::spec_split(a, sep).push(Seq::<char>::empty()) =~= text::spec_split(a, sep) + seq![Seq::<char>::empty()]);
    } else {
        assert(s.drop_last() =~= a + seq![sep] + b.drop_last());
        lemma_split_concat(a, b.drop_last(), sep);
        text::lemma_split_nonempty(b.drop_last(), sep);
        text::lemma_split_nonempty(a, sep);
        let x = text::spec_split(a, sep);
        let y = text::spec_split(b.drop_last(), sep);
        if b.last() == sep {
            assert((x + y).push(Seq::<char>::empty()) =~= x + y.push(Seq::<char>::empty()));
        } else {
            assert((x + y).update((x + y).len() - 1, (x + y).last().push(b.last())) =~= x + y.update(
                y.len() - 1,
                y.last().push(b.last()),
            ));
        }
    }
}

proof fn lemma_split_join(parts: Seq<Seq<char>>)
    requires
        parts.len() >= 1,
        forall|i: int| 0 <= i < parts.len() ==> is_normal_part(#[trigger] parts[i]),
    ensures
        text::spec_split(join_parts(parts), '/') == parts,
    decreases parts.len(),
{
    if parts.len() == 1 {
        lemma_split_no_sep(parts[0], '/');
        assert(seq![parts[0]] =~= parts);
    } else {
        lemma_split_join(parts.drop_last());
        lemma_split_concat(join_parts(parts.drop_last()), parts.last(), '/');
        lemma_split_no_sep(parts.last(), '/');
        assert(parts.drop_last() + seq![parts.last()] =~= parts);
    }
}

proof fn lemma_normal_parts_concat(x: Seq<Seq<char>>, y: Seq<Seq<char>>)
    ensures
        normal_parts(x + y) == normal_parts(x) + normal_parts(y),
    decreases y.len(),
{
    if y.len() == 0 {
        assert(x + y =~= x);
        assert(normal_parts(x) + normal_parts(y) =~= normal_parts(x));
    } else {
        assert((x + y).drop_last() =~= x + y.drop_last());
        lemma_normal_parts_concat(x, y.drop_last());
        assert((normal_parts(x) + normal_parts(y.drop_last())).push(y.last()) =~= normal_parts(x)
            + normal_parts(y.drop_last()).push(y.last()));
    }
}

proof fn lemma_normal_parts_of_normal(q: Seq<Seq<char>>)
    requires
        forall|i: int| 0 <= i < q.len() ==> is_normal_part(#[trigger] q[i]),
    ensures
        normal_parts(q) == q,
    decreases q.len(),
{
    if q.len() > 0 {
        lemma_normal_parts_of_normal(q.drop_last());
        assert(is_normal_part(q[q.len() - 1]));
        assert(q.drop_last().push(q.last()) =~= q);
    } else {
        assert(q =~= Seq::<Seq<char>>::empty());
    }
}

proof fn lemma_split_parts_no_sep(s: Seq<char>, sep: char)
    ensures
        forall|i: int, j: int|
            0 <= i < text::spec_split(s, sep).len() && 0 <= j < text::spec_split(s, sep)[i].len()
                ==> #[trigger] text::spec_split(s, sep)[i][j] != sep,
    decreases s.len(),
{
    if s.len() > 0 {
        lemma_split_parts_no_sep(s.drop_last(), sep);
        text::lemma_split_nonempty(s.drop_last(), sep);
    }
}

proof fn lemma_normal_parts_are_normal(x: Seq<Seq<char>>)
    requires
        forall|i: int, j: int| 0 <= i < x.len() && 0 <= j < x[i].len() ==> #[trigger] x[i][j] != '/',
    ensures
        forall|i: int| 0 <= i < normal_parts(x).len() ==> is_normal_part(#[trigger] normal_parts(x)[i]),
    decreases x.len(),
{
    if x.len() > 0 {
        let d = x.drop_last();
        assert forall|i: int, j: int| 0 <= i < d.len() && 0 <= j < d[i].len() implies #[trigger] d[i][j]
            != '/' by {
            assert(d[i] == x[i]);
            assert(x[i][j] != '/');
        }
        lemma_normal_parts_are_normal(d);
        let l = x.last();
        assert forall|j: int| 0 <= j < l.len() implies l[j] != '/' by {
            assert(x[x.len() - 1][j] != '/');
        }
        let r = normal_parts(d);
        if !(l == Seq::<char>::empty() || l == "."@) {
            assert(l.len() > 0) by {
                if l.len() == 0 {
                    assert(l =~= Seq::<char>::empty());
                }
            }
            assert(normal_parts(x) == r.push(l));
            assert forall|i: int| 0 <= i < normal_parts(x).len() implies is_normal_part(
                #[trigger] normal_parts(x)[i],
            ) by {
                if i < r.len() {
                    assert(normal_parts(x)[i] == r[i]);
                }
            }
        }
    }
}

/// The components `Path::components` yields for `p` are normal ones.
pub proof fn lemma_components_normal(p: Seq<char>)
    ensures
        forall|i: int|
            0 <= i < spec_components(p).2.len() ==> is_normal_part(#[trigger] spec_components(p).2[i]),
{
    lemma_split_parts_no_sep(p, '/');
    lemma_normal_parts_are_normal(text::spec_split(p, '/'));
}

proof fn lemma_join_starts(q: Seq<Seq<char>>)
    requires
        q.len() >= 1,
    ensures
        join_parts(q).len() >= q[0].len(),
        join_parts(q).subrange(0, q[0].len() as int) == q[0],
    decreases q.len(),
{
    if q.len() > 1 {
        lemma_join_starts(q.drop_last());
        let j = join_parts(q.drop_last());
        assert((j + seq!['/'] + q.last()).subrange(0, q[0].len() as int) =~= j.subrange(0, q[0].len() as int));
    }
}

/// The components of a path written from its parts: a root (`/`) or a `.` before them where
/// asked for, then the normal parts joined with `/`.
proof fn lemma_written_components(root: bool, cur: bool, q: Seq<Seq<char>>)
    requires
        !(root && cur),
        forall|i: int| 0 <= i < q.len() ==> is_normal_part(#[trigger] q[i]),
    ensures
        spec_components(
            (if root {
                "/"@
            } else if cur {
                "./"@
            } else {
                Seq::<char>::empty()
            }) + join_parts(q),
        ) == (root, cur, q),
{
    reveal_strlit("/");
    reveal_strlit("./");
    reveal_strlit(".");
    let pre = if root {
        "/"@
    } else if cur {
        "./"@
    } else {
        Seq::<char>::empty()
    };
    let w = pre + join_parts(q);
    lemma_normal_parts_of_normal(q);
    let e = Seq::<char>::empty();
    assert(text::spec_split(e, '/') =~= seq![e]);
    assert(seq![e].drop_last() =~= Seq::<Seq<char>>::empty());
    assert(seq![e].last() == e);
    assert(normal_parts(Seq::<Seq<char>>::empty()) =~= Seq::<Seq<char>>::empty());
    assert(normal_parts(seq![e]) == normal_parts(seq![e].drop_last()));
    assert(normal_parts(seq![e]) =~= Seq::<Seq<char>>::empty());
    if q.len() > 0 {
        lemma_split_join(q);
        lemma_join_starts(q);
    } else {
        assert(join_parts(q) =~= e);
    }
    if root {
        assert(w =~= e + seq!['/'] + join_parts(q));
        lemma_split_concat(e, join_parts(q), '/');
        lemma_normal_parts_concat(text::spec_split(e, '/'), text::spec_split(join_parts(q), '/'));
        assert(normal_parts(text::spec_split(e, '/')) =~= Seq::<Seq<char>>::empty());
        if q.len() == 0 {
            assert(text::spec_split(join_parts(q), '/') =~= seq![e]);
            assert(normal_parts(seq![e]) =~= Seq::<Seq<char>>::empty());
        }
    } else if cur {
        let dot = seq!['.'];
        assert(w =~= dot + seq!['/'] + join_parts(q));
        lemma_split_concat(dot, join_parts(q), '/');
        lemma_split_no_sep(dot, '/');
        assert(seq![dot].drop_last() =~= Seq::<Seq<char>>::empty());
        assert(seq![dot].last() == dot);
        lemma_normal_parts_concat(text::spec_split(dot, '/'), text::spec_split(join_parts(q), '/'));
        assert(dot =~= "."@);
        assert(normal_parts(seq![dot]) =~= Seq::<Seq<char>>::empty());
        if q.len() == 0 {
            assert(text::spec_split(join_parts(q), '/') =~= seq![e]);
            assert(normal_parts(seq![e]) =~= Seq::<Seq<char>>::empty());
        }
    } else {
        assert(w =~= join_parts(q));
        if q.len() == 0 {
            assert(text::spec_split(w, '/') =~= seq![e]);
            assert(normal_parts(seq![e]) =~= Seq::<Seq<char>>::empty());
        } else {
            assert(is_normal_part(q[0]));
            assert(w[0] == q[0][0]);
            if q[0].len() >= 2 {
                assert(w[1] == q[0][1]);
            } else {
                assert(q[0] =~= seq![q[0][0]]);
                if q[0][0] == '.' {
                    assert(q[0] =~= "."@);
                }
            }
        }
    }
}

/// The path of the folder that holds `p`, written `/` or `./` (where `p` starts so) and the
/// components of that folder joined with `/`; its components are those `PathBuf::pop` leaves.
pub fn parent_path(p: &str) -> (res: String)
    ensures
        spec_components(res@) == spec_parent_components(p@),
{
    let (root, cur) = root_and_cur(p);
    let parts = normal_parts_of(p);
    let ghost views = parts@.map_values(|x: Vec<char>| x@);
    proof {
        lemma_components_normal(p@);
    }
    let keep: usize = if parts.len() > 0 {
        parts.len() - 1
    } else {
        0
    };
    let ghost q = views.subrange(0, keep as int);
    let mut joined: Vec<char> = Vec::new();
    let mut i: usize = 0;
    assert(q.subrange(0, 0) =~= Seq::<Seq<char>>::empty());
    while i < keep
        invariant
            keep <= parts.len(),
            i <= keep,
            views == parts@.map_values(|x: Vec<char>| x@),
            q == views.subrange(0, keep as int),
            joined@ == join_parts(q.subrange(0, i as int)),
        decreases keep - i,
    {
        assert(q.subrange(0, i + 1).drop_last() =~= q.subrange(0, i as int));
        if i > 0 {
            joined.push('/');
        }
        let part = &parts[i];
        let mut j: usize = 0;
        let ghost start = joined@;
        while j < part.len()
            invariant
                j <= part.len(),
                joined@ == start + part@.subrange(0, j as int),
            decreases part.len() - j,
        {
            joined.push(part[j]);
            assert(part@.subrange(0, j + 1) =~= part@.subrange(0, j as int).push(part@[j as int]));
            assert(joined@ =~= start + part@.subrange(0, j + 1));
            j = j + 1;
        }
        assert(part@.subrange(0, part.len() as int) =~= part@);
        assert(views[i as int] == part@);
        assert(q.subrange(0, i + 1).last() == part@);
        if i == 0 {
            assert(q.subrange(0, 1) =~= seq![part@]);
            assert(joined@ =~= part@);
        } else {
            assert(joined@ =~= join_parts(q.subrange(0, i as int)) + seq!['/'] + part@);
        }
        i = i + 1;
    }
    assert(q.subrange(0, keep as int) =~= q);
    let prefix = if root {
        text::owned("/")
    } else if cur && parts.len() > 0 {
        text::owned("./")
    } else {
        String::new()
    };
    let tail = text::string_from_chars(&joined);
    let res = text::concat(prefix.as_str(), tail.as_str());
    proof {
        assert(forall|k: int| 0 <= k < q.len() ==> #[trigger] q[k] == views[k]);
        lemma_written_components(root, cur && parts.len() > 0, q);
        if parts.len() > 0 {
            assert(q =~= views.drop_last());
        } else {
            assert(q =~= Seq::<Seq<char>>::empty());
        }
    }
    res
}

/// `last_normal` is the last of the normal parts.
pub proof fn lemma_last_normal(parts: Seq<Seq<char>>)
    ensures
        last_normal(parts) == if normal_parts(parts).len() > 0 {
            Some(normal_parts(parts).last())
        } else {
            None::<Seq<char>>
        },
    decreases parts.len(),
{
    if parts.len() > 0 {
        lemma_last_normal(parts.drop_last());
    }
}

/// Pushing a normal component onto `base` adds it to the components of `base`, and keeps
/// whether the path starts at the root or with `.`.
pub proof fn lemma_push_components(base: Seq<char>, p: Seq<char>)
    requires
        is_normal_part(p),
    ensures
        spec_components(spec_path_push(base, p)) == (
            spec_components(base).0,
            spec_components(base).1,
            spec_components(base).2.push(p),
        ),
{
    reveal_strlit(".");
    let r = spec_path_push(base, p);
    let e = Seq::<char>::empty();
    lemma_split_no_sep(p, '/');
    assert(p.len() > 0);
    assert(p[0] != '/');
    assert(!(p.len() == 1 && p[0] == '.')) by {
        if p.len() == 1 && p[0] == '.' {
            assert(p =~= "."@);
        }
    }
    assert(normal_parts(seq![p]) =~= seq![p]) by {
        assert(seq![p].drop_last() =~= Seq::<Seq<char>>::empty());
        assert(seq![p].last() == p);
        assert(normal_parts(Seq::<Seq<char>>::empty()) =~= Seq::<Seq<char>>::empty());
        assert(p != Seq::<char>::empty());
        assert(normal_parts(seq![p]) == normal_parts(seq![p].drop_last()).push(p));
        assert(Seq::<Seq<char>>::empty().push(p) =~= seq![p]);
    }
    if base.len() == 0 {
        assert(r =~= p);
        assert(text::spec_split(base, '/') =~= seq![e]);
        assert(normal_parts(seq![e]) == normal_parts(seq![e].drop_last()));
        assert(seq![e].drop_last() =~= Seq::<Seq<char>>::empty());
        assert(normal_parts(seq![e]) =~= Seq::<Seq<char>>::empty());
        assert(Seq::<Seq<char>>::empty().push(p) =~= seq![p]);
        if p.len() >= 2 {
            assert(r[1] == p[1]);
        }
    } else if base.last() == '/' {
        let b = base.drop_last();
        assert(base =~= b + seq!['/'] + e);
        assert(r =~= b + seq!['/'] + p);
        lemma_split_concat(b, e, '/');
        lemma_split_concat(b, p, '/');
        assert(text::spec_split(e, '/') =~= seq![e]);
        lemma_normal_parts_concat(text::spec_split(b, '/'), seq![e]);
        lemma_normal_parts_concat(text::spec_split(b, '/'), seq![p]);
        assert(seq![e].drop_last() =~= Seq::<Seq<char>>::empty());
        assert(normal_parts(seq![e]) == normal_parts(seq![e].drop_last()));
        assert(normal_parts(text::spec_split(b, '/')) + Seq::<Seq<char>>::empty() =~= normal_parts(
            text::spec_split(b, '/'),
        ));
        assert(normal_parts(text::spec_split(b, '/')) + seq![p] =~= normal_parts(
            text::spec_split(b, '/'),
        ).push(p));
        assert(r[0] == base[0]);
        if base.len() >= 2 {
            assert(r[1] == base[1]);
        }
    } else {
        assert(r =~= base + seq!['/'] + p);
        lemma_split_concat(base, p, '/');
        lemma_normal_parts_concat(text::spec_split(base, '/'), seq![p]);
        assert(normal_parts(text::spec_split(base, '/')) + seq![p] =~= normal_parts(
            text::spec_split(base, '/'),
        ).push(p));
        assert(r[0] == base[0]);
        if base.len() >= 2 {
            assert(r[1] == base[1]);
        } else {
            assert(r[1] == '/');
        }
    }
}

/// Pushing `.` onto `base` keeps its components, and whether it starts at the root.
pub proof fn lemma_push_dot(base: Seq<char>)
    ensures
        spec_components(spec_path_push(base, "."@)).0 == spec_components(base).0,
        spec_components(spec_path_push(base, "."@)).2 == spec_components(base).2,
{
    reveal_strlit(".");
    let dot = "."@;
    let r = spec_path_push(base, dot);
    let e = Seq::<char>::empty();
    lemma_split_no_sep(dot, '/');
    assert(normal_parts(seq![dot]) =~= Seq::<Seq<char>>::empty()) by {
        assert(seq![dot].drop_last() =~= Seq::<Seq<char>>::empty());
        assert(seq![dot].last() == dot);
        assert(normal_parts(Seq::<Seq<char>>::empty()) =~= Seq::<Seq<char>>::empty());
        assert(normal_parts(seq![dot]) == normal_parts(seq![dot].drop_last()));
    }
    assert(seq![e].drop_last() =~= Seq::<Seq<char>>::empty());
    assert(normal_parts(seq![e]) == normal_parts(seq![e].drop_last()));
    assert(normal_parts(seq![e]) =~= Seq::<Seq<char>>::empty());
    assert(text::spec_split(e, '/') =~= seq![e]);
    if base.len() == 0 {
        assert(r =~= dot);
    } else if base.last() == '/' {
        let b = base.drop_last();
        assert(base =~= b + seq!['/'] + e);
        assert(r =~= b + seq!['/'] + dot);
        lemma_split_concat(b, e, '/');
        lemma_split_concat(b, dot, '/');
        lemma_normal_parts_concat(text::spec_split(b, '/'), seq![e]);
        lemma_normal_parts_concat(text::spec_split(b, '/'), seq![dot]);
        assert(normal_parts(text::spec_split(b, '/')) + Seq::<Seq<char>>::empty() =~= normal_parts(
            text::spec_split(b, '/'),
        ));
        assert(r[0] == base[0]);
    } else {
        assert(r =~= base + seq!['/'] + dot);
        lemma_split_concat(base, dot, '/');
        lemma_normal_parts_concat(text::spec_split(base, '/'), seq![dot]);
        assert(normal_parts(text::spec_split(base, '/')) + Seq::<Seq<char>>::empty() =~= normal_parts(
            text::spec_split(base, '/'),
        ));
        assert(r[0] == base[0]);
    }
}

} // verus!
