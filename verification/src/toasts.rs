//! The notifications shown in a corner of the window: raising one again counts it instead of
//! showing it twice, operations stay below the others, and a notification leaves when its time
//! is up as often as it was raised.

use crate::app::ToastKind;
use crate::config::ViewConf;
use crate::text;
use crate::ui;
use vstd::prelude::*;

verus! {

/// A notification: its title and content, its kind, how many times it is raised, and the
/// identifier its timers find it by.
#[derive(Debug)]
pub struct ToastRecord {
    pub title: String,
    pub content: String,
    pub kind: ToastKind,
    pub count: i8,
    pub id: u64,
}

impl View for ToastRecord {
    type V = (Seq<char>, Seq<char>, ToastKind, i8, u64);

    open spec fn view(&self) -> (Seq<char>, Seq<char>, ToastKind, i8, u64) {
        (self.title@, self.content@, self.kind, self.count, self.id)
    }
}

/// The notifications shown, top to bottom.
#[derive(Debug)]
pub struct ToastBoard {
    pub toasts: Vec<ToastRecord>,
}

/// The notifications of a board, each by its view.
pub open spec fn records(toasts: Seq<ToastRecord>) -> Seq<(Seq<char>, Seq<char>, ToastKind, i8, u64)> {
    toasts.map_values(|t: ToastRecord| t@)
}

/// A notification carries the message `title`, `content`.
pub open spec fn same_message(t: (Seq<char>, Seq<char>, ToastKind, i8, u64), title: Seq<char>, content: Seq<char>) -> bool {
    t.0 == title && t.1 == content
}

/// `i` is the first notification of `s` with the message `title`, `content`.
pub open spec fn first_with_message(
    s: Seq<(Seq<char>, Seq<char>, ToastKind, i8, u64)>,
    title: Seq<char>,
    content: Seq<char>,
    i: int,
) -> bool {
    &&& 0 <= i < s.len()
    &&& same_message(s[i], title, content)
    &&& forall|j: int| 0 <= j < i ==> !same_message(#[trigger] s[j], title, content)
}

/// The notifications of `s` that are operations (`op`) or are not, in order.
pub open spec fn of_kind(s: Seq<(Seq<char>, Seq<char>, ToastKind, i8, u64)>, op: bool) -> Seq<
    (Seq<char>, Seq<char>, ToastKind, i8, u64),
>
    decreases s.len(),
{
    if s.len() == 0 {
        Seq::empty()
    } else {
        let r = of_kind(s.drop_last(), op);
        if (s.last().2 == ToastKind::Operation) == op {
            r.push(s.last())
        } else {
            r
        }
    }
}

/// `s` sorted, stably, with the operations last.
pub open spec fn operations_last(s: Seq<(Seq<char>, Seq<char>, ToastKind, i8, u64)>) -> Seq<
    (Seq<char>, Seq<char>, ToastKind, i8, u64),
> {
    of_kind(s, false) + of_kind(s, true)
}

/// The notifications of `s` whose identifier is not `id`, in order.
pub open spec fn without_id(s: Seq<(Seq<char>, Seq<char>, ToastKind, i8, u64)>, id: u64) -> Seq<
    (Seq<char>, Seq<char>, ToastKind, i8, u64),
>
    decreases s.len(),
{
    if s.len() == 0 {
        Seq::empty()
    } else {
        let r = without_id(s.drop_last(), id);
        if s.last().4 != id {
            r.push(s.last())
        } else {
            r
        }
    }
}

/// `i` is the first notification of `s` with the identifier `id`.
pub open spec fn first_with_id(s: Seq<(Seq<char>, Seq<char>, ToastKind, i8, u64)>, id: u64, i: int) -> bool {
    &&& 0 <= i < s.len()
    &&& s[i].4 == id
    &&& forall|j: int| 0 <= j < i ==> (#[trigger] s[j]).4 != id
}

/// How long a notification of `kind` stays, in milliseconds; an operation stays until it ends.
pub open spec fn spec_toast_duration(kind: ToastKind, view: ViewConf) -> Option<u64> {
    match kind {
        ToastKind::Info => Some(view.info_toast_time),
        ToastKind::Success => Some(view.success_toast_time),
        ToastKind::Danger => Some(view.danger_toast_time),
        ToastKind::Operation => None,
    }
}

/// How long a notification of `kind` stays, in milliseconds.
pub fn toast_duration(kind: &ToastKind, view: &ViewConf) -> (res: Option<u64>)
    ensures
        res == spec_toast_duration(*kind, *view),
{
    match kind {
        ToastKind::Info => Some(view.info_toast_time),
        ToastKind::Success => Some(view.success_toast_time),
        ToastKind::Danger => Some(view.danger_toast_time),
        ToastKind::Operation => None,
    }
}

/// The heading of a notification: its title and how many times it is raised.
pub open spec fn spec_toast_heading(title: Seq<char>, count: i8) -> Seq<char> {
    title + " (x"@ + ui::spec_signed_decimal(count as int) + ")"@
}

/// Writes the heading of a notification.
pub fn toast_heading(t: &ToastRecord) -> (res: String)
    ensures
        res@ == spec_toast_heading(t.title@, t.count),
{
    let mut s = text::concat(t.title.as_str(), " (x");
    s.append(ui::signed_decimal(t.count as i64).as_str());
    s.append(")");
    s
}

/// The notifications after the message `title`, `content` is raised, and the identifier
/// returned: the first notification with that message counted once more, and its identifier;
/// else a new notification (count one, identifier `fresh_id`) added with the operations kept
/// last, and `fresh_id`.
pub open spec fn raised(
    s: Seq<(Seq<char>, Seq<char>, ToastKind, i8, u64)>,
    title: Seq<char>,
    content: Seq<char>,
    kind: ToastKind,
    fresh_id: u64,
) -> (Seq<(Seq<char>, Seq<char>, ToastKind, i8, u64)>, u64) {
    if exists|k: int| first_with_message(s, title, content, k) {
        let i = choose|k: int| first_with_message(s, title, content, k);
        (s.update(i, (s[i].0, s[i].1, s[i].2, (s[i].3 + 1) as i8, s[i].4)), s[i].4)
    } else {
        (operations_last(s.push((title, content, kind, 1i8, fresh_id))), fresh_id)
    }
}

/// The notifications after the time of identifier `id` is up: the first notification with it
/// counted once less where it was raised more than once; else every notification with it gone.
pub open spec fn expired(s: Seq<(Seq<char>, Seq<char>, ToastKind, i8, u64)>, id: u64) -> Seq<
    (Seq<char>, Seq<char>, ToastKind, i8, u64),
> {
    if exists|k: int| first_with_id(s, id, k) {
        let i = choose|k: int| first_with_id(s, id, k);
        if s[i].3 > 1 {
            s.update(i, (s[i].0, s[i].1, s[i].2, (s[i].3 - 1) as i8, s[i].4))
        } else {
            without_id(s, id)
        }
    } else {
        without_id(s, id)
    }
}

impl ToastBoard {
    /// No notification.
    pub fn new() -> (res: ToastBoard)
        ensures
            res.toasts@.len() == 0,
    {
        ToastBoard { toasts: Vec::new() }
    }

    /// Raises the notification `title`, `content`: where one with that message is shown, it is
    /// counted once more and its identifier returned; else a new one, with the identifier
    /// `fresh_id` and a count of one, is added, the operations kept last, and `fresh_id` returned.
    pub fn raise(&mut self, title: &str, content: &str, kind: ToastKind, fresh_id: u64) -> (res: u64)
        requires
            forall|i: int|
                first_with_message(records(old(self).toasts@), title@, content@, i) ==> #[trigger] records(
                    old(self).toasts@,
                )[i].3 < i8::MAX,
        ensures
            (records(final(self).toasts@), res) == raised(
                records(old(self).toasts@),
                title@,
                content@,
                kind,
                fresh_id,
            ),
    {
        let ghost s = records(self.toasts@);
        let mut i: usize = 0;
        while i < self.toasts.len()
            invariant
                i <= self.toasts.len(),
                s == records(self.toasts@),
                s == records(old(self).toasts@),
                forall|j: int| 0 <= j < i ==> !same_message(#[trigger] s[j], title@, content@),
                forall|k: int|
                    first_with_message(s, title@, content@, k) ==> #[trigger] s[k].3 < i8::MAX,
            decreases self.toasts.len() - i,
        {
            if text::str_eq(self.toasts[i].title.as_str(), title) && text::str_eq(
                self.toasts[i].content.as_str(),
                content,
            ) {
                assert(s[i as int] == self.toasts@[i as int]@);
                assert(first_with_message(s, title@, content@, i as int));
                proof {
                    let c = choose|k: int| first_with_message(s, title@, content@, k);
                    if c != i {
                        if c < i {
                            assert(!same_message(s[c], title@, content@));
                        } else {
                            assert(!same_message(s[i as int], title@, content@));
                        }
                    }
                    assert(c == i);
                }
                let mut t = self.toasts.remove(i);
                t.count = t.count + 1;
                let id = t.id;
                self.toasts.insert(i, t);
                assert(records(self.toasts@) =~= s.update(
                    i as int,
                    (s[i as int].0, s[i as int].1, s[i as int].2, (s[i as int].3 + 1) as i8, s[i as int].4),
                ));
                return id;
            }
            i = i + 1;
        }
        assert(!exists|k: int| first_with_message(s, title@, content@, k));
        let fresh = ToastRecord {
            title: text::owned(title),
            content: text::owned(content),
            kind,
            count: 1,
            id: fresh_id,
        };
        let mut all: Vec<ToastRecord> = Vec::new();
        std::mem::swap(&mut all, &mut self.toasts);
        all.push(fresh);
        let ghost pushed = s.push((title@, content@, kind, 1i8, fresh_id));
        assert(records(all@) =~= pushed);
        self.toasts = operations_last_of(all);
        fresh_id
    }

    /// A notification's time is up: where it was raised more than once it is counted once less,
    /// else it leaves (with any other of its identifier).
    pub fn expire(&mut self, id: u64)
        ensures
            records(final(self).toasts@) == expired(records(old(self).toasts@), id),
    {
        let ghost s = records(self.toasts@);
        let mut i: usize = 0;
        while i < self.toasts.len()
            invariant
                i <= self.toasts.len(),
                s == records(self.toasts@),
                s == records(old(self).toasts@),
                forall|j: int| 0 <= j < i ==> (#[trigger] s[j]).4 != id,
            decreases self.toasts.len() - i,
        {
            if self.toasts[i].id == id {
                assert(s[i as int] == self.toasts@[i as int]@);
                assert(first_with_id(s, id, i as int));
                proof {
                    let c = choose|k: int| first_with_id(s, id, k);
                    if c != i {
                        if c < i {
                            assert(s[c].4 != id);
                        } else {
                            assert(s[i as int].4 != id);
                        }
                    }
                    assert(c == i);
                }
                if self.toasts[i].count > 1 {
                    let mut t = self.toasts.remove(i);
                    t.count = t.count - 1;
                    self.toasts.insert(i, t);
                    assert(records(self.toasts@) =~= s.update(
                        i as int,
                        (s[i as int].0, s[i as int].1, s[i as int].2, (s[i as int].3 - 1) as i8, s[i as int].4),
                    ));
                    return;
                }
                self.finish(id);
                return;
            }
            i = i + 1;
        }
        assert(!exists|k: int| first_with_id(s, id, k));
        self.finish(id);
    }

    /// An operation has ended: its notification leaves (with any other of its identifier).
    pub fn finish(&mut self, id: u64)
        ensures
            records(final(self).toasts@) == without_id(records(old(self).toasts@), id),
    {
        let mut all: Vec<ToastRecord> = Vec::new();
        std::mem::swap(&mut all, &mut self.toasts);
        let ghost s = records(all@);
        let mut kept: Vec<ToastRecord> = Vec::new();
        let mut rest: Vec<ToastRecord> = Vec::new();
        // move the notifications out one by one, from the back, then restore the order
        while all.len() > 0
            invariant
                all@.len() <= s.len(),
                records(all@) == s.subrange(0, all@.len() as int),
                records(rest@) == without_id(s.subrange(all@.len() as int, s.len() as int), id).reverse(),
            decreases all.len(),
        {
            let ghost n = all@.len();
            let ghost prev = all@;
            let t = all.pop().unwrap();
            assert(t == prev[n - 1]);
            assert(records(prev)[n - 1] == t@);
            assert(records(all@) =~= s.subrange(0, n - 1));
            proof {
                lemma_without_id_front(s.subrange(n - 1, s.len() as int), id);
            }
            assert(s.subrange(n - 1, s.len() as int).drop_first() =~= s.subrange(n as int, s.len() as int));
            assert(s.subrange(n - 1, s.len() as int)[0] == t@);
            let ghost w = without_id(s.subrange(n as int, s.len() as int), id);
            assert((seq![t@] + w).reverse() =~= w.reverse().push(t@));
            if t.id != id {
                rest.push(t);
            }
            assert(records(rest@) =~= without_id(s.subrange(n - 1, s.len() as int), id).reverse());
        }
        assert(s.subrange(0, s.len() as int) =~= s);
        while rest.len() > 0
            invariant
                records(kept@) + records(rest@).reverse() == without_id(s, id),
            decreases rest.len(),
        {
            let ghost before_kept = records(kept@);
            let ghost before_rest = records(rest@);
            let t = rest.pop().unwrap();
            kept.push(t);
            assert(before_rest =~= records(rest@).push(t@));
            assert(before_rest.reverse() =~= seq![t@] + records(rest@).reverse());
            assert(records(kept@) =~= before_kept.push(t@));
            assert(records(kept@) + records(rest@).reverse() =~= before_kept + before_rest.reverse());
        }
        assert(records(rest@).reverse() =~= Seq::<(Seq<char>, Seq<char>, ToastKind, i8, u64)>::empty());
        assert(records(kept@) =~= without_id(s, id));
        self.toasts = kept;
    }
}

/// Taking the first notification off the front of `s` and keeping it where its identifier is
/// not `id` gives the same as keeping those of all `s`.
proof fn lemma_without_id_front(s: Seq<(Seq<char>, Seq<char>, ToastKind, i8, u64)>, id: u64)
    requires
        s.len() > 0,
    ensures
        without_id(s, id) == if s[0].4 != id {
            seq![s[0]] + without_id(s.drop_first(), id)
        } else {
            without_id(s.drop_first(), id)
        },
    decreases s.len(),
{
    if s.len() == 1 {
        assert(s.drop_last() =~= Seq::<(Seq<char>, Seq<char>, ToastKind, i8, u64)>::empty());
        assert(s.drop_first() =~= Seq::<(Seq<char>, Seq<char>, ToastKind, i8, u64)>::empty());
        assert(without_id(s.drop_first(), id) =~= Seq::<(Seq<char>, Seq<char>, ToastKind, i8, u64)>::empty());
    } else {
        lemma_without_id_front(s.drop_last(), id);
        assert(s.drop_last().drop_first() =~= s.drop_first().drop_last());
        assert(s.drop_first().last() == s.last());
        assert(s.drop_last()[0] == s[0]);
    }
}

/// The same for keeping the notifications of one kind.
proof fn lemma_of_kind_front(s: Seq<(Seq<char>, Seq<char>, ToastKind, i8, u64)>, op: bool)
    requires
        s.len() > 0,
    ensures
        of_kind(s, op) == if (s[0].2 == ToastKind::Operation) == op {
            seq![s[0]] + of_kind(s.drop_first(), op)
        } else {
            of_kind(s.drop_first(), op)
        },
    decreases s.len(),
{
    if s.len() == 1 {
        assert(s.drop_last() =~= Seq::<(Seq<char>, Seq<char>, ToastKind, i8, u64)>::empty());
        assert(s.drop_first() =~= Seq::<(Seq<char>, Seq<char>, ToastKind, i8, u64)>::empty());
        assert(of_kind(s.drop_first(), op) =~= Seq::<(Seq<char>, Seq<char>, ToastKind, i8, u64)>::empty());
    } else {
        lemma_of_kind_front(s.drop_last(), op);
        assert(s.drop_last().drop_first() =~= s.drop_first().drop_last());
        assert(s.drop_first().last() == s.last());
        assert(s.drop_last()[0] == s[0]);
    }
}

/// Reverses a vector of notifications by moving them.
fn reversed(v: Vec<ToastRecord>) -> (res: Vec<ToastRecord>)
    ensures
        records(res@) == records(v@).reverse(),
{
    let mut v = v;
    let ghost s = records(v@);
    let mut out: Vec<ToastRecord> = Vec::new();
    while v.len() > 0
        invariant
            records(out@) + records(v@).reverse() == s.reverse(),
        decreases v.len(),
    {
        let ghost before_out = records(out@);
        let ghost before_v = records(v@);
        let t = v.pop().unwrap();
        out.push(t);
        assert(before_v =~= records(v@).push(t@));
        assert(before_v.reverse() =~= seq![t@] + records(v@).reverse());
        assert(records(out@) =~= before_out.push(t@));
        assert(records(out@) + records(v@).reverse() =~= before_out + before_v.reverse());
    }
    assert(records(v@).reverse() =~= Seq::<(Seq<char>, Seq<char>, ToastKind, i8, u64)>::empty());
    assert(records(out@) =~= s.reverse());
    out
}

/// Sorts notifications stably with the operations last, moving them.
fn operations_last_of(all: Vec<ToastRecord>) -> (res: Vec<ToastRecord>)
    ensures
        records(res@) == operations_last(records(all@)),
{
    let mut all = all;
    let ghost s = records(all@);
    let mut others: Vec<ToastRecord> = Vec::new();
    let mut ops: Vec<ToastRecord> = Vec::new();
    while all.len() > 0
        invariant
            all@.len() <= s.len(),
            records(all@) == s.subrange(0, all@.len() as int),
            records(others@) == of_kind(s.subrange(all@.len() as int, s.len() as int), false).reverse(),
            records(ops@) == of_kind(s.subrange(all@.len() as int, s.len() as int), true).reverse(),
        decreases all.len(),
    {
        let ghost n = all@.len();
        let ghost prev = all@;
        let t = all.pop().unwrap();
        assert(t == prev[n - 1]);
        assert(records(prev)[n - 1] == t@);
        assert(records(all@) =~= s.subrange(0, n - 1));
        let ghost tail = s.subrange(n - 1, s.len() as int);
        proof {
            lemma_of_kind_front(tail, false);
            lemma_of_kind_front(tail, true);
        }
        assert(tail.drop_first() =~= s.subrange(n as int, s.len() as int));
        assert(tail[0] == t@);
        let is_op = match t.kind {
            ToastKind::Operation => true,
            _ => false,
        };
        let ghost wf = of_kind(s.subrange(n as int, s.len() as int), false);
        let ghost wt = of_kind(s.subrange(n as int, s.len() as int), true);
        assert((seq![t@] + wf).reverse() =~= wf.reverse().push(t@));
        assert((seq![t@] + wt).reverse() =~= wt.reverse().push(t@));
        if is_op {
            ops.push(t);
        } else {
            others.push(t);
        }
        assert(records(ops@) =~= of_kind(tail, true).reverse());
        assert(records(others@) =~= of_kind(tail, false).reverse());
    }
    assert(s.subrange(0, s.len() as int) =~= s);
    let mut front = reversed(others);
    let mut back = reversed(ops);
    assert(of_kind(s, false).reverse().reverse() =~= of_kind(s, false));
    assert(of_kind(s, true).reverse().reverse() =~= of_kind(s, true));
    front.append(&mut back);
    front
}

/// The text of the notification of a running paste or move of `count` items.
pub fn operation_content(moving: bool, count: usize) -> (res: String)
    ensures
        res@ == (if moving {
            "Moving "@
        } else {
            "Pasting "@
        }) + text::spec_decimal(count as nat) + " items"@,
{
    let mut s = if moving {
        text::owned("Moving ")
    } else {
        text::owned("Pasting ")
    };
    s.append(text::decimal(count as u64).as_str());
    s.append(" items");
    s
}

} // verus!
