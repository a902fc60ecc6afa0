//! Which recorded changes a run must replay, and in what order.

use vstd::prelude::*;
use vstd::multiset::Multiset;
use crate::types::{time_le, touches, Changelog, Issue};
use crate::text::str_eq;

verus! {

broadcast use vstd::seq_lib::group_seq_properties;

/// A change that closes part of the gap between `current` and `desired` on
/// database `db`: its issue lies in `(current, desired]`, it touched `db`, and
/// it has a statement.
pub open spec fn in_scope(c: Changelog, current: u32, desired: u32, db: Seq<char>) -> bool {
    &&& current < c.issue.number
    &&& c.issue.number <= desired
    &&& touches(c.changed_resources, db)
    &&& c.statement.0@.len() > 0
}

/// The changes in scope, in input order.
pub open spec fn scope_of(s: Seq<Changelog>, current: u32, desired: u32, db: Seq<char>) -> Seq<Changelog>
    decreases s.len(),
{
    if s.len() == 0 {
        Seq::empty()
    } else if in_scope(s.last(), current, desired, db) {
        scope_of(s.drop_last(), current, desired, db).push(s.last())
    } else {
        scope_of(s.drop_last(), current, desired, db)
    }
}

/// Puts `c` after the last element of `s`, counted from the end, whose time is not later.
pub open spec fn insert_by_time(s: Seq<Changelog>, c: Changelog) -> Seq<Changelog>
    decreases s.len(),
{
    if s.len() == 0 || time_le(s.last().create_time, c.create_time) {
        s.push(c)
    } else {
        insert_by_time(s.drop_last(), c).push(s.last())
    }
}

/// Stable sort by creation time: changes with equal times keep their order.
pub open spec fn sort_by_time(s: Seq<Changelog>) -> Seq<Changelog>
    decreases s.len(),
{
    if s.len() == 0 {
        s
    } else {
        insert_by_time(sort_by_time(s.drop_last()), s.last())
    }
}

/// The changes a run replays, in the order it replays them.
pub open spec fn selection(s: Seq<Changelog>, current: u32, desired: u32, db: Seq<char>) -> Seq<Changelog> {
    sort_by_time(scope_of(s, current, desired, db))
}

pub open spec fn sorted_by_time(s: Seq<Changelog>) -> bool {
    forall|i: int, j: int| 0 <= i < j < s.len() ==> time_le(#[trigger] s[i].create_time, #[trigger] s[j].create_time)
}

proof fn lemma_insert_at(s: Seq<Changelog>, c: Changelog, p: int)
    requires
        0 <= p <= s.len(),
        p == 0 || time_le(s[p - 1].create_time, c.create_time),
        forall|j: int| p <= j < s.len() ==> !time_le(#[trigger] s[j].create_time, c.create_time),
    ensures
        insert_by_time(s, c) == s.take(p).push(c) + s.skip(p),
    decreases s.len(),
{
    if s.len() == p {
        assert(s.take(p) == s);
        assert(s.skip(p) =~= Seq::<Changelog>::empty());
        assert(s.take(p).push(c) + s.skip(p) =~= s.push(c));
    } else {
        let d = s.drop_last();
        assert(!time_le(s[s.len() - 1].create_time, c.create_time));
        lemma_insert_at(d, c, p);
        assert(d.take(p) =~= s.take(p));
        assert((d.take(p).push(c) + d.skip(p)).push(s.last()) =~= s.take(p).push(c) + s.skip(p));
    }
}

/// Inserts `c` into `out` as `insert_by_time` says.
fn insert_sorted(out: &mut Vec<Changelog>, c: Changelog)
    ensures
        final(out)@ == insert_by_time(old(out)@, c),
{
    let mut p: usize = out.len();
    while p > 0 && !out[p - 1].create_time.le(&c.create_time)
        invariant
            p <= out@.len(),
            forall|j: int| p <= j < out@.len() ==> !time_le(#[trigger] out@[j].create_time, c.create_time),
        decreases p,
    {
        p = p - 1;
    }
    proof {
        lemma_insert_at(out@, c, p as int);
    }
    out.insert(p, c);
    assert(out@ =~= old(out)@.take(p as int).push(c) + old(out)@.skip(p as int));
}

/// The changes of `changelogs` that a run from `current` to `desired` must
/// replay on `target_database`, sorted by creation time; changes created at
/// the same time keep their order.
pub fn select_changelogs(changelogs: Vec<Changelog>, current: u32, desired: u32, target_database: &str) -> (r: Vec<Changelog>)
    ensures
        r@ == selection(changelogs@, current, desired, target_database@),
{
    let ghost all = changelogs@;
    let mut rest = changelogs;
    let mut out: Vec<Changelog> = Vec::new();
    let ghost k: int = 0;
    while rest.len() > 0
        invariant
            0 <= k <= all.len(),
            rest@ == all.skip(k),
            out@ == sort_by_time(scope_of(all.take(k), current, desired, target_database@)),
        decreases rest@.len(),
    {
        let c = rest.remove(0);
        proof {
            assert(all.take(k + 1).drop_last() =~= all.take(k));
            assert(all.take(k + 1).last() == c);
            assert(rest@ =~= all.skip(k + 1));
        }
        let keep = current < c.issue.number && c.issue.number <= desired
            && c.changed_resources.touches(target_database) && !c.statement.is_empty();
        if keep {
            proof {
                let before = scope_of(all.take(k), current, desired, target_database@);
                assert(before.push(c).drop_last() =~= before);
            }
            insert_sorted(&mut out, c);
        }
        proof {
            k = k + 1;
        }
    }
    assert(all.take(k) =~= all);
    out
}

proof fn lemma_insert_multiset(s: Seq<Changelog>, c: Changelog)
    ensures
        insert_by_time(s, c).to_multiset() =~= s.to_multiset().insert(c),
    decreases s.len(),
{
    if s.len() > 0 && !time_le(s.last().create_time, c.create_time) {
        lemma_insert_multiset(s.drop_last(), c);
        assert(s.drop_last().push(s.last()) =~= s);
    }
}

proof fn lemma_insert_sorted(s: Seq<Changelog>, c: Changelog)
    requires
        sorted_by_time(s),
    ensures
        sorted_by_time(insert_by_time(s, c)),
        insert_by_time(s, c).len() == s.len() + 1,
    decreases s.len(),
{
    if s.len() > 0 && !time_le(s.last().create_time, c.create_time) {
        let d = s.drop_last();
        lemma_insert_sorted(d, c);
        lemma_insert_multiset(d, c);
        let t = insert_by_time(d, c);
        let r = t.push(s.last());
        assert forall|i: int, j: int| 0 <= i < j < r.len() implies time_le(
            #[trigger] r[i].create_time,
            #[trigger] r[j].create_time,
        ) by {
            if j == r.len() - 1 {
                // every element of t is c or an element of d
                assert(t.to_multiset().count(t[i]) > 0);
                if t[i] != c {
                    assert(d.to_multiset().count(t[i]) > 0);
                    assert(d.contains(t[i]));
                    let m = choose|m: int| 0 <= m < d.len() && d[m] == t[i];
                    assert(s[m] == d[m]);
                    assert(time_le(s[m].create_time, s[s.len() - 1].create_time));
                }
            }
        }
    }
}

proof fn lemma_sort_props(s: Seq<Changelog>)
    ensures
        sorted_by_time(sort_by_time(s)),
        sort_by_time(s).to_multiset() =~= s.to_multiset(),
    decreases s.len(),
{
    if s.len() > 0 {
        lemma_sort_props(s.drop_last());
        lemma_insert_sorted(sort_by_time(s.drop_last()), s.last());
        lemma_insert_multiset(sort_by_time(s.drop_last()), s.last());
        assert(s.drop_last().push(s.last()) =~= s);
    }
}

proof fn lemma_scope_props(s: Seq<Changelog>, current: u32, desired: u32, db: Seq<char>)
    ensures
        forall|c: Changelog| #[trigger] scope_of(s, current, desired, db).to_multiset().count(c)
            == if in_scope(c, current, desired, db) {
            s.to_multiset().count(c)
        } else {
            0
        },
    decreases s.len(),
{
    if s.len() > 0 {
        let d = s.drop_last();
        lemma_scope_props(d, current, desired, db);
        assert(d.push(s.last()) =~= s);
        assert(s.to_multiset() =~= d.to_multiset().insert(s.last()));
        let sd = scope_of(d, current, desired, db);
        if in_scope(s.last(), current, desired, db) {
            assert(scope_of(s, current, desired, db).to_multiset() =~= sd.to_multiset().insert(s.last()));
        }
    } else {
        assert(s.to_multiset() =~= Multiset::<Changelog>::empty()) by {
            assert(s.to_multiset().len() == 0);
        }
        assert(scope_of(s, current, desired, db).to_multiset() =~= Multiset::<Changelog>::empty()) by {
            assert(scope_of(s, current, desired, db).to_multiset().len() == 0);
        }
    }
}

/// The selection is exactly the changes in scope, each as often as in the
/// input, and it is sorted by creation time.
pub proof fn lemma_selection_exact(s: Seq<Changelog>, current: u32, desired: u32, db: Seq<char>)
    ensures
        sorted_by_time(selection(s, current, desired, db)),
        forall|c: Changelog| #[trigger] selection(s, current, desired, db).to_multiset().count(c)
            == if in_scope(c, current, desired, db) {
            s.to_multiset().count(c)
        } else {
            0
        },
        forall|i: int| 0 <= i < selection(s, current, desired, db).len() ==> in_scope(
            #[trigger] selection(s, current, desired, db)[i],
            current,
            desired,
            db,
        ),
{
    let sc = scope_of(s, current, desired, db);
    lemma_sort_props(sc);
    lemma_scope_props(s, current, desired, db);
    let r = selection(s, current, desired, db);
    assert forall|i: int| 0 <= i < r.len() implies in_scope(#[trigger] r[i], current, desired, db) by {
        assert(r.contains(r[i]));
        assert(r.to_multiset().count(r[i]) > 0);
    }
}


/// A change recorded under issues of `project`, with a statement.
pub open spec fn from_project(c: Changelog, project: Seq<char>) -> bool {
    c.issue.project@ == project && c.statement.0@.len() > 0
}

/// The changes of `s` that `from_project` keeps, in order.
pub open spec fn project_changes(s: Seq<Changelog>, project: Seq<char>) -> Seq<Changelog>
    decreases s.len(),
{
    if s.len() == 0 {
        Seq::empty()
    } else if from_project(s.last(), project) {
        project_changes(s.drop_last(), project).push(s.last())
    } else {
        project_changes(s.drop_last(), project)
    }
}

/// Keeps the changes that belong to issues of `project_name` and have a statement.
pub fn source_changelogs(changelogs: Vec<Changelog>, project_name: &str) -> (r: Vec<Changelog>)
    ensures
        r@ == project_changes(changelogs@, project_name@),
{
    let ghost all = changelogs@;
    let mut rest = changelogs;
    let mut out: Vec<Changelog> = Vec::new();
    let ghost k: int = 0;
    while rest.len() > 0
        invariant
            0 <= k <= all.len(),
            rest@ == all.skip(k),
            out@ == project_changes(all.take(k), project_name@),
        decreases rest@.len(),
    {
        let c = rest.remove(0);
        proof {
            assert(all.take(k + 1).drop_last() =~= all.take(k));
            assert(all.take(k + 1).last() == c);
            assert(rest@ =~= all.skip(k + 1));
        }
        if str_eq(c.issue.project.as_str(), project_name) && !c.statement.is_empty() {
            out.push(c);
        }
        proof {
            k = k + 1;
        }
    }
    assert(all.take(k) =~= all);
    out
}

/// The highest issue number among `issues`, or 0 when there is none.
pub open spec fn max_issue_number(issues: Seq<Issue>) -> u32
    decreases issues.len(),
{
    if issues.len() == 0 {
        0
    } else {
        let m = max_issue_number(issues.drop_last());
        if issues.last().name.number > m {
            issues.last().name.number
        } else {
            m
        }
    }
}

/// The highest closed issue number of the source project: what `LATEST` means.
pub fn latest_done_issue_no(issues: &Vec<Issue>) -> (r: u32)
    ensures
        r == max_issue_number(issues@),
        forall|i: int| 0 <= i < issues@.len() ==> (#[trigger] issues@[i]).name.number <= r,
        issues@.len() > 0 ==> exists|i: int| 0 <= i < issues@.len() && (#[trigger] issues@[i]).name.number == r,
{
    let mut best: u32 = 0;
    let mut i: usize = 0;
    while i < issues.len()
        invariant
            i <= issues@.len(),
            best == max_issue_number(issues@.take(i as int)),
            forall|j: int| 0 <= j < i ==> (#[trigger] issues@[j]).name.number <= best,
            i > 0 ==> exists|j: int| 0 <= j < i && (#[trigger] issues@[j]).name.number == best,
        decreases issues@.len() - i,
    {
        assert(issues@.take(i as int + 1).drop_last() =~= issues@.take(i as int));
        if issues[i].name.number > best {
            best = issues[i].name.number;
        }
        i = i + 1;
    }
    assert(issues@.take(i as int) =~= issues@);
    best
}

} // verus!
