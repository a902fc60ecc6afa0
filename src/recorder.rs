//! The checkpoint of a target database: reading the current one and
//! computing the one a run writes.

use vstd::prelude::*;
use crate::names::RevisionVersion;
use crate::orchestrator::{is_up_to_date, Migration, MigrationOutcome};
use crate::selector::{in_scope, lemma_selection_exact, selection};
use crate::types::Changelog;
use crate::types::{time_le, Revision};

verus! {

/// The version a target database is at; one without a marker is at 0.
pub open spec fn ordinal_of(revision: Option<Revision>) -> u32 {
    match revision {
        Some(r) => match r.version {
            Some(v) => v.number,
            None => 0,
        },
        None => 0,
    }
}

/// The version a target database is at.
pub fn current_ordinal(revision: &Option<Revision>) -> (r: u32)
    ensures
        r == ordinal_of(*revision),
{
    match revision {
        Some(rev) => match &rev.version {
            Some(v) => v.number,
            None => 0,
        },
        None => 0,
    }
}

/// Index `i` holds the latest revision with a creation time; among equally
/// late ones, the last.
pub open spec fn is_latest(revs: Seq<Revision>, i: int) -> bool {
    &&& 0 <= i < revs.len()
    &&& revs[i].create_time is Some
    &&& forall|j: int| 0 <= j < revs.len() && (#[trigger] revs[j]).create_time is Some ==> time_le(
        revs[j].create_time->0,
        revs[i].create_time->0,
    )
    &&& forall|j: int| i < j < revs.len() && (#[trigger] revs[j]).create_time is Some ==> !time_le(
        revs[i].create_time->0,
        revs[j].create_time->0,
    )
}

/// The latest of the revisions that carry a creation time, or `None` when
/// none does.
pub fn latest_revision(revisions: Vec<Revision>) -> (r: Option<Revision>)
    ensures
        match r {
            Some(rev) => exists|i: int| is_latest(revisions@, i) && rev == revisions@[i],
            None => forall|j: int| 0 <= j < revisions@.len() ==> (#[trigger] revisions@[j]).create_time is None,
        },
{
    let mut best: Option<usize> = None;
    let mut i: usize = 0;
    while i < revisions.len()
        invariant
            i <= revisions@.len(),
            match best {
                Some(b) => is_latest(revisions@.take(i as int), b as int),
                None => forall|j: int| 0 <= j < i ==> (#[trigger] revisions@[j]).create_time is None,
            },
        decreases revisions@.len() - i,
    {
        let ghost prefix = revisions@.take(i as int + 1);
        assert(forall|j: int| 0 <= j < i ==> revisions@.take(i as int)[j] == #[trigger] prefix[j]);
        if let Some(t) = revisions[i].create_time {
            match best {
                Some(b) => {
                    let bt = revisions[b].create_time.unwrap();
                    if bt.le(&t) {
                        best = Some(i);
                    }
                },
                None => {
                    best = Some(i);
                },
            }
        }
        i = i + 1;
    }
    assert(revisions@.take(i as int) =~= revisions@);
    match best {
        Some(b) => {
            let mut revisions = revisions;
            let ghost all = revisions@;
            let rev = revisions.remove(b);
            assert(is_latest(all, b as int) && rev == all[b as int]);
            Some(rev)
        },
        None => None,
    }
}

/// The marker and sheet a run writes.
#[derive(Debug)]
pub struct RevisionRecord {
    pub version: RevisionVersion,
    pub sheet: String,
}

/// The checkpoint after a run: the desired version when every change went
/// through, else the issue of the last change that did; `None` when no
/// change went through.
pub open spec fn record_spec(o: MigrationOutcome, source_project: Seq<char>, desired: u32) -> Option<(Seq<char>, u32)> {
    if o.all_succeeded {
        Some((source_project, desired))
    } else {
        match o.last_issue {
            Some(i) => Some((i.project@, i.number)),
            None => None,
        }
    }
}

/// The sheet a checkpoint refers to: the last one applied, or, when none
/// was, the sheet of the existing checkpoint.
pub open spec fn record_sheet(o: MigrationOutcome, existing_sheet: Seq<char>) -> Seq<char> {
    match o.last_sheet {
        Some(s) => s@,
        None => existing_sheet,
    }
}

/// Computes the checkpoint that a run writes.
pub fn revision_to_record(outcome: &MigrationOutcome, source_project: &str, desired: u32, existing_sheet: &str) -> (r: Option<RevisionRecord>)
    ensures
        match (r, record_spec(*outcome, source_project@, desired)) {
            (Some(rec), Some((p, n))) => rec.version.project_name@ == p && rec.version.number == n
                && rec.sheet@ == record_sheet(*outcome, existing_sheet@),
            (None, None) => true,
            _ => false,
        },
{
    let sheet = match &outcome.last_sheet {
        Some(s) => s.clone(),
        None => existing_sheet.to_string(),
    };
    if outcome.all_succeeded {
        Some(RevisionRecord {
            version: RevisionVersion { project_name: source_project.to_string(), number: desired },
            sheet,
        })
    } else {
        match &outcome.last_issue {
            Some(i) => Some(RevisionRecord {
                version: RevisionVersion { project_name: i.project.clone(), number: i.number },
                sheet,
            }),
            None => None,
        }
    }
}

/// The version a target database is at after a run from `current` toward
/// `desired` with outcome `o`; a run that is up to date writes nothing.
pub open spec fn checkpoint_after(current: u32, desired: u32, o: MigrationOutcome, source_project: Seq<char>) -> u32 {
    if is_up_to_date(current, desired) {
        current
    } else {
        match record_spec(o, source_project, desired) {
            Some((_, n)) => n,
            None => current,
        }
    }
}

/// Running again toward the same version after a run in which every change
/// went through, or after a run that was already up to date, finds the
/// target up to date: no change is selected and the pipeline is not entered.
pub proof fn lemma_rerun_is_up_to_date(current: u32, desired: u32, o: MigrationOutcome, source_project: Seq<char>)
    requires
        is_up_to_date(current, desired) || o.all_succeeded,
    ensures
        is_up_to_date(checkpoint_after(current, desired, o, source_project), desired),
        is_up_to_date(current, desired) ==> checkpoint_after(current, desired, o, source_project) == current,
{
}

/// The checkpoint never moves back, provided the last applied change, if
/// any, lies past the current version (as every selected change does).
pub proof fn lemma_checkpoint_never_regresses(current: u32, desired: u32, o: MigrationOutcome, source_project: Seq<char>)
    requires
        o.last_issue matches Some(i) ==> current < i.number,
    ensures
        current <= checkpoint_after(current, desired, o, source_project),
{
}


/// In a run over the selection from `current`, the last change that went
/// through lies past `current`; with `lemma_checkpoint_never_regresses`, the
/// checkpoint such a run writes is never behind the one it started from.
pub proof fn lemma_run_moves_forward(m: Migration, s: Seq<Changelog>, current: u32, desired: u32, db: Seq<char>)
    requires
        m.wf(),
        m.changes@ == selection(s, current, desired, db),
    ensures
        m.last_issue matches Some(i) ==> current < i.number,
{
    lemma_selection_exact(s, current, desired, db);
    if m.next > 0 {
        assert(in_scope(m.changes@[m.next - 1], current, desired, db));
    }
}

} // verus!
