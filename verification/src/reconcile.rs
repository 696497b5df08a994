//! Reconciliation: partitioning the final entry list into the minimal
//! stage/unstage batches and assembling the report, with the two batches
//! isolated from each other's failures.

use vstd::prelude::*;
use crate::status::Entry;
use crate::status::StatusRow;
use crate::status::spec_entries_of_rows;
use crate::status::spec_entry_of_row;

verus! {

broadcast use vstd::seq_lib::lemma_seq_contains_after_push;

/// Reconciliation must stage this entry: the user wants it staged and it
/// was not staged at load time.
pub open spec fn spec_needs_stage(e: Entry) -> bool {
    e.desired_staged && !e.original_staged
}

/// Reconciliation must unstage this entry: the user wants it unstaged and
/// it was staged at load time.
pub open spec fn spec_needs_unstage(e: Entry) -> bool {
    !e.desired_staged && e.original_staged
}

/// The entry's desired condition differs from its original one.
pub open spec fn spec_changed(e: Entry) -> bool {
    e.desired_staged != e.original_staged
}

/// Paths of the entries that must be staged, in list order.
pub open spec fn spec_stage_paths(s: Seq<Entry>) -> Seq<String>
    decreases s.len(),
{
    if s.len() == 0 {
        Seq::empty()
    } else {
        let rest = spec_stage_paths(s.drop_last());
        if spec_needs_stage(s.last()) {
            rest.push(s.last().path)
        } else {
            rest
        }
    }
}

/// Paths of the entries that must be unstaged, in list order.
pub open spec fn spec_unstage_paths(s: Seq<Entry>) -> Seq<String>
    decreases s.len(),
{
    if s.len() == 0 {
        Seq::empty()
    } else {
        let rest = spec_unstage_paths(s.drop_last());
        if spec_needs_unstage(s.last()) {
            rest.push(s.last().path)
        } else {
            rest
        }
    }
}

/// No two entries share a path: the invariant a single load guarantees.
pub open spec fn spec_unique_paths(s: Seq<Entry>) -> bool {
    forall|i: int, j: int| 0 <= i < j < s.len() ==> s[i].path@ != s[j].path@
}

/// A per-batch backend failure, carrying the backend's message.
pub struct ReconcileError {
    pub message: String,
}

/// The two batches of backend operations reconciliation has decided on.
/// Each batch is issued as a single backend call, and only if non-empty.
pub struct ReconcilePlan {
    pub to_stage: Vec<String>,
    pub to_unstage: Vec<String>,
}

/// What reconciliation accomplished: how many paths each successful batch
/// covered, and the failure of each batch that failed.
pub struct ReconcileReport {
    pub staged_count: usize,
    pub unstaged_count: usize,
    pub staging_error: Option<ReconcileError>,
    pub unstaging_error: Option<ReconcileError>,
}

/// Partition the consumed entry list into the two operation batches.
/// Exactly the entries whose desired condition differs from the original
/// appear, each in the batch that moves it to its desired condition, in
/// list order; entries with no net change reach no batch.
pub fn plan_operations(entries: Vec<Entry>) -> (r: ReconcilePlan)
    ensures
        r.to_stage@ == spec_stage_paths(entries@),
        r.to_unstage@ == spec_unstage_paths(entries@),
{
    let mut to_stage: Vec<String> = Vec::new();
    let mut to_unstage: Vec<String> = Vec::new();
    let mut i: usize = 0;
    while i < entries.len()
        invariant
            i <= entries@.len(),
            to_stage@ == spec_stage_paths(entries@.take(i as int)),
            to_unstage@ == spec_unstage_paths(entries@.take(i as int)),
        decreases entries@.len() - i,
    {
        let e = &entries[i];
        if e.desired_staged && !e.original_staged {
            to_stage.push(e.path.clone());
        } else if !e.desired_staged && e.original_staged {
            to_unstage.push(e.path.clone());
        }
        proof {
            assert(entries@.take(i + 1).drop_last() =~= entries@.take(i as int));
            assert(entries@.take(i + 1).last() == entries@[i as int]);
        }
        i = i + 1;
    }
    proof {
        assert(entries@.take(entries@.len() as int) =~= entries@);
    }
    ReconcilePlan { to_stage, to_unstage }
}

/// Assemble the report from the outcome the backend gave each batch. The
/// two outcomes are independent: each side of the report depends on its
/// own batch alone, so one batch's failure never hides the other's result.
/// A successful batch counts every path it covered; a failed one counts
/// nothing and surfaces its error.
pub fn assemble_report(
    p: &ReconcilePlan,
    staging: Result<(), ReconcileError>,
    unstaging: Result<(), ReconcileError>,
) -> (r: ReconcileReport)
    ensures
        (staging matches Ok(_)) ==> r.staged_count == p.to_stage@.len() && r.staging_error is None,
        (staging matches Err(e) ==> r.staged_count == 0 && r.staging_error == Some(e)),
        (unstaging matches Ok(_)) ==> r.unstaged_count == p.to_unstage@.len()
            && r.unstaging_error is None,
        (unstaging matches Err(e) ==> r.unstaged_count == 0 && r.unstaging_error == Some(e)),
{
    let (staged_count, staging_error): (usize, Option<ReconcileError>) = match staging {
        Ok(_) => (p.to_stage.len(), None),
        Err(e) => (0, Some(e)),
    };
    let (unstaged_count, unstaging_error): (usize, Option<ReconcileError>) = match unstaging {
        Ok(_) => (p.to_unstage.len(), None),
        Err(e) => (0, Some(e)),
    };
    ReconcileReport { staged_count, unstaged_count, staging_error, unstaging_error }
}

/// A stage batch is issued only when it covers at least one path.
pub fn has_stage_batch(p: &ReconcilePlan) -> (r: bool)
    ensures
        r <==> p.to_stage@.len() > 0,
{
    p.to_stage.len() > 0
}

/// An unstage batch is issued only when it covers at least one path.
pub fn has_unstage_batch(p: &ReconcilePlan) -> (r: bool)
    ensures
        r <==> p.to_unstage@.len() > 0,
{
    p.to_unstage.len() > 0
}

/// The stage batch holds a path exactly when some entry with that path
/// must be staged.
pub proof fn lemma_stage_paths_membership(s: Seq<Entry>, p: String)
    ensures
        spec_stage_paths(s).contains(p) <==> exists|j: int|
            0 <= j < s.len() && spec_needs_stage(s[j]) && s[j].path == p,
    decreases s.len(),
{
    if s.len() == 0 {
        assert(!spec_stage_paths(s).contains(p));
    } else {
        lemma_stage_paths_membership(s.drop_last(), p);
        assert(forall|j: int| 0 <= j < s.len() - 1 ==> s.drop_last()[j] == s[j]);
        if exists|j: int| 0 <= j < s.len() && spec_needs_stage(s[j]) && s[j].path == p {
            let j = choose|j: int| 0 <= j < s.len() && spec_needs_stage(s[j]) && s[j].path == p;
            if j < s.len() - 1 {
                assert(spec_needs_stage(s.drop_last()[j]) && s.drop_last()[j].path == p);
            }
            assert(spec_stage_paths(s).contains(p));
        }
        if spec_stage_paths(s).contains(p) {
            if spec_stage_paths(s.drop_last()).contains(p) {
                let j = choose|j: int|
                    0 <= j < s.drop_last().len() && spec_needs_stage(s.drop_last()[j])
                        && s.drop_last()[j].path == p;
                assert(spec_needs_stage(s[j]) && s[j].path == p);
            } else {
                assert(spec_needs_stage(s.last()) && s.last().path == p);
                assert(s.last() == s[s.len() - 1]);
            }
        }
    }
}

/// The unstage batch holds a path exactly when some entry with that path
/// must be unstaged.
pub proof fn lemma_unstage_paths_membership(s: Seq<Entry>, p: String)
    ensures
        spec_unstage_paths(s).contains(p) <==> exists|j: int|
            0 <= j < s.len() && spec_needs_unstage(s[j]) && s[j].path == p,
    decreases s.len(),
{
    if s.len() == 0 {
        assert(!spec_unstage_paths(s).contains(p));
    } else {
        lemma_unstage_paths_membership(s.drop_last(), p);
        assert(forall|j: int| 0 <= j < s.len() - 1 ==> s.drop_last()[j] == s[j]);
        if exists|j: int| 0 <= j < s.len() && spec_needs_unstage(s[j]) && s[j].path == p {
            let j = choose|j: int| 0 <= j < s.len() && spec_needs_unstage(s[j]) && s[j].path == p;
            if j < s.len() - 1 {
                assert(spec_needs_unstage(s.drop_last()[j]) && s.drop_last()[j].path == p);
            }
            assert(spec_unstage_paths(s).contains(p));
        }
        if spec_unstage_paths(s).contains(p) {
            if spec_unstage_paths(s.drop_last()).contains(p) {
                let j = choose|j: int|
                    0 <= j < s.drop_last().len() && spec_needs_unstage(s.drop_last()[j])
                        && s.drop_last()[j].path == p;
                assert(spec_needs_unstage(s[j]) && s[j].path == p);
            } else {
                assert(spec_needs_unstage(s.last()) && s.last().path == p);
                assert(s.last() == s[s.len() - 1]);
            }
        }
    }
}

/// No backend operation is issued for an entry whose desired condition
/// equals its original one: its path reaches neither batch, however many
/// toggles netted out to no change.
pub proof fn lemma_unchanged_not_issued(s: Seq<Entry>, i: int)
    requires
        spec_unique_paths(s),
        0 <= i < s.len(),
        s[i].desired_staged == s[i].original_staged,
    ensures
        !spec_stage_paths(s).contains(s[i].path),
        !spec_unstage_paths(s).contains(s[i].path),
{
    lemma_stage_paths_membership(s, s[i].path);
    lemma_unstage_paths_membership(s, s[i].path);
    assert forall|j: int| 0 <= j < s.len() && s[j].path == s[i].path implies j == i by {
        if j != i {
            assert(s[i].path@ != s[j].path@);
        }
    }
}

/// A list in which no entry has a net change yields no batch at all: both
/// operation sequences are empty.
pub proof fn lemma_no_net_change_no_batches(s: Seq<Entry>)
    requires
        forall|i: int| 0 <= i < s.len() ==> s[i].desired_staged == s[i].original_staged,
    ensures
        spec_stage_paths(s) == Seq::<String>::empty(),
        spec_unstage_paths(s) == Seq::<String>::empty(),
    decreases s.len(),
{
    if s.len() > 0 {
        assert(forall|i: int|
            0 <= i < s.drop_last().len() ==> s.drop_last()[i] == s[i]);
        lemma_no_net_change_no_batches(s.drop_last());
        assert(!spec_needs_stage(s.last()));
        assert(!spec_needs_unstage(s.last()));
    }
}

/// A fresh load never issues an operation by itself: every entry built
/// from status rows starts with its desired condition equal to its
/// original one, so both batches are empty until the user toggles.
pub proof fn lemma_fresh_load_no_batches(rows: Seq<StatusRow>)
    ensures
        spec_stage_paths(spec_entries_of_rows(rows)) == Seq::<String>::empty(),
        spec_unstage_paths(spec_entries_of_rows(rows)) == Seq::<String>::empty(),
{
    let es = spec_entries_of_rows(rows);
    assert forall|i: int| 0 <= i < es.len() implies es[i].desired_staged
        == es[i].original_staged by {
        assert(es[i] == spec_entry_of_row(rows[i]));
    }
    lemma_no_net_change_no_batches(es);
}

/// The index set of entries the stage batch covers.
pub open spec fn spec_stage_set(s: Seq<Entry>) -> Set<int> {
    Set::new(|j: int| 0 <= j < s.len() && spec_needs_stage(s[j]))
}

/// The index set of entries the unstage batch covers.
pub open spec fn spec_unstage_set(s: Seq<Entry>) -> Set<int> {
    Set::new(|j: int| 0 <= j < s.len() && spec_needs_unstage(s[j]))
}

/// The index set of entries whose desired condition differs from the
/// original.
pub open spec fn spec_changed_set(s: Seq<Entry>) -> Set<int> {
    Set::new(|j: int| 0 <= j < s.len() && spec_changed(s[j]))
}

/// The two batches partition the changed entries: they are disjoint, and
/// together they cover exactly the entries whose desired condition differs
/// from the original.
pub proof fn lemma_partition(s: Seq<Entry>)
    ensures
        spec_stage_set(s).disjoint(spec_unstage_set(s)),
        spec_stage_set(s).union(spec_unstage_set(s)) == spec_changed_set(s),
{
    assert(spec_stage_set(s).union(spec_unstage_set(s)) =~= spec_changed_set(s));
}

} // verus!
