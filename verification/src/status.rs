//! Status loading: classifying raw status flags and building the entry list.

use vstd::prelude::*;

verus! {

/// One version-controlled path with a pending status change.
///
/// `original_staged` records whether the change was fully staged at load
/// time; `desired_staged` starts equal to it and is flipped by user toggles.
pub struct Entry {
    pub path: String,
    pub original_staged: bool,
    pub desired_staged: bool,
}

/// Raw classification flags for one path, as reported by the
/// version-control backend's status query.
pub struct StatusRow {
    pub path: String,
    pub index_new: bool,
    pub index_modified: bool,
    pub wt_modified: bool,
}

/// Why a load produced no entry list.
#[derive(Debug)]
pub enum LoadError {
    /// The working directory is not inside a repository.
    NotARepository,
    /// The backend's status query failed; carries its message.
    QueryFailed(String),
    /// The query succeeded but nothing differs: a normal condition,
    /// not a failure.
    NoChanges,
}

/// A path counts as staged when its change is recorded in the index and no
/// further working-tree modification sits on top of it.
pub open spec fn spec_classify(index_new: bool, index_modified: bool, wt_modified: bool) -> bool {
    (index_new || index_modified) && !wt_modified
}

/// The entry a status row gives rise to: `desired_staged` starts out equal
/// to `original_staged`.
pub open spec fn spec_entry_of_row(row: StatusRow) -> Entry {
    Entry {
        path: row.path,
        original_staged: spec_classify(row.index_new, row.index_modified, row.wt_modified),
        desired_staged: spec_classify(row.index_new, row.index_modified, row.wt_modified),
    }
}

/// The whole entry list a sequence of status rows gives rise to, in order.
pub open spec fn spec_entries_of_rows(rows: Seq<StatusRow>) -> Seq<Entry> {
    rows.map_values(|row: StatusRow| spec_entry_of_row(row))
}

/// Classify one path's flags: staged if recorded in the index (new or
/// modified) and not further modified in the working tree.
pub fn classify_staged(index_new: bool, index_modified: bool, wt_modified: bool) -> (r: bool)
    ensures
        r == spec_classify(index_new, index_modified, wt_modified),
{
    (index_new || index_modified) && !wt_modified
}

/// Build the entry list from the backend's status rows. An empty query
/// result is reported as `LoadError::NoChanges`; otherwise every row yields
/// exactly one entry, in the order the rows were given, with
/// `desired_staged` initialized equal to `original_staged`.
pub fn build_entries(rows: Vec<StatusRow>) -> (r: Result<Vec<Entry>, LoadError>)
    ensures
        rows@.len() == 0 <==> r matches Err(LoadError::NoChanges),
        rows@.len() > 0 ==> (r matches Ok(es) && es@ == spec_entries_of_rows(rows@)),
{
    if rows.len() == 0 {
        return Err(LoadError::NoChanges);
    }
    let mut entries: Vec<Entry> = Vec::new();
    let mut i: usize = 0;
    while i < rows.len()
        invariant
            i <= rows@.len(),
            entries@ == spec_entries_of_rows(rows@.take(i as int)),
        decreases rows@.len() - i,
    {
        let staged = classify_staged(rows[i].index_new, rows[i].index_modified, rows[i].wt_modified);
        let path = rows[i].path.clone();
        entries.push(Entry { path, original_staged: staged, desired_staged: staged });
        proof {
            assert(rows@.take(i + 1).drop_last() =~= rows@.take(i as int));
            assert(entries@ =~= spec_entries_of_rows(rows@.take(i + 1)));
        }
        i = i + 1;
    }
    proof {
        assert(rows@.take(rows@.len() as int) =~= rows@);
        assert(entries@ =~= spec_entries_of_rows(rows@));
    }
    Ok(entries)
}

} // verus!
