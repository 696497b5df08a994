//! Pure projection of the selection model into display rows. The rendering
//! collaborator repaints from these; nothing here mutates the model.

use vstd::prelude::*;
use vstd::string::StringExecFns;
use crate::model::SelectionModel;

verus! {

/// One display row of the selection view: what the renderer needs to paint
/// a line, and nothing more.
pub struct RenderRow {
    pub path: String,
    pub desired_staged: bool,
    pub is_cursor: bool,
}

/// The text of one display row: a cursor marker on both sides of the line
/// when the row is under the cursor, and a checkbox that is checked when
/// the entry is to be staged.
pub open spec fn spec_row_text(path: Seq<char>, desired_staged: bool, is_cursor: bool) -> Seq<char> {
    (if is_cursor {
        ">"@
    } else {
        " "@
    }) + "["@ + (if desired_staged {
        "x"@
    } else {
        " "@
    }) + "] "@ + path + (if is_cursor {
        "<"@
    } else {
        " "@
    })
}

impl SelectionModel {
    /// Project the model into one row per entry, in list order: each row
    /// carries the entry's path, its desired condition, and whether the
    /// cursor stands on it. Pure: the model is not mutated.
    pub fn snapshot_for_render(&self) -> (r: Vec<RenderRow>)
        ensures
            r@.len() == self.entries@.len(),
            forall|i: int|
                0 <= i < r@.len() ==> r@[i].path == self.entries@[i].path && r@[i].desired_staged
                    == self.entries@[i].desired_staged && (r@[i].is_cursor <==> i
                    == self.cursor as int),
    {
        let mut rows: Vec<RenderRow> = Vec::new();
        let mut i: usize = 0;
        while i < self.entries.len()
            invariant
                i <= self.entries@.len(),
                rows@.len() == i,
                forall|k: int|
                    0 <= k < i ==> rows@[k].path == self.entries@[k].path
                        && rows@[k].desired_staged == self.entries@[k].desired_staged
                        && (rows@[k].is_cursor <==> k == self.cursor as int),
            decreases self.entries@.len() - i,
        {
            rows.push(
                RenderRow {
                    path: self.entries[i].path.clone(),
                    desired_staged: self.entries[i].desired_staged,
                    is_cursor: i == self.cursor,
                },
            );
            i = i + 1;
        }
        rows
    }
}

/// Format one display row. A row under the cursor reads `>[x] path<`; one
/// elsewhere replaces the markers with spaces; the checkbox is `x` exactly
/// when the entry is to be staged.
pub fn render_row(row: &RenderRow) -> (r: String)
    ensures
        r@ == spec_row_text(row.path@, row.desired_staged, row.is_cursor),
{
    let mut s = String::new();
    if row.is_cursor {
        s.append(">");
    } else {
        s.append(" ");
    }
    s.append("[");
    if row.desired_staged {
        s.append("x");
    } else {
        s.append(" ");
    }
    s.append("] ");
    s.append(row.path.as_str());
    if row.is_cursor {
        s.append("<");
    } else {
        s.append(" ");
    }
    proof {
        assert(s@ =~= spec_row_text(row.path@, row.desired_staged, row.is_cursor));
    }
    s
}

} // verus!
