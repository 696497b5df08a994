//! The selection model: a cursor over the loaded entries, moved and toggled
//! one input event at a time.

use vstd::prelude::*;
use crate::status::Entry;

verus! {

/// A cursor movement request.
#[derive(PartialEq, Eq, Structural, Clone, Copy, Debug)]
pub enum Direction {
    Up,
    Down,
}

/// One discrete input event driving the interaction loop.
#[derive(PartialEq, Eq, Structural, Clone, Copy, Debug)]
pub enum Event {
    Up,
    Down,
    Toggle,
    Confirm,
    Quit,
    Other,
}

/// What the loop should do after an event has been handled.
#[derive(PartialEq, Eq, Structural, Clone, Copy, Debug)]
pub enum Step {
    /// Keep reading events.
    Continue,
    /// The user confirmed: hand the entries to the reconciler.
    Finished,
    /// The user quit: leave the repository untouched.
    Cancelled,
}

/// The in-memory list of entries plus the cursor, exclusively owned by the
/// interaction loop. Membership and order of the list never change after
/// load; only `desired_staged` fields and the cursor move.
pub struct SelectionModel {
    pub entries: Vec<Entry>,
    pub cursor: usize,
}

/// Where the cursor lands after moving up: clamped at the first index.
pub open spec fn spec_cursor_up(c: int) -> int {
    if c == 0 {
        0
    } else {
        c - 1
    }
}

/// Where the cursor lands after moving down: clamped at the last index.
pub open spec fn spec_cursor_down(c: int, len: int) -> int {
    if c + 1 < len {
        c + 1
    } else {
        c
    }
}

/// The entry list with the entry at `i` toggled: `desired_staged` flipped,
/// everything else unchanged.
pub open spec fn spec_toggle_at(s: Seq<Entry>, i: int) -> Seq<Entry> {
    s.update(
        i,
        Entry {
            path: s[i].path,
            original_staged: s[i].original_staged,
            desired_staged: !s[i].desired_staged,
        },
    )
}

/// The entry list after `n` successive toggles of the entry at `i`.
pub open spec fn spec_toggle_n(s: Seq<Entry>, i: int, n: nat) -> Seq<Entry>
    decreases n,
{
    if n == 0 {
        s
    } else {
        spec_toggle_at(spec_toggle_n(s, i, (n - 1) as nat), i)
    }
}

impl SelectionModel {
    /// Well-formed: the list is non-empty and the cursor is in range.
    pub open spec fn wf(self) -> bool {
        self.entries@.len() > 0 && self.cursor < self.entries@.len()
    }

    /// Start the interaction at the top of a non-empty entry list.
    pub fn new(entries: Vec<Entry>) -> (m: SelectionModel)
        requires
            entries@.len() > 0,
        ensures
            m.wf(),
            m.entries@ == entries@,
            m.cursor == 0,
    {
        SelectionModel { entries, cursor: 0 }
    }

    /// Move the cursor one step, clamped at both ends: moving up at the
    /// first index or down at the last index does nothing. Entries are
    /// untouched.
    pub fn move_cursor(&mut self, dir: Direction)
        requires
            old(self).wf(),
        ensures
            final(self).wf(),
            final(self).entries@ == old(self).entries@,
            dir == Direction::Up ==> final(self).cursor == spec_cursor_up(old(self).cursor as int),
            dir == Direction::Down ==> final(self).cursor == spec_cursor_down(
                old(self).cursor as int,
                old(self).entries@.len() as int,
            ),
    {
        match dir {
            Direction::Up => {
                if self.cursor > 0 {
                    self.cursor = self.cursor - 1;
                }
            },
            Direction::Down => {
                if self.cursor < self.entries.len() - 1 {
                    self.cursor = self.cursor + 1;
                }
            },
        }
    }

    /// Flip `desired_staged` on the entry under the cursor, and on that
    /// entry only. Cursor, paths and original flags are untouched.
    pub fn toggle_current(&mut self)
        requires
            old(self).wf(),
        ensures
            final(self).wf(),
            final(self).cursor == old(self).cursor,
            final(self).entries@ == spec_toggle_at(old(self).entries@, old(self).cursor as int),
    {
        let i = self.cursor;
        let e = &mut self.entries[i];
        e.desired_staged = !e.desired_staged;
        proof {
            assert(self.entries@ =~= spec_toggle_at(old(self).entries@, old(self).cursor as int));
        }
    }

    /// Handle one input event: Up and Down move the cursor (clamped),
    /// Toggle flips the entry under the cursor, Confirm and Quit end the
    /// loop, anything else is ignored.
    pub fn handle_event(&mut self, ev: Event) -> (s: Step)
        requires
            old(self).wf(),
        ensures
            final(self).wf(),
            ev == Event::Up ==> final(self).entries@ == old(self).entries@ && final(self).cursor
                == spec_cursor_up(old(self).cursor as int) && s == Step::Continue,
            ev == Event::Down ==> final(self).entries@ == old(self).entries@ && final(self).cursor
                == spec_cursor_down(old(self).cursor as int, old(self).entries@.len() as int)
                && s == Step::Continue,
            ev == Event::Toggle ==> final(self).entries@ == spec_toggle_at(
                old(self).entries@,
                old(self).cursor as int,
            ) && final(self).cursor == old(self).cursor && s == Step::Continue,
            ev == Event::Confirm ==> *final(self) == *old(self) && s == Step::Finished,
            ev == Event::Quit ==> *final(self) == *old(self) && s == Step::Cancelled,
            ev == Event::Other ==> *final(self) == *old(self) && s == Step::Continue,
    {
        match ev {
            Event::Up => {
                self.move_cursor(Direction::Up);
                Step::Continue
            },
            Event::Down => {
                self.move_cursor(Direction::Down);
                Step::Continue
            },
            Event::Toggle => {
                self.toggle_current();
                Step::Continue
            },
            Event::Confirm => Step::Finished,
            Event::Quit => Step::Cancelled,
            Event::Other => Step::Continue,
        }
    }
}

/// Toggling the same entry twice returns the list to what it was.
pub proof fn lemma_double_toggle(s: Seq<Entry>, i: int)
    requires
        0 <= i < s.len(),
    ensures
        spec_toggle_at(spec_toggle_at(s, i), i) == s,
{
    assert(spec_toggle_at(spec_toggle_at(s, i), i) =~= s);
}

/// Idempotence of double-toggle, generalized: any even number of toggles of
/// one entry returns `desired_staged` to its original value, and any odd
/// number flips it.
pub proof fn lemma_toggle_parity(s: Seq<Entry>, i: int, n: nat)
    requires
        0 <= i < s.len(),
    ensures
        n % 2 == 0 ==> spec_toggle_n(s, i, n) == s,
        n % 2 == 1 ==> spec_toggle_n(s, i, n) == spec_toggle_at(s, i),
    decreases n,
{
    if n == 1 {
        assert(spec_toggle_n(s, i, 1) == spec_toggle_at(spec_toggle_n(s, i, 0), i));
        assert(spec_toggle_n(s, i, 0) == s);
    }
    if n >= 2 {
        lemma_toggle_parity(s, i, (n - 2) as nat);
        let t = spec_toggle_n(s, i, (n - 2) as nat);
        assert(t.len() == s.len());
        lemma_double_toggle(t, i);
        assert(spec_toggle_n(s, i, n) == spec_toggle_at(spec_toggle_n(s, i, (n - 1) as nat), i));
        assert(spec_toggle_n(s, i, (n - 1) as nat) == spec_toggle_at(t, i));
    }
}

} // verus!
