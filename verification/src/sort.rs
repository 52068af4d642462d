//! Sort-state bookkeeping for column headers.
//!
//! Each column cycles `Unsorted -> Ascending -> Descending -> Unsorted` on
//! successive header clicks. Columns sorted at the same time carry a dense,
//! gapless priority ranking: rank 0 is the primary sort column, and removing
//! a column's sort closes the gap in the remaining ranks. The state is the
//! ordered list of `(column, direction)` pairs, primary first, so a column's
//! priority is its position in the list.

use vstd::prelude::*;

verus! {

/// Sort direction of one column.
#[derive(Clone, Copy, Debug, PartialEq, Eq, Structural)]
pub enum ColumnSort {
    /// The column takes no part in sorting.
    Unsorted,
    Ascending,
    Descending,
}

/// Event emitted when a table head cell is clicked. It carries the column
/// index (starting at 0 for the first column) and the column value itself;
/// the pointer-event payload of the originating framework stays outside this
/// core.
pub struct TableHeadEvent<C> {
    /// The index of the column. Starts at 0 for the first column.
    pub index: usize,
    /// The column value.
    pub column: C,
}

/// An entry of the sort state: one sorted column and its direction.
pub type SortEntry = (usize, ColumnSort);

/// Every listed column carries a real direction, and no column is listed
/// twice.
pub open spec fn sort_seq_wf(s: Seq<SortEntry>) -> bool {
    &&& forall|i: int| 0 <= i < s.len() ==> (#[trigger] s[i]).1 != ColumnSort::Unsorted
    &&& forall|i: int, j: int| 0 <= i < j < s.len() ==> (#[trigger] s[i]).0 != (#[trigger] s[j]).0
}

/// One header click on `column`, on the ordered list of sorted columns:
/// an unsorted column enters at the lowest priority as `Ascending`; an
/// ascending column turns `Descending` in place; a descending column leaves
/// the list, shifting every lower-priority column up by one rank.
pub open spec fn spec_header_click(s: Seq<SortEntry>, column: usize) -> Seq<SortEntry> {
    if forall|i: int| 0 <= i < s.len() ==> (#[trigger] s[i]).0 != column {
        s.push((column, ColumnSort::Ascending))
    } else {
        let p = choose|p: int| 0 <= p < s.len() && (#[trigger] s[p]).0 == column;
        if s[p].1 == ColumnSort::Ascending {
            s.update(p, (column, ColumnSort::Descending))
        } else {
            s.remove(p)
        }
    }
}

/// Per-column sort directions with a global priority ordering, updated only
/// by column-header click events.
#[derive(Clone, Debug)]
pub struct SortState {
    order: Vec<SortEntry>,
}

impl SortState {
    /// The state's invariant: see [`sort_seq_wf`].
    pub closed spec fn wf(&self) -> bool {
        sort_seq_wf(self.order@)
    }

    /// The ordered list of `(column, direction)` pairs, primary first.
    pub closed spec fn spec_order(&self) -> Seq<SortEntry> {
        self.order@
    }

    /// A fresh state: no column sorted.
    pub fn new() -> (s: Self)
        ensures
            s.wf(),
            s.spec_order() == Seq::<SortEntry>::empty(),
    {
        SortState { order: Vec::new() }
    }

    /// The sorted columns in priority order, for consumers that apply them
    /// lexicographically: compare by the first pair's column, break ties with
    /// the next, and so on.
    pub fn order(&self) -> (r: &Vec<SortEntry>)
        ensures
            r@ == self.spec_order(),
    {
        &self.order
    }

    /// Position of `column` in the priority ordering: `Some(0)` means it is
    /// the primary sort column, `None` that it is not sorted.
    pub fn sort_priority(&self, column: usize) -> (r: Option<usize>)
        requires
            self.wf(),
        ensures
            match r {
                Some(p) => p < self.spec_order().len() && self.spec_order()[p as int].0 == column,
                None => forall|i: int|
                    0 <= i < self.spec_order().len() ==> (#[trigger] self.spec_order()[i]).0
                        != column,
            },
    {
        let mut i: usize = 0;
        while i < self.order.len()
            invariant
                i <= self.order@.len(),
                forall|j: int| 0 <= j < i ==> (#[trigger] self.order@[j]).0 != column,
            decreases self.order@.len() - i,
        {
            if self.order[i].0 == column {
                return Some(i);
            }
            i += 1;
        }
        None
    }

    /// Sort direction of `column`: `Unsorted` when it is not listed.
    pub fn sort_direction(&self, column: usize) -> (r: ColumnSort)
        requires
            self.wf(),
        ensures
            forall|i: int|
                0 <= i < self.spec_order().len() && (#[trigger] self.spec_order()[i]).0 == column
                    ==> r == self.spec_order()[i].1,
            (forall|i: int|
                0 <= i < self.spec_order().len() ==> (#[trigger] self.spec_order()[i]).0 != column)
                ==> r == ColumnSort::Unsorted,
    {
        match self.sort_priority(column) {
            Some(p) => self.order[p].1,
            None => ColumnSort::Unsorted,
        }
    }

    /// Advance `column` one step in its click cycle, per
    /// [`spec_header_click`]. The sole trigger for sort-state transitions.
    pub fn click_column(&mut self, column: usize)
        requires
            old(self).wf(),
        ensures
            final(self).wf(),
            final(self).spec_order() == spec_header_click(old(self).spec_order(), column),
    {
        let ghost s0 = self.order@;
        match self.sort_priority(column) {
            Some(p) => {
                proof {
                    let q = choose|q: int| 0 <= q < s0.len() && (#[trigger] s0[q]).0 == column;
                    assert(s0[q] == s0[p as int]);
                }
                if self.order[p].1 == ColumnSort::Ascending {
                    self.order[p] = (column, ColumnSort::Descending);
                } else {
                    self.order.remove(p);
                    proof {
                        lemma_sort_seq_wf_remove(s0, p as int);
                    }
                }
            },
            None => {
                self.order.push((column, ColumnSort::Ascending));
            },
        }
    }

    /// A well-formed state's order list satisfies [`sort_seq_wf`], so the
    /// lemmas stated over plain sequences, such as [`lemma_sort_cycle`],
    /// apply to a real state's [`Self::spec_order`].
    pub proof fn lemma_wf_order(&self)
        requires
            self.wf(),
        ensures
            sort_seq_wf(self.spec_order()),
    {
    }

    /// Handle a header click event: advance the event's column one step in
    /// its click cycle.
    pub fn handle_event<C>(&mut self, event: &TableHeadEvent<C>)
        requires
            old(self).wf(),
        ensures
            final(self).wf(),
            final(self).spec_order() == spec_header_click(old(self).spec_order(), event.index),
    {
        self.click_column(event.index);
    }
}

/// The sort indicator icon a header cell shows for a direction: an up arrow
/// for ascending, a down arrow for descending, nothing for an unsorted
/// column.
pub fn sort_icon(direction: ColumnSort) -> (r: &'static str)
    ensures
        direction == ColumnSort::Ascending ==> r@ == "\u{25b2}"@,
        direction == ColumnSort::Descending ==> r@ == "\u{25bc}"@,
        direction == ColumnSort::Unsorted ==> r@ == ""@,
{
    match direction {
        ColumnSort::Ascending => "\u{25b2}",
        ColumnSort::Descending => "\u{25bc}",
        ColumnSort::Unsorted => "",
    }
}

/// Removing an entry keeps the state invariant.
proof fn lemma_sort_seq_wf_remove(s: Seq<SortEntry>, p: int)
    requires
        sort_seq_wf(s),
        0 <= p < s.len(),
    ensures
        sort_seq_wf(s.remove(p)),
{
    let r = s.remove(p);
    assert forall|i: int, j: int| 0 <= i < j < r.len() implies (#[trigger] r[i]).0 != (
    #[trigger] r[j]).0 by {
        let i0 = if i < p {
            i
        } else {
            i + 1
        };
        let j0 = if j < p {
            j
        } else {
            j + 1
        };
        assert(r[i] == s[i0] && r[j] == s[j0]);
    }
}

/// Three successive header clicks on one column, starting from any state
/// where that column is unsorted, visit `Ascending` then `Descending` and
/// finally return the column to `Unsorted`, restoring the state exactly: the
/// column enters at priority equal to the number of already-sorted columns
/// (priority 0 on an empty state), keeps it while `Descending`, and vacates
/// it on leaving, shifting higher ranks back down.
pub proof fn lemma_sort_cycle(s: Seq<SortEntry>, column: usize)
    requires
        sort_seq_wf(s),
        forall|i: int| 0 <= i < s.len() ==> (#[trigger] s[i]).0 != column,
    ensures
        ({
            let s1 = spec_header_click(s, column);
            let s2 = spec_header_click(s1, column);
            let s3 = spec_header_click(s2, column);
            &&& s1 == s.push((column, ColumnSort::Ascending))
            &&& s1[s.len() as int] == (column, ColumnSort::Ascending)
            &&& s2 == s.push((column, ColumnSort::Descending))
            &&& s2[s.len() as int] == (column, ColumnSort::Descending)
            &&& s3 == s
        }),
{
    let s1 = spec_header_click(s, column);
    assert(s1 == s.push((column, ColumnSort::Ascending)));
    let n = s.len() as int;
    assert(s1[n].0 == column);
    let s2 = spec_header_click(s1, column);
    let p1 = choose|p: int| 0 <= p < s1.len() && (#[trigger] s1[p]).0 == column;
    assert(p1 == n);
    assert(s2 =~= s.push((column, ColumnSort::Descending)));
    let s3 = spec_header_click(s2, column);
    assert(s2[n].0 == column);
    let p2 = choose|p: int| 0 <= p < s2.len() && (#[trigger] s2[p]).0 == column;
    assert(p2 == n);
    assert(s3 =~= s);
}

} // verus!
