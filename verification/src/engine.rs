//! The shared table view engine: row order policy, selection set keyed by
//! physical row index, row weight classification, and the per-frame row plan.
use vstd::prelude::*;
use std::collections::HashSet;

verus! {

broadcast use vstd::std_specs::hash::group_hash_axioms;

/// Row order policy: the physical index (position in the immutable backing
/// data) shown at a given logical position of the current display order.
pub open spec fn spec_physical_index(logical: int, reversed: bool, total: int) -> int {
    if reversed {
        total - 1 - logical
    } else {
        logical
    }
}

/// Maps a logical display position to the physical row index, honouring the
/// current sort direction. Total over `0 <= logical < total_rows`; the
/// iteration driver owns that guard, so reversal never underflows.
pub fn physical_index(logical: usize, reversed: bool, total_rows: usize) -> (r: usize)
    requires
        logical < total_rows,
    ensures
        r == spec_physical_index(logical as int, reversed, total_rows as int),
        r < total_rows,
{
    if reversed {
        total_rows - 1 - logical
    } else {
        logical
    }
}

/// Order inverse law: at any logical position the forward and the reversed
/// order read physical indices that mirror each other across the row range.
pub proof fn lemma_order_inverse(i: int, total: int)
    requires
        total > 0,
        0 <= i < total,
    ensures
        spec_physical_index(i, false, total) == total - 1 - spec_physical_index(i, true, total),
{
}

/// Row weight classification: every sixth physical row renders "thick"
/// (taller); all others render normal. A function of the physical index
/// alone, so the sort direction cannot change a row's weight.
pub open spec fn spec_thick_row(physical: int) -> bool {
    physical % 6 == 0
}

/// The selection after toggling one physical index: membership of that index
/// strictly inverts, no other index is touched.
pub open spec fn spec_toggle(s: Set<usize>, p: usize) -> Set<usize> {
    if s.contains(p) {
        s.remove(p)
    } else {
        s.insert(p)
    }
}

/// Toggle idempotent pair law: toggling the same physical index twice in
/// succession restores the selection exactly, so a doubled toggle per click
/// is harmless.
pub proof fn lemma_toggle_twice(s: Set<usize>, p: usize)
    ensures
        spec_toggle(spec_toggle(s, p), p) == s,
{
    assert(spec_toggle(spec_toggle(s, p), p) =~= s);
}

/// Toggling inverts membership of the toggled index and leaves every other
/// index as it was.
pub proof fn lemma_toggle_membership(s: Set<usize>, p: usize, q: usize)
    ensures
        spec_toggle(s, p).contains(p) == !s.contains(p),
        p != q ==> spec_toggle(s, p).contains(q) == s.contains(q),
{
}

/// The set of physical row indices currently selected. Selection is keyed by
/// physical index only, never by logical position, so flipping the sort
/// direction cannot reassign a selection to a different row.
pub struct SelectionSet {
    items: HashSet<usize>,
}

impl View for SelectionSet {
    type V = Set<usize>;

    closed spec fn view(&self) -> Set<usize> {
        self.items@
    }
}

impl SelectionSet {
    /// An empty selection.
    pub fn new() -> (s: SelectionSet)
        ensures
            s@ == Set::<usize>::empty(),
    {
        SelectionSet { items: HashSet::new() }
    }

    /// Whether the given physical index is currently selected.
    pub fn contains(&self, p: usize) -> (r: bool)
        ensures
            r == self@.contains(p),
    {
        self.items.contains(&p)
    }

    /// Strictly inverts membership of `p`: absent becomes present, present
    /// becomes absent. The only operation that mutates a selection.
    pub fn toggle(&mut self, p: usize)
        ensures
            final(self)@ == spec_toggle(old(self)@, p),
    {
        if self.items.contains(&p) {
            self.items.remove(&p);
        } else {
            self.items.insert(p);
        }
    }
}

/// What one row of a render pass asks of the drawing surface: which physical
/// row to draw, whether to mark it selected, and whether it renders thick.
pub struct RowPass {
    pub physical: usize,
    pub selected: bool,
    pub thick: bool,
}

/// The row at one logical position of a pass: physical index from the order
/// policy, selected flag read from the selection, weight from the physical
/// index alone.
pub open spec fn row_pass_ok(
    row: RowPass,
    logical: int,
    reversed: bool,
    total: int,
    sel: Set<usize>,
) -> bool {
    &&& row.physical == spec_physical_index(logical, reversed, total)
    &&& row.selected == sel.contains(row.physical)
    &&& row.thick == spec_thick_row(row.physical as int)
}

/// Builds the row plan of one draw pass: logical positions `start..total` in
/// ascending order, each mapped through the row order policy and annotated
/// with its selected flag and weight. An empty range yields no rows.
pub fn plan_rows(start: usize, total: usize, reversed: bool, selection: &SelectionSet) -> (rows:
    Vec<RowPass>)
    ensures
        rows@.len() == if start <= total {
            total - start
        } else {
            0
        },
        forall|i: int|
            0 <= i < rows@.len() ==> row_pass_ok(
                rows@[i],
                start + i,
                reversed,
                total as int,
                selection@,
            ),
{
    let mut rows: Vec<RowPass> = Vec::new();
    let mut logical: usize = start;
    while logical < total
        invariant
            start <= logical,
            logical <= total || logical == start,
            rows@.len() == if start <= total {
                logical - start
            } else {
                0
            },
            forall|i: int|
                0 <= i < rows@.len() ==> row_pass_ok(
                    rows@[i],
                    start + i,
                    reversed,
                    total as int,
                    selection@,
                ),
        decreases total - logical,
    {
        let physical = physical_index(logical, reversed, total);
        let selected = selection.contains(physical);
        let thick = physical % 6 == 0;
        rows.push(RowPass { physical, selected, thick });
        logical = logical + 1;
    }
    rows
}

} // verus!
