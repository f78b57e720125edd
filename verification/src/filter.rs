//! The filter table: a fixed-size demonstration grid with the same ordering,
//! selection and scroll mechanics as the log table, bound to a synthetic row
//! range instead of a backing source. Its click signal arrives twice per row
//! per pass, which the strict-inversion toggle makes harmless.
use vstd::prelude::*;

use crate::engine::RowPass;
use crate::engine::SelectionSet;
use crate::engine::plan_rows;
use crate::engine::row_pass_ok;
use crate::engine::spec_thick_row;
use crate::engine::spec_toggle;
use crate::log::RenderPass;

verus! {

/// Number of synthetic rows the filter table displays.
pub const NUM_MANUAL_ROWS: usize = 20;

/// State of the filter table instance. `checked` backs the per-row checkbox
/// column, a single flag that all rows share; it plays no part in
/// ordering, selection or scroll semantics.
pub struct FilterTable {
    pub striped: bool,
    pub resizable: bool,
    pub clickable: bool,
    pub scroll_to_row: Option<usize>,
    pub selection: SelectionSet,
    pub checked: bool,
    pub reversed: bool,
}

impl Default for FilterTable {
    /// A fresh table: forward order, empty selection, no pending scroll
    /// target, checkbox off, all presentation flags on.
    fn default() -> (t: FilterTable)
        ensures
            t.striped,
            t.resizable,
            t.clickable,
            t.scroll_to_row is None,
            t.selection@ == Set::<usize>::empty(),
            !t.checked,
            !t.reversed,
    {
        FilterTable {
            striped: true,
            resizable: true,
            clickable: true,
            scroll_to_row: None,
            selection: SelectionSet::new(),
            checked: false,
            reversed: false,
        }
    }
}

/// The full effect of one filter table render pass: the pending scroll
/// target is handed out and cleared unconditionally, no other state changes,
/// and the rows cover logical positions `0..NUM_MANUAL_ROWS` in ascending
/// order, mapped through the row order policy from the pre-state.
pub open spec fn filter_render_rel(pre: FilterTable, post: FilterTable, pass: RenderPass) -> bool {
    &&& pass.scroll == pre.scroll_to_row
    &&& post.scroll_to_row is None
    &&& post.selection == pre.selection
    &&& post.reversed == pre.reversed
    &&& post.striped == pre.striped
    &&& post.resizable == pre.resizable
    &&& post.clickable == pre.clickable
    &&& post.checked == pre.checked
    &&& pass.rows.len() == NUM_MANUAL_ROWS
    &&& forall|i: int|
        0 <= i < pass.rows.len() ==> row_pass_ok(
            pass.rows[i],
            i,
            pre.reversed,
            NUM_MANUAL_ROWS as int,
            pre.selection@,
        )
}

/// The effect of delivering one row's click signal to the filter table: if
/// clicked, membership of that row strictly inverts; nothing else changes.
pub open spec fn filter_toggle_click_rel(
    pre: FilterTable,
    post: FilterTable,
    row_index: usize,
    clicked: bool,
) -> bool {
    &&& post.selection@ == if clicked {
        spec_toggle(pre.selection@, row_index)
    } else {
        pre.selection@
    }
    &&& post.scroll_to_row == pre.scroll_to_row
    &&& post.reversed == pre.reversed
    &&& post.striped == pre.striped
    &&& post.resizable == pre.resizable
    &&& post.clickable == pre.clickable
    &&& post.checked == pre.checked
}

/// The effect of the header's direction control on the filter table.
pub open spec fn filter_flip_rel(pre: FilterTable, post: FilterTable, activated: bool) -> bool {
    &&& post.reversed == if activated {
        !pre.reversed
    } else {
        pre.reversed
    }
    &&& post.selection == pre.selection
    &&& post.scroll_to_row == pre.scroll_to_row
    &&& post.striped == pre.striped
    &&& post.resizable == pre.resizable
    &&& post.clickable == pre.clickable
    &&& post.checked == pre.checked
}

impl FilterTable {
    /// One draw pass over the synthetic row range: consumes the scroll
    /// target and plans rows for logical positions `0..NUM_MANUAL_ROWS`.
    pub fn render(&mut self) -> (pass: RenderPass)
        ensures
            filter_render_rel(*old(self), *final(self), pass),
    {
        let scroll = self.scroll_to_row;
        self.scroll_to_row = None;
        let rows = plan_rows(0, NUM_MANUAL_ROWS, self.reversed, &self.selection);
        RenderPass { scroll, rows }
    }

    /// Delivers the click signal collected for one row of the current pass.
    /// This table's click signal arrives twice per clicked row; strict
    /// inversion makes the doubled pair restore the selection rather than
    /// corrupt it.
    pub fn toggle_row_selection(&mut self, row_index: usize, clicked: bool)
        ensures
            filter_toggle_click_rel(*old(self), *final(self), row_index, clicked),
    {
        if clicked {
            self.selection.toggle(row_index);
        }
    }

    /// Delivers the header direction control's signal: the flip takes effect
    /// on the next pass, never mid-pass.
    pub fn toggle_direction(&mut self, activated: bool)
        ensures
            filter_flip_rel(*old(self), *final(self), activated),
    {
        if activated {
            self.reversed = !self.reversed;
        }
    }

    /// Records the shared checkbox state collected from the pass.
    pub fn set_checked(&mut self, value: bool)
        ensures
            final(self).checked == value,
            final(self).selection == old(self).selection,
            final(self).scroll_to_row == old(self).scroll_to_row,
            final(self).reversed == old(self).reversed,
            final(self).striped == old(self).striped,
            final(self).resizable == old(self).resizable,
            final(self).clickable == old(self).clickable,
    {
        self.checked = value;
    }
}

/// Row weight of one filter row: "thick" exactly when the physical index is
/// a multiple of six, whatever the sort direction.
pub fn thick_row(row_index: usize) -> (r: bool)
    ensures
        r == spec_thick_row(row_index as int),
{
    row_index % 6 == 0
}

} // verus!
