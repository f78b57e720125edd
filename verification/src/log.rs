//! The log table: a view over the backing sequence of text lines. Its
//! display range is logical positions `1..total` — position zero is never
//! listed, so a singleton source shows nothing — optionally reversed, with a
//! selection keyed by physical index and a one-shot scroll target fed by a
//! "go to line" input.
use vstd::prelude::*;

use crate::engine::RowPass;
use crate::engine::SelectionSet;
use crate::engine::physical_index;
use crate::engine::plan_rows;
use crate::engine::row_pass_ok;
use crate::engine::spec_physical_index;
use crate::engine::spec_thick_row;
use crate::engine::spec_toggle;

verus! {

/// State of one log table instance. Presentation flags do not affect
/// ordering, selection or scroll semantics; `reversed` is the order state;
/// `scroll_to_row` is the pending one-shot scroll target.
pub struct LogTable {
    pub striped: bool,
    pub resizable: bool,
    pub clickable: bool,
    pub scroll_to_row_slider: usize,
    pub scroll_to_row: Option<usize>,
    pub selection: SelectionSet,
    pub reversed: bool,
}

impl Default for LogTable {
    /// A fresh table: forward order, empty selection, no pending scroll
    /// target, all presentation flags on.
    fn default() -> (t: LogTable)
        ensures
            t.striped,
            t.resizable,
            t.clickable,
            t.scroll_to_row_slider == 0,
            t.scroll_to_row is None,
            t.selection@ == Set::<usize>::empty(),
            !t.reversed,
    {
        LogTable {
            striped: true,
            resizable: true,
            clickable: true,
            scroll_to_row_slider: 0,
            scroll_to_row: None,
            selection: SelectionSet::new(),
            reversed: false,
        }
    }
}

/// What one render pass hands the drawing surface: the consumed scroll
/// target, if one was pending, and the ordered row plan.
pub struct RenderPass {
    pub scroll: Option<usize>,
    pub rows: Vec<RowPass>,
}

/// The full effect of one log table render pass: the pending scroll target is
/// handed out and cleared unconditionally, no other state changes, and the
/// rows cover logical positions `1..total` in ascending order, each mapped
/// through the row order policy and annotated from the pre-state.
pub open spec fn log_render_rel(pre: LogTable, post: LogTable, pass: RenderPass, total: int) -> bool {
    &&& pass.scroll == pre.scroll_to_row
    &&& post.scroll_to_row is None
    &&& post.selection == pre.selection
    &&& post.reversed == pre.reversed
    &&& post.striped == pre.striped
    &&& post.resizable == pre.resizable
    &&& post.clickable == pre.clickable
    &&& post.scroll_to_row_slider == pre.scroll_to_row_slider
    &&& pass.rows.len() == if 1 <= total {
        total - 1
    } else {
        0
    }
    &&& forall|i: int|
        0 <= i < pass.rows.len() ==> row_pass_ok(pass.rows[i], 1 + i, pre.reversed, total, pre.selection@)
}

/// The effect of delivering one row's click signal: if the row was clicked
/// its membership in the selection strictly inverts, otherwise nothing
/// changes; no other state is touched either way.
pub open spec fn toggle_click_rel(pre: LogTable, post: LogTable, row_index: usize, clicked: bool) -> bool {
    &&& post.selection@ == if clicked {
        spec_toggle(pre.selection@, row_index)
    } else {
        pre.selection@
    }
    &&& post.scroll_to_row == pre.scroll_to_row
    &&& post.reversed == pre.reversed
    &&& post.striped == pre.striped
    &&& post.resizable == pre.resizable
    &&& post.clickable == pre.clickable
    &&& post.scroll_to_row_slider == pre.scroll_to_row_slider
}

/// The effect of the header's direction control: if it was activated the
/// order state flips for the next pass, otherwise nothing changes; the
/// backing data and the selection are never touched.
pub open spec fn flip_rel(pre: LogTable, post: LogTable, activated: bool) -> bool {
    &&& post.reversed == if activated {
        !pre.reversed
    } else {
        pre.reversed
    }
    &&& post.selection == pre.selection
    &&& post.scroll_to_row == pre.scroll_to_row
    &&& post.striped == pre.striped
    &&& post.resizable == pre.resizable
    &&& post.clickable == pre.clickable
    &&& post.scroll_to_row_slider == pre.scroll_to_row_slider
}

impl LogTable {
    /// One draw pass: consumes the scroll target (even if the surface cannot
    /// satisfy it) and plans rows for logical positions `1..total_rows`. A
    /// backing source of one line or none yields zero rows.
    pub fn render(&mut self, total_rows: usize) -> (pass: RenderPass)
        ensures
            log_render_rel(*old(self), *final(self), pass, total_rows as int),
    {
        let scroll = self.scroll_to_row;
        self.scroll_to_row = None;
        let rows = plan_rows(1, total_rows, self.reversed, &self.selection);
        RenderPass { scroll, rows }
    }

    /// Delivers the click signal collected for one row of the current pass.
    pub fn toggle_row_selection(&mut self, row_index: usize, clicked: bool)
        ensures
            toggle_click_rel(*old(self), *final(self), row_index, clicked),
    {
        if clicked {
            self.selection.toggle(row_index);
        }
    }

    /// Delivers the header direction control's signal: the flip takes effect
    /// on the next pass, never mid-pass.
    pub fn toggle_direction(&mut self, activated: bool)
        ensures
            flip_rel(*old(self), *final(self), activated),
    {
        if activated {
            self.reversed = !self.reversed;
        }
    }

    /// The "go to line" input: records the slider position and sets the
    /// scroll target to the physical index shown at that logical position
    /// under the current order. Last write wins over any pending target.
    pub fn jump_to_logical(&mut self, logical: usize, total_rows: usize)
        requires
            logical < total_rows,
        ensures
            final(self).scroll_to_row == Some(
                spec_physical_index(logical as int, old(self).reversed, total_rows as int) as usize,
            ),
            final(self).scroll_to_row_slider == logical,
            final(self).selection == old(self).selection,
            final(self).reversed == old(self).reversed,
            final(self).striped == old(self).striped,
            final(self).resizable == old(self).resizable,
            final(self).clickable == old(self).clickable,
    {
        self.scroll_to_row_slider = logical;
        let physical = physical_index(logical, self.reversed, total_rows);
        self.scroll_to_row = Some(physical);
    }
}

/// Row weight of one log row: "thick" exactly when the physical index is a
/// multiple of six, whatever the sort direction.
pub fn thick_row(row_index: usize) -> (r: bool)
    ensures
        r == spec_thick_row(row_index as int),
{
    row_index % 6 == 0
}

/// Scroll one-shot law: a pass hands out whatever target was pending and
/// clears it, so a second pass that nothing re-targeted in between hands out
/// no scroll command at all.
pub proof fn lemma_scroll_one_shot(
    t0: LogTable,
    t1: LogTable,
    t2: LogTable,
    p1: RenderPass,
    p2: RenderPass,
    n1: int,
    n2: int,
)
    requires
        log_render_rel(t0, t1, p1, n1),
        log_render_rel(t1, t2, p2, n2),
    ensures
        p2.scroll is None,
{
}

/// Selection keyed by physical index law: selecting a physical row and then
/// flipping the sort direction leaves that physical row selected — the
/// logical position displaying it moves, the selection does not.
pub proof fn lemma_selection_keyed_by_physical(t0: LogTable, t1: LogTable, t2: LogTable, p: usize)
    requires
        !t0.selection@.contains(p),
        toggle_click_rel(t0, t1, p, true),
        flip_rel(t1, t2, true),
    ensures
        t2.selection@.contains(p),
        t2.reversed == !t0.reversed,
{
}

} // verus!
