//! The state of the trash browser, as plain values: the listed entries, the
//! selected row, the color scheme index, and the scroll position.  The
//! terminal frontend renders this state and maps key presses to the methods
//! here; the wrap-around arithmetic of the navigation lives in this module.

use vstd::prelude::*;

use crate::listing::TrashEntry;

verus! {

/// Rows per item in the rendered table, which scrolls by this much per row.
pub const ITEM_HEIGHT: usize = 4;

/// How many color schemes the browser cycles through.
pub const PALETTE_COUNT: usize = 4;

/// The row selected after moving down: one past the current row, wrapping
/// from the last row to the first; the first row when none was selected.
pub open spec fn next_row_index(sel: Option<usize>, len: int) -> int {
    match sel {
        Some(i) => if i >= len - 1 {
            0
        } else {
            i + 1
        },
        None => 0,
    }
}

/// The row selected after moving up: one before the current row, wrapping
/// from the first row to the last; the first row when none was selected.
pub open spec fn previous_row_index(sel: Option<usize>, len: int) -> int {
    match sel {
        Some(i) => if i == 0 {
            len - 1
        } else {
            i - 1
        },
        None => 0,
    }
}

/// The browser's state.
pub struct App {
    /// the listed trash entries
    pub items: Vec<TrashEntry>,
    /// the selected row, if any
    pub selected: Option<usize>,
    /// which color scheme is active
    pub color_index: usize,
    /// the scrollbar position, in rendered rows
    pub scroll_pos: usize,
}

impl App {
    /// A fresh browser over `items`, with the first row selected.
    pub fn new(items: Vec<TrashEntry>) -> (r: App)
        requires
            items@.len() > 0,
            items@.len() * 4 <= usize::MAX,
        ensures
            r.items@ == items@,
            r.selected == Some(0usize),
            r.color_index == 0,
            r.scroll_pos == (items@.len() - 1) * 4,
    {
        let len = items.len();
        App { items, selected: Some(0), color_index: 0, scroll_pos: (len - 1) * ITEM_HEIGHT }
    }

    /// Moves the selection one row down, wrapping to the first row, and
    /// scrolls to it.
    pub fn next_row(&mut self)
        requires
            old(self).items@.len() > 0,
            old(self).items@.len() * 4 <= usize::MAX,
        ensures
            final(self).items@ == old(self).items@,
            final(self).color_index == old(self).color_index,
            final(self).selected matches Some(i) && i as int == next_row_index(
                old(self).selected,
                old(self).items@.len() as int,
            ),
            final(self).scroll_pos as int == next_row_index(
                old(self).selected,
                old(self).items@.len() as int,
            ) * 4,
    {
        let i: usize = match self.selected {
            Some(i) => if i >= self.items.len() - 1 {
                0
            } else {
                i + 1
            },
            None => 0,
        };
        self.selected = Some(i);
        self.scroll_pos = i * ITEM_HEIGHT;
    }

    /// Moves the selection one row up, wrapping to the last row, and
    /// scrolls to it.
    pub fn previous_row(&mut self)
        requires
            old(self).items@.len() > 0,
            old(self).items@.len() * 4 <= usize::MAX,
            old(self).selected matches Some(i) ==> (i > 0 ==> (i - 1) * 4 <= usize::MAX),
        ensures
            final(self).items@ == old(self).items@,
            final(self).color_index == old(self).color_index,
            final(self).selected matches Some(i) && i as int == previous_row_index(
                old(self).selected,
                old(self).items@.len() as int,
            ),
            final(self).scroll_pos as int == previous_row_index(
                old(self).selected,
                old(self).items@.len() as int,
            ) * 4,
    {
        let i: usize = match self.selected {
            Some(i) => if i == 0 {
                self.items.len() - 1
            } else {
                i - 1
            },
            None => 0,
        };
        self.selected = Some(i);
        self.scroll_pos = i * ITEM_HEIGHT;
    }

    /// Switches to the next color scheme, cyclically.
    pub fn next_color(&mut self)
        requires
            old(self).color_index < PALETTE_COUNT,
        ensures
            final(self).color_index == (old(self).color_index + 1) % (PALETTE_COUNT as int),
            final(self).items@ == old(self).items@,
            final(self).selected == old(self).selected,
            final(self).scroll_pos == old(self).scroll_pos,
    {
        self.color_index = (self.color_index + 1) % PALETTE_COUNT;
    }

    /// Switches to the previous color scheme, cyclically.
    pub fn previous_color(&mut self)
        requires
            old(self).color_index < PALETTE_COUNT,
        ensures
            final(self).color_index == (old(self).color_index + PALETTE_COUNT - 1) % (
            PALETTE_COUNT as int),
            final(self).items@ == old(self).items@,
            final(self).selected == old(self).selected,
            final(self).scroll_pos == old(self).scroll_pos,
    {
        let count = PALETTE_COUNT;
        self.color_index = (self.color_index + count - 1) % count;
    }

    /// Drops the last listed entry from the list, when there is one.
    pub fn delete_selection(&mut self)
        ensures
            old(self).items@.len() > 0 ==> final(self).items@ == old(self).items@.drop_last(),
            old(self).items@.len() == 0 ==> final(self).items@ == old(self).items@,
            final(self).selected == old(self).selected,
            final(self).color_index == old(self).color_index,
            final(self).scroll_pos == old(self).scroll_pos,
    {
        let _ = self.items.pop();
    }

    /// Drops the last listed entry from the list, when there is one; which
    /// entry is restored is not yet decided here, so this only shortens the
    /// list as deletion does.
    pub fn restore_selection(&mut self)
        ensures
            old(self).items@.len() > 0 ==> final(self).items@ == old(self).items@.drop_last(),
            old(self).items@.len() == 0 ==> final(self).items@ == old(self).items@,
            final(self).selected == old(self).selected,
            final(self).color_index == old(self).color_index,
            final(self).scroll_pos == old(self).scroll_pos,
    {
        let _ = self.items.pop();
    }
}

} // verus!
