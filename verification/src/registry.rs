//! The menu entry registry: the static layout of the selectable lines.
//!
//! Entries are laid out in a vertical column: entry `i` stands at
//! `x = 0`, `y = start_y - i * spacing`. The registry is built once and
//! never changes afterwards; everything else reads it.

use vstd::prelude::*;

use crate::geometry::Vec2;

verus! {

/// Vertical position of the title line, above the menu column.
pub const TITLE_Y: i32 = 200;

/// Vertical position of the first menu entry.
pub const START_Y: i32 = 50;

/// Vertical distance between consecutive menu entries.
pub const SPACING: i32 = 50;

/// Horizontal offset of the cursor marker, left of the menu column.
pub const CURSOR_X_OFFSET: i32 = -100;

/// One selectable line of the menu: a stable 0-based index, a display
/// label, and the world position at which the line is rendered.
pub struct MenuEntry {
    pub index: usize,
    pub label: String,
    pub pos: Vec2,
}

/// The layout parameters the registry is built from.
#[derive(Clone, Copy, Debug, PartialEq, Eq, Structural)]
pub struct MenuLayout {
    /// Vertical position of the title line.
    pub title_y: i32,
    /// Vertical position of entry 0.
    pub start_y: i32,
    /// Vertical distance between consecutive entries.
    pub spacing: i32,
    /// Horizontal offset of the cursor marker.
    pub cursor_x_offset: i32,
}

impl MenuLayout {
    /// The standard menu layout: title at 200, entries from 50 downwards,
    /// 50 apart, cursor 100 to the left.
    pub fn standard() -> (r: MenuLayout)
        ensures
            r == (MenuLayout {
                title_y: TITLE_Y,
                start_y: START_Y,
                spacing: SPACING,
                cursor_x_offset: CURSOR_X_OFFSET,
            }),
    {
        MenuLayout { title_y: TITLE_Y, start_y: START_Y, spacing: SPACING, cursor_x_offset: CURSOR_X_OFFSET }
    }

    /// The hover threshold belonging to this layout: half the spacing.
    pub open spec fn spec_hover_threshold(self) -> int {
        self.spacing as int / 2
    }

    /// Returns the hover threshold: half the vertical spacing.
    pub fn hover_threshold(&self) -> (r: i32)
        requires
            self.spacing >= 0,
        ensures
            r == self.spec_hover_threshold(),
    {
        self.spacing / 2
    }
}

/// Vertical position of entry `i` under the given layout.
pub open spec fn entry_y(start_y: int, spacing: int, i: int) -> int {
    start_y - i * spacing
}

/// Every entry's stored index equals its place in the sequence. The
/// registry builder establishes this, and it is what lets the selected
/// index be dereferenced against the registry.
pub open spec fn indices_canonical(entries: Seq<MenuEntry>) -> bool {
    forall|i: int| 0 <= i < entries.len() ==> #[trigger] entries[i].index == i
}

/// The registry laid out by `layout`: canonical indices, `x` fixed at 0,
/// `y` descending by `spacing` from `start_y`.
pub open spec fn entries_wf(entries: Seq<MenuEntry>, layout: MenuLayout) -> bool {
    forall|i: int| 0 <= i < entries.len() ==> {
        &&& (#[trigger] entries[i]).index == i
        &&& entries[i].pos.x == 0
        &&& entries[i].pos.y == entry_y(layout.start_y as int, layout.spacing as int, i)
    }
}

/// Builds the registry: one entry per label, in order, with
/// `y = start_y - index * spacing` and `x = 0`.
pub fn build_entries(labels: Vec<String>, layout: MenuLayout) -> (entries: Vec<MenuEntry>)
    requires
        labels.len() <= i32::MAX,
        forall|i: int| 0 <= i < labels.len()
            ==> i32::MIN <= #[trigger] entry_y(layout.start_y as int, layout.spacing as int, i)
                <= i32::MAX,
    ensures
        entries.len() == labels.len(),
        entries_wf(entries@, layout),
        forall|i: int| 0 <= i < entries.len() ==> (#[trigger] entries@[i]).label == labels@[i],
{
    let ghost all_labels = labels@;
    let mut labels = labels;
    let mut entries: Vec<MenuEntry> = Vec::new();
    let n = labels.len();
    let mut i: usize = 0;
    while i < n
        invariant
            i <= n,
            n == all_labels.len(),
            n <= i32::MAX,
            labels@ == all_labels.skip(i as int),
            entries.len() == i,
            forall|j: int| 0 <= j < n
                ==> i32::MIN <= #[trigger] entry_y(layout.start_y as int, layout.spacing as int, j)
                    <= i32::MAX,
            forall|j: int| 0 <= j < i ==> {
                &&& (#[trigger] entries@[j]).index == j
                &&& entries@[j].pos.x == 0
                &&& entries@[j].pos.y == entry_y(layout.start_y as int, layout.spacing as int, j)
                &&& entries@[j].label == all_labels[j]
            },
        decreases n - i,
    {
        let label = labels.remove(0);
        proof {
            assert(all_labels.skip(i as int)[0] == all_labels[i as int]);
            assert(all_labels.skip(i as int).remove(0) =~= all_labels.skip(i as int + 1));
            assert(-0x4000_0000_0000_0000 <= (i as int) * (layout.spacing as int)
                <= 0x4000_0000_0000_0000) by (nonlinear_arith)
                requires
                    0 <= i <= 0x8000_0000,
                    -0x8000_0000 <= layout.spacing <= 0x8000_0000,
            ;
        }
        let y64: i64 = (layout.start_y as i64) - (i as i64) * (layout.spacing as i64);
        proof {
            assert(y64 == entry_y(layout.start_y as int, layout.spacing as int, i as int));
        }
        let y: i32 = y64 as i32;
        entries.push(MenuEntry { index: i, label, pos: Vec2 { x: 0, y } });
        i = i + 1;
    }
    entries
}

} // verus!
