//! The per-frame pipeline: keyboard resolver, then pointer hover resolver,
//! then cursor position synchronizer, in that fixed order, gated on the
//! application being in the main-menu state.

use vstd::prelude::*;

use crate::cursor::{
    CursorState, KeyInput, hover_choice, kb_next, resolve_hover, resolve_keyboard,
    sync_cursor_position,
};
use crate::geometry::Vec2;
use crate::registry::{MenuEntry, MenuLayout, build_entries, entries_wf, entry_y, indices_canonical};

verus! {

/// The application-level state. The menu pipeline runs only in
/// `MainMenu`; how and when the application leaves `SplashIntro` is the
/// host's concern and deliberately left open here.
#[derive(Clone, Copy, Debug, PartialEq, Eq, Structural)]
pub enum AppState {
    /// The initial splash / intro screen.
    SplashIntro,
    /// The interactive main menu.
    MainMenu,
}

/// The whole menu: application state, the immutable entry registry, its
/// layout, the fixed hover threshold, and the one mutable cursor record.
pub struct Menu {
    /// Which application state the host is in.
    pub state: AppState,
    /// The static registry of selectable entries.
    pub entries: Vec<MenuEntry>,
    /// The layout the registry was built from.
    pub layout: MenuLayout,
    /// Fixed hover distance: half the vertical spacing.
    pub hover_threshold: i32,
    /// The mutable cursor record.
    pub cursor: CursorState,
}

/// Well-formedness of a menu: at least one entry, a registry laid out by
/// the layout, the fixed threshold, a valid selection, and the marker at
/// its fixed horizontal offset.
pub open spec fn menu_wf(m: Menu) -> bool {
    &&& m.entries@.len() >= 1
    &&& entries_wf(m.entries@, m.layout)
    &&& m.hover_threshold == m.layout.spec_hover_threshold()
    &&& m.cursor.selected_index < m.entries@.len()
    &&& m.cursor.screen_position.x == m.layout.cursor_x_offset
}

/// The selected index after one main-menu frame: the keyboard result,
/// overwritten by the hover choice whenever the pointer moved and some
/// entry is within the threshold. The hover resolver runs after the
/// keyboard resolver, so its choice is the one the synchronizer sees.
pub open spec fn frame_selected(
    old_sel: int,
    count: int,
    keys: KeyInput,
    pointer: Option<Vec2>,
    entries: Seq<MenuEntry>,
    t: int,
) -> int {
    let kb = kb_next(old_sel, count, keys);
    match pointer {
        None => kb,
        Some(p) => match hover_choice(entries, p, t) {
            Some(pos) => entries[pos].index as int,
            None => kb,
        },
    }
}

/// Law: within one frame, the pointer's choice is final. Whenever the
/// keyboard resolver and the hover resolver would pick different indices,
/// the frame ends on the hover resolver's pick, because it runs second.
pub proof fn lemma_hover_overrides_keyboard(
    old_sel: int,
    count: int,
    keys: KeyInput,
    p: Vec2,
    entries: Seq<MenuEntry>,
    t: int,
    pos: int,
)
    requires
        hover_choice(entries, p, t) == Some(pos),
        entries[pos].index != kb_next(old_sel, count, keys),
    ensures
        frame_selected(old_sel, count, keys, Some(p), entries, t) == entries[pos].index,
{
}

impl Menu {
    /// Builds the menu as the program opens it: the registry from the
    /// labels and layout, entry 0 selected, the marker on entry 0's line,
    /// and the application still on the splash screen.
    pub fn new(labels: Vec<String>, layout: MenuLayout) -> (m: Menu)
        requires
            labels.len() >= 1,
            labels.len() <= i32::MAX,
            layout.spacing >= 0,
            forall|i: int| 0 <= i < labels.len()
                ==> i32::MIN <= #[trigger] entry_y(layout.start_y as int, layout.spacing as int, i)
                    <= i32::MAX,
        ensures
            menu_wf(m),
            m.state == AppState::SplashIntro,
            m.layout == layout,
            m.entries@.len() == labels.len(),
            forall|i: int| 0 <= i < labels.len()
                ==> (#[trigger] m.entries@[i]).label == labels@[i],
            m.cursor.selected_index == 0,
            m.cursor.screen_position == (Vec2 {
                x: layout.cursor_x_offset,
                y: layout.start_y,
            }),
    {
        let entries = build_entries(labels, layout);
        proof {
            assert(entries@[0].pos.y == entry_y(layout.start_y as int, layout.spacing as int, 0));
        }
        let first_y = entries[0].pos.y;
        let cursor = CursorState::new(layout.cursor_x_offset, first_y);
        let hover_threshold = layout.hover_threshold();
        Menu { state: AppState::SplashIntro, entries, layout, hover_threshold, cursor }
    }

    /// The host's open extension point: it alone decides when the
    /// application changes state; this merely records the decision.
    pub fn set_state(&mut self, state: AppState)
        ensures
            final(self).state == state,
            final(self).entries == old(self).entries,
            final(self).layout == old(self).layout,
            final(self).hover_threshold == old(self).hover_threshold,
            final(self).cursor == old(self).cursor,
    {
        self.state = state;
    }

    /// Runs one frame of the pipeline, in the fixed order: keyboard
    /// resolver, pointer hover resolver, cursor position synchronizer.
    /// `pointer` is the world position of this frame's latest
    /// pointer-moved event, or `None` when the pointer did not move or
    /// could not be mapped to world space. Outside the main-menu state
    /// the pipeline does not run at all.
    pub fn run_frame(&mut self, keys: KeyInput, pointer: Option<Vec2>)
        requires
            menu_wf(*old(self)),
        ensures
            menu_wf(*final(self)),
            final(self).state == old(self).state,
            final(self).entries == old(self).entries,
            final(self).layout == old(self).layout,
            final(self).hover_threshold == old(self).hover_threshold,
            old(self).state == AppState::SplashIntro ==> final(self).cursor == old(self).cursor,
            old(self).state == AppState::MainMenu ==> {
                &&& final(self).cursor.selected_index == frame_selected(
                    old(self).cursor.selected_index as int,
                    old(self).entries@.len() as int,
                    keys,
                    pointer,
                    old(self).entries@,
                    old(self).hover_threshold as int,
                )
                &&& final(self).cursor.screen_position.x == old(self).cursor.screen_position.x
                &&& final(self).cursor.screen_position.y
                    == old(self).entries@[final(self).cursor.selected_index as int].pos.y
            },
    {
        if !matches!(self.state, AppState::MainMenu) {
            return;
        }
        let count = self.entries.len();
        resolve_keyboard(&mut self.cursor, keys, count);
        if let Some(p) = pointer {
            resolve_hover(&mut self.cursor, &self.entries, p, self.hover_threshold);
            proof {
                let t = old(self).hover_threshold as int;
                let e = old(self).entries@;
                if hover_choice(e, p, t) is Some {
                    crate::cursor::lemma_hover_from_range(e, p, t, 0);
                }
            }
        }
        sync_cursor_position(&mut self.cursor, &self.entries);
    }
}

} // verus!
