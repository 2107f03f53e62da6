//! The cursor state and the three per-frame stages that act on it:
//! the keyboard resolver, the pointer hover resolver, and the cursor
//! position synchronizer.

use vstd::prelude::*;

use crate::geometry::{Vec2, dist_sq, within_threshold, is_within};
use crate::registry::{MenuEntry, indices_canonical};

verus! {

/// The keys newly pressed during one frame, as edge events. Two keys are
/// bound to each direction and treated as equivalent.
#[derive(Clone, Copy, Debug, PartialEq, Eq, Structural)]
pub struct KeyInput {
    /// The down-arrow key was newly pressed this frame.
    pub arrow_down: bool,
    /// The `S` key was newly pressed this frame.
    pub key_s: bool,
    /// The up-arrow key was newly pressed this frame.
    pub arrow_up: bool,
    /// The `W` key was newly pressed this frame.
    pub key_w: bool,
}

impl KeyInput {
    /// No key newly pressed.
    pub fn none() -> (r: KeyInput)
        ensures
            r == (KeyInput { arrow_down: false, key_s: false, arrow_up: false, key_w: false }),
    {
        KeyInput { arrow_down: false, key_s: false, arrow_up: false, key_w: false }
    }
}

/// A "move down" key was newly pressed.
pub open spec fn down_requested(k: KeyInput) -> bool {
    k.arrow_down || k.key_s
}

/// A "move up" key was newly pressed.
pub open spec fn up_requested(k: KeyInput) -> bool {
    k.arrow_up || k.key_w
}

/// The single piece of mutable domain state: which entry is selected, and
/// where the visual cursor marker stands.
#[derive(Clone, Copy, Debug, PartialEq, Eq, Structural)]
pub struct CursorState {
    /// Index of the selected menu entry; always a valid registry index.
    pub selected_index: usize,
    /// World position of the visual cursor marker.
    pub screen_position: Vec2,
}

impl CursorState {
    /// The cursor as the menu opens: entry 0 selected, the marker at the
    /// fixed horizontal offset on the first entry's line.
    pub fn new(cursor_x: i32, first_entry_y: i32) -> (r: CursorState)
        ensures
            r == (CursorState {
                selected_index: 0,
                screen_position: Vec2 { x: cursor_x, y: first_entry_y },
            }),
    {
        CursorState { selected_index: 0, screen_position: Vec2 { x: cursor_x, y: first_entry_y } }
    }
}

/// The selected index after one frame of keyboard input: a "down" press
/// moves one step down but never past `count - 1`; an "up" press moves one
/// step up but never below 0. When both directions fire in the same frame,
/// the down step applies first, then the up step.
pub open spec fn kb_next(idx: int, count: int, k: KeyInput) -> int {
    let after_down = if down_requested(k) {
        if idx + 1 < count { idx + 1 } else { count - 1 }
    } else {
        idx
    };
    if up_requested(k) {
        if after_down >= 1 { after_down - 1 } else { 0 }
    } else {
        after_down
    }
}

/// The selected index after a whole sequence of keyboard frames, applied
/// in order.
pub open spec fn kb_run(idx: int, count: int, presses: Seq<KeyInput>) -> int
    decreases presses.len(),
{
    if presses.len() == 0 {
        idx
    } else {
        kb_run(kb_next(idx, count, presses[0]), count, presses.skip(1))
    }
}

/// Any sequence of keyboard frames keeps the selected index a valid entry
/// index.
pub proof fn lemma_kb_run_in_bounds(idx: int, count: int, presses: Seq<KeyInput>)
    requires
        count >= 1,
        0 <= idx < count,
    ensures
        0 <= kb_run(idx, count, presses) < count,
    decreases presses.len(),
{
    if presses.len() > 0 {
        lemma_kb_run_in_bounds(kb_next(idx, count, presses[0]), count, presses.skip(1));
    }
}

/// Law: however long a run of "move down" presses, the selected index
/// never exceeds `count - 1`: after every prefix of the run it is still
/// at most the last entry's index.
pub proof fn lemma_down_presses_never_exceed_last(idx: int, count: int, presses: Seq<KeyInput>)
    requires
        count >= 1,
        0 <= idx < count,
        forall|i: int| 0 <= i < presses.len() ==> down_requested(#[trigger] presses[i]),
    ensures
        forall|k: int| 0 <= k <= presses.len()
            ==> #[trigger] kb_run(idx, count, presses.take(k)) <= count - 1,
{
    assert forall|k: int| 0 <= k <= presses.len()
        implies #[trigger] kb_run(idx, count, presses.take(k)) <= count - 1 by {
        lemma_kb_run_in_bounds(idx, count, presses.take(k));
    }
}

/// Law: however long a run of "move up" presses, the selected index never
/// goes below 0: after every prefix of the run it is still at least 0.
pub proof fn lemma_up_presses_never_underflow(idx: int, count: int, presses: Seq<KeyInput>)
    requires
        count >= 1,
        0 <= idx < count,
        forall|i: int| 0 <= i < presses.len() ==> up_requested(#[trigger] presses[i]),
    ensures
        forall|k: int| 0 <= k <= presses.len()
            ==> #[trigger] kb_run(idx, count, presses.take(k)) >= 0,
{
    assert forall|k: int| 0 <= k <= presses.len()
        implies #[trigger] kb_run(idx, count, presses.take(k)) >= 0 by {
        lemma_kb_run_in_bounds(idx, count, presses.take(k));
    }
}

/// Keyboard input resolver: applies one frame of newly pressed keys to the
/// selected index, clamped to the registry bounds. The marker position is
/// left alone; the synchronizer moves it later in the frame.
pub fn resolve_keyboard(cursor: &mut CursorState, keys: KeyInput, entry_count: usize)
    requires
        entry_count >= 1,
        old(cursor).selected_index < entry_count,
    ensures
        final(cursor).selected_index
            == kb_next(old(cursor).selected_index as int, entry_count as int, keys),
        final(cursor).selected_index < entry_count,
        final(cursor).screen_position == old(cursor).screen_position,
{
    if keys.arrow_down || keys.key_s {
        if cursor.selected_index + 1 < entry_count {
            cursor.selected_index = cursor.selected_index + 1;
        } else {
            cursor.selected_index = entry_count - 1;
        }
    }
    if keys.arrow_up || keys.key_w {
        if cursor.selected_index >= 1 {
            cursor.selected_index = cursor.selected_index - 1;
        } else {
            cursor.selected_index = 0;
        }
    }
}

/// Scan position of the first entry at or after position `k` whose
/// distance to the pointer is strictly below the threshold; `None` when no
/// such entry exists. The scan order (lowest index first) is the tie-break
/// when several entries are in range.
pub open spec fn hover_from(entries: Seq<MenuEntry>, p: Vec2, t: int, k: int) -> Option<int>
    decreases entries.len() - k,
{
    if k < 0 || k >= entries.len() {
        None
    } else if within_threshold(p, entries[k].pos, t) {
        Some(k)
    } else {
        hover_from(entries, p, t, k + 1)
    }
}

/// Scan position of the first entry the pointer hovers over, if any.
pub open spec fn hover_choice(entries: Seq<MenuEntry>, p: Vec2, t: int) -> Option<int> {
    hover_from(entries, p, t, 0)
}

/// A hover choice made from position `k` is a scan position in
/// `[k, entries.len())`, and the pointer is within threshold of it.
pub proof fn lemma_hover_from_range(entries: Seq<MenuEntry>, p: Vec2, t: int, k: int)
    requires
        0 <= k,
        hover_from(entries, p, t, k) is Some,
    ensures
        k <= hover_from(entries, p, t, k)->Some_0 < entries.len(),
        within_threshold(p, entries[hover_from(entries, p, t, k)->Some_0].pos, t),
    decreases entries.len() - k,
{
    if k < entries.len() && !within_threshold(p, entries[k].pos, t) {
        lemma_hover_from_range(entries, p, t, k + 1);
    }
}

/// Law: a pointer farther than the threshold from every entry hovers over
/// nothing, so the hover resolver leaves the selection unchanged.
pub proof fn lemma_pointer_far_from_all(entries: Seq<MenuEntry>, p: Vec2, t: int, k: int)
    requires
        0 <= k,
        forall|j: int| 0 <= j < entries.len()
            ==> !within_threshold(p, (#[trigger] entries[j]).pos, t),
    ensures
        hover_from(entries, p, t, k) is None,
    decreases entries.len() - k,
{
    if k < entries.len() {
        lemma_pointer_far_from_all(entries, p, t, k + 1);
    }
}

/// Law: a pointer standing exactly on entry 0's position is at distance 0,
/// so with any positive threshold the hover choice is entry 0, whatever
/// was selected before.
pub proof fn lemma_pointer_on_first_entry(entries: Seq<MenuEntry>, t: int)
    requires
        entries.len() >= 1,
        t >= 1,
    ensures
        hover_choice(entries, entries[0].pos, t) == Some(0int),
{
    assert(dist_sq(entries[0].pos, entries[0].pos) == 0);
    assert(t * t >= 1) by (nonlinear_arith)
        requires
            t >= 1,
    ;
}

/// Pointer hover resolver: called with the world position of this frame's
/// latest pointer-moved event. The first entry (in index order) strictly
/// within the hover threshold becomes the selection; if no entry is in
/// range the selection is unchanged. When the pointer did not move this
/// frame, or its position could not be mapped to world space, this stage
/// is simply not called. The marker position is left alone; the
/// synchronizer moves it later in the frame.
pub fn resolve_hover(cursor: &mut CursorState, entries: &Vec<MenuEntry>, pointer: Vec2, threshold: i32)
    ensures
        match hover_choice(entries@, pointer, threshold as int) {
            Some(pos) => final(cursor).selected_index == entries@[pos].index,
            None => final(cursor).selected_index == old(cursor).selected_index,
        },
        final(cursor).screen_position == old(cursor).screen_position,
{
    let n = entries.len();
    let mut k: usize = 0;
    while k < n
        invariant
            k <= n,
            n == entries@.len(),
            hover_choice(entries@, pointer, threshold as int)
                == hover_from(entries@, pointer, threshold as int, k as int),
            *cursor == *old(cursor),
        decreases n - k,
    {
        if is_within(pointer, entries[k].pos, threshold) {
            cursor.selected_index = entries[k].index;
            return;
        }
        k = k + 1;
    }
}

/// The cursor state the synchronizer leaves behind: the same selection,
/// the marker moved to the selected entry's vertical position with its
/// horizontal offset kept.
pub open spec fn sync_target(c: CursorState, entries: Seq<MenuEntry>) -> CursorState {
    CursorState {
        selected_index: c.selected_index,
        screen_position: Vec2 {
            x: c.screen_position.x,
            y: entries[c.selected_index as int].pos.y,
        },
    }
}

/// Law: the synchronizer is idempotent. Its result is a pure function of
/// the selection and the registry, so running it twice with no intervening
/// change leaves exactly what one run left.
pub proof fn lemma_sync_idempotent(c: CursorState, entries: Seq<MenuEntry>)
    ensures
        sync_target(sync_target(c, entries), entries) == sync_target(c, entries),
{
}

/// Cursor position synchronizer: moves the visual marker to the vertical
/// position of the selected entry; the horizontal offset stays fixed. The
/// selection must be a valid index of a canonical registry — the resolvers
/// guarantee it — so the lookup always finds its entry.
pub fn sync_cursor_position(cursor: &mut CursorState, entries: &Vec<MenuEntry>)
    requires
        old(cursor).selected_index < entries@.len(),
        indices_canonical(entries@),
    ensures
        *final(cursor) == sync_target(*old(cursor), entries@),
{
    let target = cursor.selected_index;
    let n = entries.len();
    let mut k: usize = 0;
    while k < n
        invariant
            k <= n,
            n == entries@.len(),
            target < n,
            indices_canonical(entries@),
            target == old(cursor).selected_index,
            *cursor == *old(cursor),
            forall|j: int| 0 <= j < k ==> (#[trigger] entries@[j]).index != target,
        decreases n - k,
    {
        if entries[k].index == target {
            cursor.screen_position = Vec2 { x: cursor.screen_position.x, y: entries[k].pos.y };
            return;
        }
        k = k + 1;
    }
    proof {
        assert(entries@[target as int].index == target);
        assert(false);
    }
}

} // verus!
