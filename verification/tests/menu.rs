use menu_cursor::cursor::{
    resolve_hover, resolve_keyboard, sync_cursor_position, CursorState, KeyInput,
};
use menu_cursor::frame::{AppState, Menu};
use menu_cursor::geometry::{distance_squared, is_within, Vec2};
use menu_cursor::registry::{build_entries, MenuLayout};

fn standard_labels() -> Vec<String> {
    vec!["Start Game".to_string(), "Quit".to_string()]
}

fn down() -> KeyInput {
    KeyInput { arrow_down: true, key_s: false, arrow_up: false, key_w: false }
}

fn up() -> KeyInput {
    KeyInput { arrow_down: false, key_s: false, arrow_up: true, key_w: false }
}

#[test]
fn distance_squared_exact() {
    let a = Vec2 { x: 0, y: 0 };
    let b = Vec2 { x: 3, y: 4 };
    assert_eq!(distance_squared(a, b), 25);
    assert_eq!(distance_squared(b, b), 0);
}

#[test]
fn within_is_strict_and_rejects_negative_threshold() {
    let a = Vec2 { x: 0, y: 0 };
    let b = Vec2 { x: 3, y: 4 };
    assert!(is_within(a, b, 6));
    assert!(!is_within(a, b, 5)); // distance exactly 5 is not strictly within 5
    assert!(!is_within(a, a, 0));
    assert!(!is_within(a, a, -1));
}

#[test]
fn registry_positions_follow_layout() {
    let entries = build_entries(standard_labels(), MenuLayout::standard());
    assert_eq!(entries.len(), 2);
    assert_eq!(entries[0].index, 0);
    assert_eq!(entries[0].label, "Start Game");
    assert_eq!(entries[0].pos, Vec2 { x: 0, y: 50 });
    assert_eq!(entries[1].index, 1);
    assert_eq!(entries[1].label, "Quit");
    assert_eq!(entries[1].pos, Vec2 { x: 0, y: 0 });
}

#[test]
fn hover_threshold_is_half_spacing() {
    assert_eq!(MenuLayout::standard().hover_threshold(), 25);
}

#[test]
fn down_presses_stop_at_last_entry() {
    let mut cursor = CursorState::new(-100, 50);
    resolve_keyboard(&mut cursor, down(), 2);
    assert_eq!(cursor.selected_index, 1);
    resolve_keyboard(&mut cursor, down(), 2);
    assert_eq!(cursor.selected_index, 1);
}

#[test]
fn up_presses_stop_at_first_entry() {
    let mut cursor = CursorState::new(-100, 50);
    resolve_keyboard(&mut cursor, up(), 2);
    assert_eq!(cursor.selected_index, 0);
    resolve_keyboard(&mut cursor, up(), 2);
    assert_eq!(cursor.selected_index, 0);
}

#[test]
fn either_bound_key_moves() {
    let mut cursor = CursorState::new(-100, 50);
    let s_key = KeyInput { arrow_down: false, key_s: true, arrow_up: false, key_w: false };
    resolve_keyboard(&mut cursor, s_key, 2);
    assert_eq!(cursor.selected_index, 1);
    let w_key = KeyInput { arrow_down: false, key_s: false, arrow_up: false, key_w: true };
    resolve_keyboard(&mut cursor, w_key, 2);
    assert_eq!(cursor.selected_index, 0);
}

#[test]
fn both_directions_same_frame_apply_down_then_up() {
    // From 0 in a 3-entry menu: the down step lands on 1, the up step takes
    // it back to 0.
    let mut cursor = CursorState::new(-100, 50);
    let both = KeyInput { arrow_down: true, key_s: false, arrow_up: true, key_w: false };
    resolve_keyboard(&mut cursor, both, 3);
    assert_eq!(cursor.selected_index, 0);
    // From the last entry the down step is clamped, so the up step still
    // moves one up.
    cursor.selected_index = 2;
    resolve_keyboard(&mut cursor, both, 3);
    assert_eq!(cursor.selected_index, 1);
}

#[test]
fn pointer_on_first_entry_selects_it_whatever_was_selected() {
    let entries = build_entries(standard_labels(), MenuLayout::standard());
    let mut cursor = CursorState::new(-100, 50);
    cursor.selected_index = 1;
    resolve_hover(&mut cursor, &entries, Vec2 { x: 0, y: 50 }, 25);
    assert_eq!(cursor.selected_index, 0);
}

#[test]
fn pointer_far_from_every_entry_changes_nothing() {
    let entries = build_entries(standard_labels(), MenuLayout::standard());
    let mut cursor = CursorState::new(-100, 50);
    cursor.selected_index = 1;
    resolve_hover(&mut cursor, &entries, Vec2 { x: 1000, y: 1000 }, 25);
    assert_eq!(cursor.selected_index, 1);
}

#[test]
fn pointer_exactly_at_threshold_changes_nothing() {
    // (0, 25) is at distance exactly 25 from both entries; the test is
    // strict, so neither is hovered.
    let entries = build_entries(standard_labels(), MenuLayout::standard());
    let mut cursor = CursorState::new(-100, 50);
    resolve_hover(&mut cursor, &entries, Vec2 { x: 0, y: 25 }, 25);
    assert_eq!(cursor.selected_index, 0);
    cursor.selected_index = 1;
    resolve_hover(&mut cursor, &entries, Vec2 { x: 0, y: 25 }, 25);
    assert_eq!(cursor.selected_index, 1);
}

#[test]
fn lowest_index_wins_when_pointer_hovers_two_entries() {
    // Entries 10 apart with a threshold of 25: (0, 45) is within range of
    // both entry 0 (y = 50) and entry 1 (y = 40); the scan picks entry 0.
    let layout = MenuLayout { title_y: 200, start_y: 50, spacing: 10, cursor_x_offset: -100 };
    let entries = build_entries(standard_labels(), layout);
    let mut cursor = CursorState::new(-100, 50);
    cursor.selected_index = 1;
    resolve_hover(&mut cursor, &entries, Vec2 { x: 0, y: 45 }, 25);
    assert_eq!(cursor.selected_index, 0);
}

#[test]
fn synchronizer_moves_marker_to_selected_entry() {
    let entries = build_entries(standard_labels(), MenuLayout::standard());
    let mut cursor = CursorState::new(-100, 50);
    cursor.selected_index = 1;
    sync_cursor_position(&mut cursor, &entries);
    assert_eq!(cursor.screen_position, Vec2 { x: -100, y: 0 });
}

#[test]
fn synchronizer_twice_gives_the_same_position() {
    let entries = build_entries(standard_labels(), MenuLayout::standard());
    let mut cursor = CursorState::new(-100, 50);
    cursor.selected_index = 1;
    sync_cursor_position(&mut cursor, &entries);
    let after_first = cursor;
    sync_cursor_position(&mut cursor, &entries);
    assert_eq!(cursor, after_first);
}

#[test]
fn menu_opens_on_splash_with_first_entry_selected() {
    let menu = Menu::new(standard_labels(), MenuLayout::standard());
    assert_eq!(menu.state, AppState::SplashIntro);
    assert_eq!(menu.cursor.selected_index, 0);
    assert_eq!(menu.cursor.screen_position, Vec2 { x: -100, y: 50 });
    assert_eq!(menu.hover_threshold, 25);
}

#[test]
fn frame_does_not_run_on_the_splash_screen() {
    let mut menu = Menu::new(standard_labels(), MenuLayout::standard());
    menu.run_frame(down(), Some(Vec2 { x: 0, y: 0 }));
    assert_eq!(menu.cursor.selected_index, 0);
    assert_eq!(menu.cursor.screen_position, Vec2 { x: -100, y: 50 });
}

#[test]
fn frame_applies_keyboard_and_moves_the_marker() {
    let mut menu = Menu::new(standard_labels(), MenuLayout::standard());
    menu.set_state(AppState::MainMenu);
    menu.run_frame(down(), None);
    assert_eq!(menu.cursor.selected_index, 1);
    assert_eq!(menu.cursor.screen_position, Vec2 { x: -100, y: 0 });
    menu.run_frame(up(), None);
    assert_eq!(menu.cursor.selected_index, 0);
    assert_eq!(menu.cursor.screen_position, Vec2 { x: -100, y: 50 });
}

#[test]
fn frame_pointer_near_second_entry_selects_it() {
    // Entries at y = 50 and y = 0, threshold 25: a pointer at (0, 10) is at
    // distance 10 from entry 1, so the frame ends with entry 1 selected and
    // the marker on its line.
    let mut menu = Menu::new(standard_labels(), MenuLayout::standard());
    menu.set_state(AppState::MainMenu);
    menu.run_frame(KeyInput::none(), Some(Vec2 { x: 0, y: 10 }));
    assert_eq!(menu.cursor.selected_index, 1);
    assert_eq!(menu.cursor.screen_position, Vec2 { x: -100, y: 0 });
}

#[test]
fn frame_pointer_overrides_keyboard() {
    // A "down" press alone would select entry 1, but the pointer hovers
    // entry 0 and the hover resolver runs second, so entry 0 wins.
    let mut menu = Menu::new(standard_labels(), MenuLayout::standard());
    menu.set_state(AppState::MainMenu);
    menu.run_frame(down(), Some(Vec2 { x: 0, y: 50 }));
    assert_eq!(menu.cursor.selected_index, 0);
    assert_eq!(menu.cursor.screen_position, Vec2 { x: -100, y: 50 });
}

#[test]
fn frame_without_pointer_motion_keeps_hover_out() {
    // The pointer is not re-evaluated against a stale position: with no
    // pointer event this frame, only the keyboard moves the selection.
    let mut menu = Menu::new(standard_labels(), MenuLayout::standard());
    menu.set_state(AppState::MainMenu);
    menu.run_frame(KeyInput::none(), Some(Vec2 { x: 0, y: 50 }));
    assert_eq!(menu.cursor.selected_index, 0);
    menu.run_frame(down(), None);
    assert_eq!(menu.cursor.selected_index, 1);
    assert_eq!(menu.cursor.screen_position, Vec2 { x: -100, y: 0 });
}
