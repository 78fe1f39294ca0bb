use ugui::control::{Button, Control, Listbox, Scrollbar, Textbox, SCROLL_ONE};
use ugui::geo::{Point, Rect};
use ugui::headless::HeadlessStyler;
use ugui::input::Input;
use ugui::{PersistentState, Ugui};

fn engine() -> Ugui<HeadlessStyler> {
    Ugui { styler: HeadlessStyler::new(), persistent_state: PersistentState::new() }
}

fn input(x: i64, y: i64, down: bool) -> Input {
    Input { mouse_position: Point { x, y }, mouse_wheel: 0, primary_down: down }
}

#[test]
fn button_push_is_edge_triggered_across_frames() {
    let mut u = engine();
    let c = Control { uid: 7, enabled: true, rect: Rect { x: 60, y: 30, w: 100, h: 23 } };

    // Frame A: pointer over the button but up.
    u.begin(input(80, 40, false));
    assert!(!u.button(c, Button { text: "ok" }));
    u.end();
    assert_eq!(u.persistent_state.active_control(), None);

    // Frame B: press edge inside the button.
    u.begin(input(80, 40, true));
    assert!(u.button(c, Button { text: "ok" }));
    u.end();
    assert_eq!(u.persistent_state.active_control(), Some(7));

    // Frame C: still held; no new push, capture unchanged.
    u.begin(input(80, 40, true));
    assert!(!u.button(c, Button { text: "ok" }));
    u.end();
    assert_eq!(u.persistent_state.active_control(), Some(7));

    // Frame D: released; capture cleared at end.
    u.begin(input(80, 40, false));
    assert!(!u.button(c, Button { text: "ok" }));
    u.end();
    assert_eq!(u.persistent_state.active_control(), None);
}

#[test]
fn button_on_boundary_is_not_pushed() {
    let mut u = engine();
    let c = Control { uid: 1, enabled: true, rect: Rect { x: 10, y: 10, w: 20, h: 20 } };
    // Containment is strict: a press exactly on the edge does not push.
    u.begin(input(10, 15, true));
    assert!(!u.button(c, Button { text: "edge" }));
    u.end();
    assert_eq!(u.persistent_state.active_control(), None);
}

#[test]
fn disabled_control_never_pushes_or_activates() {
    let mut u = engine();
    let c = Control { uid: 2, enabled: false, rect: Rect { x: 0, y: 0, w: 50, h: 50 } };
    u.begin(input(25, 25, true));
    assert!(!u.button(c, Button { text: "off" }));
    u.end();
    assert_eq!(u.persistent_state.active_control(), None);
}

#[test]
fn scrollbar_vertical_drag_tracks_pointer_and_clamps() {
    let mut u = engine();
    let c = Control { uid: 11, enabled: true, rect: Rect { x: 300, y: 80, w: 16, h: 350 } };
    let sb = |value: i64| Scrollbar { value, ratio: 1500000 };

    // Press at local y = 175: half way down the track.
    u.begin(input(308, 255, true));
    let v1 = u.scrollbar(c, sb(0));
    assert_eq!(v1, 500000);
    u.end();

    // Drag downward: the value rises monotonically and never passes one.
    let mut last = v1;
    let mut v = v1;
    for y in [300, 350, 430, 500, 900] {
        u.begin(input(308, y, true));
        v = u.scrollbar(c, sb(v));
        assert!(v >= last);
        assert!(v <= SCROLL_ONE);
        last = v;
        u.end();
    }
    assert_eq!(v, SCROLL_ONE);
}

#[test]
fn scrollbar_horizontal_orientation_uses_x_axis() {
    let mut u = engine();
    // Wider than tall: horizontal.
    let c = Control { uid: 3, enabled: true, rect: Rect { x: 100, y: 10, w: 200, h: 16 } };
    u.begin(input(150, 18, true));
    let v = u.scrollbar(c, Scrollbar { value: 0, ratio: 2000000 });
    assert_eq!(v, 250000);
    u.end();
}

#[test]
fn scrollbar_clamps_caller_value_when_idle() {
    let mut u = engine();
    let c = Control { uid: 4, enabled: true, rect: Rect { x: 0, y: 0, w: 16, h: 100 } };
    u.begin(input(500, 500, false));
    assert_eq!(u.scrollbar(c, Scrollbar { value: 2 * SCROLL_ONE, ratio: SCROLL_ONE }), SCROLL_ONE);
    assert_eq!(u.scrollbar(c, Scrollbar { value: -5, ratio: SCROLL_ONE }), 0);
    assert_eq!(u.scrollbar(c, Scrollbar { value: 123456, ratio: SCROLL_ONE }), 123456);
    u.end();
}

#[test]
fn scrollbar_value_is_persisted_per_identity() {
    let mut u = engine();
    let c = Control { uid: 21, enabled: true, rect: Rect { x: 0, y: 0, w: 16, h: 100 } };
    u.begin(input(200, 200, false));
    u.scrollbar(c, Scrollbar { value: 777, ratio: SCROLL_ONE });
    u.end();
    let entry = u.persistent_state.get_state(21).expect("entry created");
    assert_eq!(entry.scrollbar_value, 777);
    assert!(u.persistent_state.get_state(22).is_none());
}

#[test]
fn redeclaring_a_widget_with_no_new_events_is_idempotent() {
    let mut u = engine();
    let c = Control { uid: 5, enabled: true, rect: Rect { x: 0, y: 0, w: 16, h: 100 } };
    // Quiescent pointer: two identical frames give the same value and entry.
    u.begin(input(8, 30, false));
    let v1 = u.scrollbar(c, Scrollbar { value: 250000, ratio: SCROLL_ONE });
    u.end();
    let e1 = u.persistent_state.get_state(5).unwrap().scrollbar_value;
    u.begin(input(8, 30, false));
    let v2 = u.scrollbar(c, Scrollbar { value: v1, ratio: SCROLL_ONE });
    u.end();
    let e2 = u.persistent_state.get_state(5).unwrap().scrollbar_value;
    assert_eq!(v1, v2);
    assert_eq!(e1, e2);
}

#[test]
fn listbox_click_selects_clamped_row() {
    let mut u = engine();
    let items: Vec<&str> = vec!["alpha", "beta", "gamma"];
    let c = Control { uid: 30, enabled: true, rect: Rect { x: 0, y: 0, w: 100, h: 100 } };

    // Click in the third row.
    u.begin(input(10, 45, true));
    let sel = u.listbox(c, Listbox { items: &items, index: None });
    assert_eq!(sel, Some(2));
    u.end();

    // Click far below the last row: the index clamps to the last item.
    u.begin(input(10, 45, false));
    u.listbox(c, Listbox { items: &items, index: sel });
    u.end();
    u.begin(input(10, 99, true));
    let sel2 = u.listbox(c, Listbox { items: &items, index: sel });
    assert_eq!(sel2, Some(2));
    u.end();
}

#[test]
fn listbox_with_no_items_keeps_caller_selection() {
    let mut u = engine();
    let items: Vec<&str> = vec![];
    let c = Control { uid: 40, enabled: true, rect: Rect { x: 0, y: 0, w: 100, h: 100 } };
    u.begin(input(50, 50, true));
    assert_eq!(u.listbox(c, Listbox { items: &items, index: Some(9) }), Some(9));
    u.end();
    u.begin(input(50, 50, false));
    u.end();
    u.begin(input(50, 50, true));
    assert_eq!(u.listbox(c, Listbox { items: &items, index: None }), None);
    u.end();
}

#[test]
fn listbox_keeps_selection_when_not_interacting() {
    let mut u = engine();
    let items: Vec<&str> = vec!["a", "b", "c"];
    let c = Control { uid: 50, enabled: true, rect: Rect { x: 0, y: 0, w: 100, h: 100 } };
    u.begin(input(500, 500, false));
    assert_eq!(u.listbox(c, Listbox { items: &items, index: Some(1) }), Some(1));
    u.end();
}

#[test]
fn listbox_overflow_creates_embedded_scrollbar_entries() {
    let mut u = engine();
    // Ten items of twenty pixels overflow a fifty-pixel viewport.
    let items: Vec<&str> = vec!["a", "b", "c", "d", "e", "f", "g", "h", "i", "j"];
    let c = Control { uid: 60, enabled: true, rect: Rect { x: 0, y: 0, w: 100, h: 50 } };
    u.begin(input(500, 500, false));
    u.listbox(c, Listbox { items: &items, index: None });
    u.end();
    // Both child identities exist; only the vertical axis overflowed, so
    // both entries still hold the default fraction.
    assert!(u.persistent_state.get_state(61).is_some());
    assert!(u.persistent_state.get_state(62).is_some());
    assert_eq!(u.persistent_state.get_state(62).unwrap().scrollbar_value, 0);
}

#[test]
fn listbox_embedded_scrollbar_drag_scrolls_on_the_next_frame() {
    let mut u = engine();
    let items: Vec<&str> = vec!["a", "b", "c", "d", "e", "f", "g", "h", "i", "j"];
    // Content height 200 against viewport 100: vertical overflow.
    let c = Control { uid: 70, enabled: true, rect: Rect { x: 0, y: 0, w: 100, h: 100 } };
    // Drag the vertical scrollbar (right strip, x in (84, 100)) to the middle.
    u.begin(input(90, 50, true));
    u.listbox(c, Listbox { items: &items, index: None });
    u.end();
    let v = u.persistent_state.get_state(72).unwrap().scrollbar_value;
    assert_eq!(v, 500000);
}

#[test]
fn textbox_returns_text_and_tracks_caret() {
    let mut u = engine();
    let text = String::from("hello");
    let c = Control { uid: 80, enabled: true, rect: Rect { x: 60, y: 30, w: 100, h: 23 } };
    u.begin(input(80, 40, true));
    let out = u.textbox(c, Textbox { text: &text });
    assert_eq!(out, "hello");
    u.end();
    // Local x = 20 at eight pixels per character puts the caret at column 3.
    assert_eq!(u.persistent_state.get_state(80).unwrap().textbox_caret, 3);
    assert_eq!(u.persistent_state.active_control(), Some(80));
}

#[test]
fn textbox_suppresses_auto_release_until_outside_click() {
    let mut u = engine();
    let text = String::from("abc");
    let c = Control { uid: 90, enabled: true, rect: Rect { x: 0, y: 0, w: 100, h: 20 } };

    // Click into the textbox.
    u.begin(input(10, 10, true));
    u.textbox(c, Textbox { text: &text });
    u.end();
    assert_eq!(u.persistent_state.active_control(), Some(90));

    // Releasing the pointer does not release the textbox.
    u.begin(input(10, 10, false));
    u.textbox(c, Textbox { text: &text });
    u.end();
    assert_eq!(u.persistent_state.active_control(), Some(90));

    // A press edge outside its bounds exits edit mode.
    u.begin(input(500, 500, true));
    u.textbox(c, Textbox { text: &text });
    u.end();
    assert_eq!(u.persistent_state.active_control(), None);
}

#[test]
fn auto_release_applies_to_non_textbox_widgets() {
    let mut u = engine();
    let c = Control { uid: 100, enabled: true, rect: Rect { x: 0, y: 0, w: 16, h: 100 } };
    u.begin(input(8, 50, true));
    u.scrollbar(c, Scrollbar { value: 0, ratio: SCROLL_ONE });
    u.end();
    assert_eq!(u.persistent_state.active_control(), Some(100));
    u.begin(input(8, 50, false));
    u.scrollbar(c, Scrollbar { value: 0, ratio: SCROLL_ONE });
    u.end();
    assert_eq!(u.persistent_state.active_control(), None);
}

#[test]
fn wheel_direction_helpers() {
    let up = Input { mouse_position: Point { x: 0, y: 0 }, mouse_wheel: -1, primary_down: false };
    let down = Input { mouse_position: Point { x: 0, y: 0 }, mouse_wheel: 1, primary_down: false };
    let still = Input { mouse_position: Point { x: 0, y: 0 }, mouse_wheel: 0, primary_down: false };
    assert!(up.wheel_up() && !up.wheel_down());
    assert!(down.wheel_down() && !down.wheel_up());
    assert!(!still.wheel_up() && !still.wheel_down());
}

#[test]
fn fresh_state_has_quiet_defaults() {
    let s = PersistentState::new();
    assert_eq!(s.active_control(), None);
    assert!(!s.current_input().primary_down);
    assert_eq!(s.current_input().mouse_position, Point { x: 0, y: 0 });
    assert_eq!(s.mouse_down_position(), Point { x: 0, y: 0 });
    assert!(s.get_state(0).is_none());
}

#[test]
fn listbox_hit_testing_accounts_for_persisted_scroll() {
    let mut u = engine();
    let items: Vec<&str> = vec!["a", "b", "c", "d", "e", "f", "g", "h", "i", "j"];
    let c = Control { uid: 110, enabled: true, rect: Rect { x: 0, y: 0, w: 100, h: 100 } };

    // Drag the embedded vertical scrollbar half way down.
    u.begin(input(90, 50, true));
    u.listbox(c, Listbox { items: &items, index: None });
    u.end();
    assert_eq!(u.persistent_state.get_state(112).unwrap().scrollbar_value, 500000);

    // Release, then click into the list surface: the click lands fifty
    // pixels into the scrolled content, in the fifth row.
    u.begin(input(90, 50, false));
    u.listbox(c, Listbox { items: &items, index: None });
    u.end();
    u.begin(input(10, 35, true));
    let sel = u.listbox(c, Listbox { items: &items, index: None });
    assert_eq!(sel, Some(4));
    u.end();
}

#[test]
fn textbox_caret_follows_a_drag_selection_outside_the_bounds() {
    let mut u = engine();
    let text = String::from("hello world");
    let c = Control { uid: 120, enabled: true, rect: Rect { x: 0, y: 0, w: 40, h: 20 } };

    // Press inside, then drag right past the edge with the button held:
    // the capture survives and the caret clamps to the end of the text.
    u.begin(input(10, 10, true));
    u.textbox(c, Textbox { text: &text });
    u.end();
    assert_eq!(u.persistent_state.get_state(120).unwrap().textbox_caret, 1);
    u.begin(input(300, 10, true));
    u.textbox(c, Textbox { text: &text });
    u.end();
    assert_eq!(u.persistent_state.active_control(), Some(120));
    assert_eq!(u.persistent_state.get_state(120).unwrap().textbox_caret, 11);
}
