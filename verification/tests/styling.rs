use ugui::control::{Control, Listbox, Scrollbar, Textbox};
use ugui::geo::{Point, Rect};
use ugui::headless::{caret_index, listbox_hit_index, text_width, HeadlessStyler};
use ugui::input::Input;
use ugui::styler::{
    hex, listbox_visible_range, scrollbar_get_thumb, visual_state_of, Rgb, Styler, VisualState,
};
use ugui::PersistentState;

#[test]
fn hex_parses_channels() {
    assert_eq!(hex("#E1E1E1"), Rgb { r: 225, g: 225, b: 225 });
    assert_eq!(hex("#0078D7"), Rgb { r: 0, g: 120, b: 215 });
    assert_eq!(hex("#000000"), Rgb { r: 0, g: 0, b: 0 });
    assert_eq!(hex("#ffffff"), Rgb { r: 255, g: 255, b: 255 });
    assert_eq!(hex("#a0B1c2"), Rgb { r: 160, g: 177, b: 194 });
}

#[test]
fn thumb_geometry_vertical() {
    let c = Control { uid: 0, enabled: true, rect: Rect { x: 300, y: 80, w: 16, h: 350 } };
    let thumb = scrollbar_get_thumb(c, Scrollbar { value: 500000, ratio: 1500000 });
    // The thumb is the track shrunk by the ratio, moved over the free space.
    assert_eq!(thumb, Rect { x: 300, y: 138, w: 16, h: 233 });
    let top = scrollbar_get_thumb(c, Scrollbar { value: 0, ratio: 1500000 });
    assert_eq!(top.y, 80);
    let bottom = scrollbar_get_thumb(c, Scrollbar { value: 1000000, ratio: 1500000 });
    assert_eq!(bottom.y + bottom.h, 430);
}

#[test]
fn thumb_geometry_horizontal() {
    let c = Control { uid: 0, enabled: true, rect: Rect { x: 0, y: 0, w: 200, h: 16 } };
    let thumb = scrollbar_get_thumb(c, Scrollbar { value: 1000000, ratio: 2000000 });
    assert_eq!(thumb, Rect { x: 100, y: 0, w: 100, h: 16 });
}

#[test]
fn visual_states_follow_pointer_and_capture() {
    let mut state = PersistentState::new();
    let c = Control { uid: 5, enabled: true, rect: Rect { x: 0, y: 0, w: 100, h: 100 } };
    let disabled = Control { enabled: false, ..c };

    assert_eq!(visual_state_of(&state, disabled), VisualState::Disabled);
    assert_eq!(visual_state_of(&state, c), VisualState::Normal);

    // Pointer over the control, button up: hover.
    state.current_input =
        Input { mouse_position: Point { x: 50, y: 50 }, mouse_wheel: 0, primary_down: false };
    assert_eq!(visual_state_of(&state, c), VisualState::Hover);

    // Pressed on the control and still over it: active.
    state.current_input =
        Input { mouse_position: Point { x: 50, y: 50 }, mouse_wheel: 0, primary_down: true };
    state.mouse_down_position = Point { x: 50, y: 50 };
    assert_eq!(visual_state_of(&state, c), VisualState::Active);

    // Pressed on the control and dragged off it: hover.
    state.current_input =
        Input { mouse_position: Point { x: 500, y: 50 }, mouse_wheel: 0, primary_down: true };
    assert_eq!(visual_state_of(&state, c), VisualState::Hover);

    // The captured control is active regardless of the pointer.
    state.active_control = Some(5);
    state.current_input =
        Input { mouse_position: Point { x: 999, y: 999 }, mouse_wheel: 0, primary_down: false };
    assert_eq!(visual_state_of(&state, c), VisualState::Active);
}

#[test]
fn headless_text_width_is_per_character() {
    assert_eq!(text_width(""), 0);
    assert_eq!(text_width("hello"), 40);
}

#[test]
fn headless_content_size() {
    let styler = HeadlessStyler::new();
    let c = Control { uid: 0, enabled: true, rect: Rect { x: 0, y: 0, w: 100, h: 100 } };
    let items: Vec<&str> = vec!["a", "bbb"];
    let size = styler.listbox_get_content_size(c, Listbox { items: &items, index: None });
    assert_eq!(size, Point { x: 28, y: 40 });

    let empty: Vec<&str> = vec![];
    let size = styler.listbox_get_content_size(c, Listbox { items: &empty, index: None });
    assert_eq!(size, Point { x: 0, y: 0 });

    let text = String::from("anything");
    let size = styler.textbox_get_content_size(c, Textbox { text: &text });
    assert_eq!(size, Point { x: 0, y: 0 });
}

#[test]
fn headless_listbox_hit_rows() {
    let items: Vec<&str> = vec!["a"; 10];
    let lb = Listbox { items: &items, index: None };
    // Twenty-pixel rows: y = 35 lands in the second row.
    assert_eq!(listbox_hit_index(100, lb, 0, 35), 1);
    // Half a fraction over a hundred-pixel overflow shifts by fifty pixels.
    assert_eq!(listbox_hit_index(100, lb, 500000, 35), 4);
    // Above the top and below the bottom clamp.
    assert_eq!(listbox_hit_index(100, lb, 0, -50), 0);
    assert_eq!(listbox_hit_index(100, lb, 0, 100000), 9);
}

#[test]
fn headless_caret_columns() {
    assert_eq!(caret_index(300, "hello", 300), 0);
    assert_eq!(caret_index(300, "hello", 321), 3);
    // Far to the right clamps to the end of the text.
    assert_eq!(caret_index(300, "hello", 4000), 5);
    // Left of the text clamps to the start.
    assert_eq!(caret_index(300, "hello", 5), 0);
}

#[test]
fn visible_range_covers_the_viewport() {
    let items: Vec<&str> = vec!["a"; 10];
    let c = Control { uid: 0, enabled: true, rect: Rect { x: 0, y: 0, w: 100, h: 100 } };
    let lb = Listbox { items: &items, index: None };
    assert_eq!(listbox_visible_range(c, lb, Point { x: 0, y: 0 }), (0, 6));
    assert_eq!(listbox_visible_range(c, lb, Point { x: 0, y: 1000000 }), (5, 10));
}
