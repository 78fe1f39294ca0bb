//! The boundary between the interaction engine and a visual backend.
//!
//! A [`Styler`] draws widgets and answers content-metric queries; the
//! engine never inspects pixels. The contracts here are the whole of what
//! the engine relies on: measurements are bounded, and hit-tests always
//! return indices clamped into the valid range. Helpers shared by any
//! backend — visual-state selection, scrollbar thumb geometry, visible
//! item ranges and color parsing — live here as verified functions.
use vstd::prelude::*;
use vstd::string::StringSliceAdditionalSpecFns;

use crate::control::{Button, Control, Listbox, Scrollbar, Textbox, SCROLL_ONE};
use crate::geo::{Point, Rect, COORD_LIMIT, GEOM_LIMIT};
use crate::PersistentState;

verus! {

/// Height in pixels of one listbox row.
pub const LISTBOX_ITEM_HEIGHT: i64 = 20;

/// Pixels of padding around a listbox item's text.
pub const LISTBOX_ITEM_PADDING: i64 = 4;

/// The visual backend. The engine calls it to draw and to query content
/// metrics; all calls are synchronous and side-effecting only on the
/// backend's own surface.
pub trait Styler: Sized {
    /// Prepare the drawing surface for a new frame. The backend receives a
    /// read-only snapshot of the engine's persistent state so it can pick
    /// hover/active/disabled visuals without per-widget plumbing.
    fn begin(&mut self, persistent_state: PersistentState);

    /// Present the completed frame.
    fn end(&mut self);

    /// Draw a button.
    fn button(&mut self, control: Control, button: Button<'_>);

    /// Draw a scrollbar.
    fn scrollbar(&mut self, control: Control, scrollbar: Scrollbar);

    /// Draw a listbox at the given scroll fractions.
    fn listbox(&mut self, control: Control, listbox: Listbox<'_>, scroll: Point);

    /// Full extent of the listbox content: the width of the widest rendered
    /// item and the height of all items stacked. Must be non-negative,
    /// within the coordinate range, and deterministic for the same items
    /// and font.
    fn listbox_get_content_size(&self, control: Control, listbox: Listbox<'_>) -> (r: Point)
        requires
            control.rect.bounded(GEOM_LIMIT),
        ensures
            0 <= r.x <= COORD_LIMIT,
            0 <= r.y <= COORD_LIMIT,
    ;

    /// Translate a point in the listbox's local space, adjusted by the
    /// scroll fractions, into the item index under it. The result is
    /// clamped into the valid index range; an empty item collection gives
    /// back the caller's selection unchanged.
    fn listbox_index_at_point(
        &self,
        control: Control,
        listbox: Listbox<'_>,
        scroll: Point,
        point: Point,
    ) -> (r: Option<usize>)
        requires
            control.rect.bounded(GEOM_LIMIT),
            point.bounded(GEOM_LIMIT),
            0 <= scroll.x <= SCROLL_ONE,
            0 <= scroll.y <= SCROLL_ONE,
        ensures
            listbox.items@.len() == 0 ==> r == listbox.index,
            listbox.items@.len() > 0 ==> r is Some && r->0 < listbox.items@.len(),
    ;

    /// Draw a textbox at the given scroll fractions.
    fn textbox(&mut self, control: Control, textbox: Textbox<'_>, scroll: Point);

    /// Full extent of the textbox content. Must be non-negative and within
    /// the coordinate range.
    fn textbox_get_content_size(&self, control: Control, textbox: Textbox<'_>) -> (r: Point)
        requires
            control.rect.bounded(GEOM_LIMIT),
        ensures
            0 <= r.x <= COORD_LIMIT,
            0 <= r.y <= COORD_LIMIT,
    ;

    /// Translate a pointer position into a caret character index, clamped
    /// into `[0, len]` where `len` is the text length in characters.
    fn textbox_index_at_point(
        &self,
        control: Control,
        textbox: Textbox<'_>,
        scroll: Point,
        point: Point,
    ) -> (r: Option<usize>)
        requires
            control.rect.bounded(GEOM_LIMIT),
            point.bounded(GEOM_LIMIT),
            0 <= scroll.x <= SCROLL_ONE,
            0 <= scroll.y <= SCROLL_ONE,
        ensures
            r is Some,
            r->0 <= textbox.text@.len(),
    ;
}

/// The visual state a control is drawn in.
#[derive(Clone, Copy, PartialEq, Eq, Structural, Hash, Debug)]
pub enum VisualState {
    Normal,
    Hover,
    Active,
    Disabled,
}

/// The visual state `visual_state_of` picks: disabled wins, then the
/// active control, then hover (pointer over the control and released, or
/// pressed on the control and dragged off it), then pressed-on-and-over,
/// then normal.
pub open spec fn spec_visual_state(m: crate::StateModel, control: Control) -> VisualState {
    if !control.enabled {
        VisualState::Disabled
    } else if m.active_control == Some(control.uid) {
        VisualState::Active
    } else {
        let now_inside = m.current_input.mouse_position.spec_inside(control.rect);
        let down_inside = m.mouse_down_position.spec_inside(control.rect);
        if now_inside && !m.current_input.primary_down {
            VisualState::Hover
        } else if down_inside && m.current_input.primary_down && !now_inside {
            VisualState::Hover
        } else if now_inside && m.current_input.primary_down && down_inside {
            VisualState::Active
        } else {
            VisualState::Normal
        }
    }
}

/// Pick the visual state to draw `control` in, from the persistent-state
/// snapshot a backend received at the start of the frame.
pub fn visual_state_of(state: &PersistentState, control: Control) -> (r: VisualState)
    requires
        state@.wf(),
        control.rect.bounded(GEOM_LIMIT),
    ensures
        r == spec_visual_state(state@, control),
{
    if !control.enabled {
        return VisualState::Disabled;
    }
    match state.active_control() {
        Some(uid) if uid == control.uid => {
            return VisualState::Active;
        },
        _ => {},
    }
    let now_inside = state.current_input().mouse_position.inside(control.rect);
    let down_inside = state.mouse_down_position().inside(control.rect);
    let down = state.current_input().primary_down;

    if now_inside && !down {
        return VisualState::Hover;
    }
    if down_inside && down && !now_inside {
        return VisualState::Hover;
    }
    if now_inside && down && down_inside {
        return VisualState::Active;
    }
    VisualState::Normal
}

/// Length of a scrollbar thumb along the scroll axis: the track extent
/// shrunk by the content ratio.
pub open spec fn spec_thumb_len(extent: int, ratio: int) -> int {
    extent * (SCROLL_ONE as int) / ratio
}

/// Offset of the thumb's leading edge along the track for a scroll value:
/// the value carried linearly over the track space the thumb leaves free.
pub open spec fn spec_thumb_offset(value: int, extent: int, ratio: int) -> int {
    value * (extent - spec_thumb_len(extent, ratio)) / (SCROLL_ONE as int)
}

/// The rectangle of a scrollbar's draggable thumb. A track wider than
/// tall scrolls horizontally, otherwise vertically; the thumb spans the
/// full cross axis.
pub fn scrollbar_get_thumb(control: Control, scrollbar: Scrollbar) -> (r: Rect)
    requires
        control.rect.bounded(GEOM_LIMIT),
        0 <= control.rect.w,
        0 <= control.rect.h,
        0 <= scrollbar.value <= SCROLL_ONE,
        SCROLL_ONE <= scrollbar.ratio,
    ensures
        control.rect.w > control.rect.h ==> r == (Rect {
            x: (control.rect.x + spec_thumb_offset(
                scrollbar.value as int,
                control.rect.w as int,
                scrollbar.ratio as int,
            )) as i64,
            y: control.rect.y,
            w: spec_thumb_len(control.rect.w as int, scrollbar.ratio as int) as i64,
            h: control.rect.h,
        }),
        control.rect.w <= control.rect.h ==> r == (Rect {
            x: control.rect.x,
            y: (control.rect.y + spec_thumb_offset(
                scrollbar.value as int,
                control.rect.h as int,
                scrollbar.ratio as int,
            )) as i64,
            w: control.rect.w,
            h: spec_thumb_len(control.rect.h as int, scrollbar.ratio as int) as i64,
        }),
{
    if control.rect.w > control.rect.h {
        let thumb_len: i64 = thumb_len(control.rect.w, scrollbar.ratio);
        let thumb_offset: i64 = crate::geo::remap(
            scrollbar.value,
            0,
            SCROLL_ONE,
            0,
            control.rect.w - thumb_len,
        );
        Rect {
            x: control.rect.x + thumb_offset,
            y: control.rect.y,
            w: thumb_len,
            h: control.rect.h,
        }
    } else {
        let thumb_len: i64 = thumb_len(control.rect.h, scrollbar.ratio);
        let thumb_offset: i64 = crate::geo::remap(
            scrollbar.value,
            0,
            SCROLL_ONE,
            0,
            control.rect.h - thumb_len,
        );
        Rect {
            x: control.rect.x,
            y: control.rect.y + thumb_offset,
            w: control.rect.w,
            h: thumb_len,
        }
    }
}

/// The thumb length along one axis; never longer than the track.
fn thumb_len(extent: i64, ratio: i64) -> (r: i64)
    requires
        0 <= extent <= GEOM_LIMIT,
        SCROLL_ONE <= ratio,
    ensures
        r == spec_thumb_len(extent as int, ratio as int),
        0 <= r <= extent,
{
    proof {
        lemma_thumb_len_bounds(extent as int, ratio as int);
    }
    extent * SCROLL_ONE / ratio
}

/// A thumb shrunk by a ratio of at least one never outgrows its track.
proof fn lemma_thumb_len_bounds(extent: int, ratio: int)
    requires
        0 <= extent,
        SCROLL_ONE <= ratio,
    ensures
        0 <= spec_thumb_len(extent, ratio) <= extent,
{
    assert(extent * SCROLL_ONE <= extent * ratio) by (nonlinear_arith)
        requires
            0 <= extent,
            SCROLL_ONE <= ratio,
    ;
    assert(0 <= extent * SCROLL_ONE) by (nonlinear_arith)
        requires
            0 <= extent,
    ;
    vstd::arithmetic::div_mod::lemma_div_is_ordered(extent * SCROLL_ONE, extent * ratio, ratio);
    assert(extent * ratio == ratio * extent) by (nonlinear_arith);
    vstd::arithmetic::div_mod::lemma_div_by_multiple(extent, ratio);
    vstd::arithmetic::div_mod::lemma_div_pos_is_pos(extent * SCROLL_ONE, ratio);
}

/// The half-open range of listbox rows a backend should draw at a scroll
/// fraction, before clamping: the scroll carries the content past the
/// viewport, and whole rows are taken from the first one still visible to
/// one past the last.
pub open spec fn spec_visible_begin(viewport_h: int, items_len: nat, scroll_y: int) -> int {
    let content_h = items_len * LISTBOX_ITEM_HEIGHT;
    let moved_num = scroll_y * (content_h - viewport_h);
    if moved_num <= 0 {
        0
    } else {
        (moved_num / (SCROLL_ONE as int)) / (LISTBOX_ITEM_HEIGHT as int)
    }
}

/// One past the last row visible at a scroll fraction, before clamping.
pub open spec fn spec_visible_end(viewport_h: int, items_len: nat, scroll_y: int) -> int {
    let content_h = items_len * LISTBOX_ITEM_HEIGHT;
    let moved_num = scroll_y * (content_h - viewport_h);
    let num = viewport_h * (SCROLL_ONE as int) + moved_num;
    let base = if num <= 0 {
        0
    } else {
        (num / (SCROLL_ONE as int)) / (LISTBOX_ITEM_HEIGHT as int)
    };
    base + 1
}

/// The rows of a listbox a backend should draw, as a half-open range
/// clamped into `[0, items_len]`.
pub fn listbox_visible_range(control: Control, listbox: Listbox<'_>, scroll: Point) -> (r: (
    usize,
    usize,
))
    requires
        control.rect.bounded(GEOM_LIMIT),
        0 <= scroll.y <= SCROLL_ONE,
        listbox.items@.len() * LISTBOX_ITEM_HEIGHT <= GEOM_LIMIT,
    ensures
        ({
            let len = listbox.items@.len();
            let vb = spec_visible_begin(control.rect.h as int, len, scroll.y as int);
            let ve = spec_visible_end(control.rect.h as int, len, scroll.y as int);
            &&& r.0 == (if vb >= len {
                len as int
            } else {
                vb
            })
            &&& r.1 == (if ve >= len {
                len as int
            } else {
                ve
            })
            &&& r.0 <= len
            &&& r.1 <= len
        }),
{
    let n: usize = listbox.items.len();
    let content_h: i64 = (n as i64) * LISTBOX_ITEM_HEIGHT;
    let over: i64 = content_h - control.rect.h;
    proof {
        assert(-2 * GEOM_LIMIT <= over <= 2 * GEOM_LIMIT);
        assert(-2 * GEOM_LIMIT * (SCROLL_ONE as int) <= scroll.y * over <= 2 * GEOM_LIMIT * (
        SCROLL_ONE as int)) by (nonlinear_arith)
            requires
                0 <= scroll.y <= SCROLL_ONE,
                -2 * GEOM_LIMIT <= over <= 2 * GEOM_LIMIT,
        ;
    }
    let moved_num: i64 = scroll.y * over;
    let begin_i: i64 = if moved_num <= 0 {
        0
    } else {
        (moved_num / SCROLL_ONE) / LISTBOX_ITEM_HEIGHT
    };
    let end_num: i64 = control.rect.h * SCROLL_ONE + moved_num;
    let end_i: i64 = (if end_num <= 0 {
        0i64
    } else {
        (end_num / SCROLL_ONE) / LISTBOX_ITEM_HEIGHT
    }) + 1;
    let begin: usize = if (begin_i as u64) >= (n as u64) {
        n
    } else {
        begin_i as usize
    };
    let end: usize = if (end_i as u64) >= (n as u64) {
        n
    } else {
        end_i as usize
    };
    (begin, end)
}

/// A color with 8-bit red, green and blue channels.
#[derive(Clone, Copy, PartialEq, Eq, Structural, Debug)]
pub struct Rgb {
    pub r: u8,
    pub g: u8,
    pub b: u8,
}

/// An ASCII hexadecimal digit, either case.
pub open spec fn is_hex_digit(c: u8) -> bool {
    (48 <= c <= 57) || (97 <= c <= 102) || (65 <= c <= 70)
}

/// The value of one hexadecimal digit.
pub open spec fn spec_hex_digit(c: u8) -> int {
    if 48 <= c <= 57 {
        c - 48
    } else if 97 <= c <= 102 {
        c - 87
    } else {
        c - 55
    }
}

/// The value of a two-digit hexadecimal byte.
pub open spec fn spec_hex_byte(hi: u8, lo: u8) -> int {
    16 * spec_hex_digit(hi) + spec_hex_digit(lo)
}

/// A well-formed `#RRGGBB` color string, as bytes.
pub open spec fn is_hex_color(bytes: Seq<u8>) -> bool {
    &&& bytes.len() == 7
    &&& bytes[0] == 35
    &&& forall|i: int| 1 <= i <= 6 ==> is_hex_digit(#[trigger] bytes[i])
}

/// The value of one hexadecimal digit.
fn hex_digit(c: u8) -> (v: u8)
    requires
        is_hex_digit(c),
    ensures
        v == spec_hex_digit(c),
        v <= 15,
{
    if c >= 97 {
        c - 87
    } else if c >= 65 {
        c - 55
    } else {
        c - 48
    }
}

/// Parse a `#RRGGBB` color string into its channels.
pub fn hex(s: &str) -> (color: Rgb)
    requires
        is_hex_color(s.spec_bytes()),
    ensures
        color.r == spec_hex_byte(s.spec_bytes()[1], s.spec_bytes()[2]),
        color.g == spec_hex_byte(s.spec_bytes()[3], s.spec_bytes()[4]),
        color.b == spec_hex_byte(s.spec_bytes()[5], s.spec_bytes()[6]),
{
    let bytes: &[u8] = s.as_bytes();
    let r: u8 = 16 * hex_digit(bytes[1]) + hex_digit(bytes[2]);
    let g: u8 = 16 * hex_digit(bytes[3]) + hex_digit(bytes[4]);
    let b: u8 = 16 * hex_digit(bytes[5]) + hex_digit(bytes[6]);
    Rgb { r, g, b }
}

} // verus!
