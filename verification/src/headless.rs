//! A headless visual backend: it draws nothing and answers content
//! metrics from fixed per-character and per-item sizes. It is the
//! reference implementation of the [`Styler`](crate::styler::Styler)
//! contract — every clamping promise the engine relies on is proved here —
//! and the natural backend for exercising the engine without a window.
use vstd::prelude::*;
use vstd::string::StrSliceExecFns;

use crate::control::{Button, Control, Listbox, Scrollbar, Textbox, SCROLL_ONE};
use crate::geo::{Point, COORD_LIMIT, GEOM_LIMIT};
use crate::styler::{Styler, LISTBOX_ITEM_HEIGHT, LISTBOX_ITEM_PADDING};
use crate::PersistentState;

verus! {

/// Width in pixels the headless backend gives every character.
pub const CHAR_WIDTH: i64 = 8;

/// Characters of one item beyond which the headless backend stops
/// measuring and reports the width cap.
pub const MAX_MEASURED_CHARS: usize = 67108864;

/// The width reported for items at or beyond the measuring cap;
/// equals `CHAR_WIDTH * MAX_MEASURED_CHARS`.
pub const MEASURE_LIMIT: i64 = 536870912;

/// Items beyond which the headless backend stops measuring and reports
/// the height cap `MAX_MEASURED_ITEMS * LISTBOX_ITEM_HEIGHT`.
pub const MAX_MEASURED_ITEMS: usize = 26843545;

/// The width the headless backend gives a rendered string: a fixed width
/// per character, capped.
pub open spec fn spec_text_width(s: Seq<char>) -> int {
    if s.len() > MAX_MEASURED_CHARS {
        MEASURE_LIMIT as int
    } else {
        s.len() * CHAR_WIDTH
    }
}

/// The width of the widest item, before padding.
pub open spec fn spec_widest_item(items: Seq<&str>) -> int
    decreases items.len(),
{
    if items.len() == 0 {
        0
    } else {
        let rest = spec_widest_item(items.drop_last());
        let w = spec_text_width(items.last()@);
        if w > rest {
            w
        } else {
            rest
        }
    }
}

/// The full content width of a listbox: the widest item plus padding;
/// zero when there are no items.
pub open spec fn spec_listbox_content_width(items: Seq<&str>) -> int {
    if items.len() == 0 {
        0
    } else {
        spec_widest_item(items) + LISTBOX_ITEM_PADDING
    }
}

/// The full content height of a listbox: the items stacked, capped.
pub open spec fn spec_listbox_content_height(n: nat) -> int {
    if n > MAX_MEASURED_ITEMS {
        (MAX_MEASURED_ITEMS as int) * LISTBOX_ITEM_HEIGHT
    } else {
        n * LISTBOX_ITEM_HEIGHT
    }
}

/// Measure one rendered string at the fixed per-character width.
pub fn text_width(s: &str) -> (w: i64)
    ensures
        w == spec_text_width(s@),
        0 <= w <= MEASURE_LIMIT,
{
    let n: usize = s.unicode_len();
    if n > MAX_MEASURED_CHARS {
        MEASURE_LIMIT
    } else {
        (n as i64) * CHAR_WIDTH
    }
}

/// Measure the full content extent of a listbox's items.
pub fn listbox_content_size(listbox: Listbox<'_>) -> (r: Point)
    ensures
        r.x == spec_listbox_content_width(listbox.items@),
        r.y == spec_listbox_content_height(listbox.items@.len()),
        0 <= r.x <= COORD_LIMIT,
        0 <= r.y <= COORD_LIMIT,
{
    let ghost items = listbox.items@;
    let n: usize = listbox.items.len();
    let mut widest: i64 = 0;
    let mut i: usize = 0;
    while i < n
        invariant
            i <= n,
            n == items.len(),
            listbox.items@ == items,
            widest == spec_widest_item(items.take(i as int)),
            0 <= widest <= MEASURE_LIMIT,
        decreases n - i,
    {
        let w = text_width(listbox.items[i]);
        proof {
            assert(items.take(i + 1).drop_last() =~= items.take(i as int));
            assert(items.take(i + 1).last() == items[i as int]);
        }
        if w > widest {
            widest = w;
        }
        i = i + 1;
    }
    proof {
        assert(items.take(n as int) =~= items);
    }
    let width: i64 = if n == 0 {
        0
    } else {
        widest + LISTBOX_ITEM_PADDING
    };
    let capped: usize = if n > MAX_MEASURED_ITEMS {
        MAX_MEASURED_ITEMS
    } else {
        n
    };
    let height: i64 = (capped as i64) * LISTBOX_ITEM_HEIGHT;
    Point { x: width, y: height }
}

/// The row index the headless backend reports under a local point, before
/// clamping: the scroll fraction carries the content past the viewport,
/// and the point lands in a fixed-height row.
pub open spec fn spec_listbox_raw_index(
    viewport_h: int,
    items_len: nat,
    scroll_y: int,
    point_y: int,
) -> int {
    let content_h = spec_listbox_content_height(items_len);
    let y_num = point_y * (SCROLL_ONE as int) + scroll_y * (content_h - viewport_h);
    let denom = (SCROLL_ONE as int) * LISTBOX_ITEM_HEIGHT;
    if y_num <= 0 {
        0
    } else {
        let c = (y_num + denom - 1) / denom;
        if c >= 1 {
            c - 1
        } else {
            0
        }
    }
}

/// The reported row index after clamping into `[0, items_len - 1]`.
pub open spec fn spec_listbox_hit_index(
    viewport_h: int,
    items_len: nat,
    scroll_y: int,
    point_y: int,
) -> int {
    let raw = spec_listbox_raw_index(viewport_h, items_len, scroll_y, point_y);
    if raw >= items_len {
        items_len - 1
    } else {
        raw
    }
}

/// The caret column the headless backend reports for a pointer at
/// `point_x` over a single line of text starting at `origin_x`: the
/// nearest character boundary, clamped into `[0, len]`.
pub open spec fn spec_caret_index(origin_x: int, len: nat, point_x: int) -> int {
    let local = point_x - origin_x;
    let col = if local <= 0 {
        0
    } else {
        (local + (CHAR_WIDTH as int) / 2) / (CHAR_WIDTH as int)
    };
    if col >= len {
        len as int
    } else {
        col
    }
}

/// The row index under a local point, clamped into the item range.
pub fn listbox_hit_index(
    viewport_h: i64,
    listbox: Listbox<'_>,
    scroll_y: i64,
    point_y: i64,
) -> (r: usize)
    requires
        listbox.items@.len() > 0,
        -GEOM_LIMIT <= viewport_h <= GEOM_LIMIT,
        0 <= scroll_y <= SCROLL_ONE,
        -GEOM_LIMIT <= point_y <= GEOM_LIMIT,
    ensures
        r == spec_listbox_hit_index(
            viewport_h as int,
            listbox.items@.len(),
            scroll_y as int,
            point_y as int,
        ),
        r < listbox.items@.len(),
{
    let n: usize = listbox.items.len();
    let content_h: i64 = listbox_content_size(listbox).y;
    let over: i64 = content_h - viewport_h;
    proof {
        assert(-2 * GEOM_LIMIT <= over <= 2 * GEOM_LIMIT);
        assert(-2 * GEOM_LIMIT * (SCROLL_ONE as int) <= scroll_y * over <= 2 * GEOM_LIMIT
            * (SCROLL_ONE as int)) by (nonlinear_arith)
            requires
                0 <= scroll_y <= SCROLL_ONE,
                -2 * GEOM_LIMIT <= over <= 2 * GEOM_LIMIT,
        ;
    }
    let y_num: i64 = point_y * SCROLL_ONE + scroll_y * over;
    let denom: i64 = SCROLL_ONE * LISTBOX_ITEM_HEIGHT;
    let raw: i64 = if y_num <= 0 {
        0
    } else {
        let c: i64 = (y_num + denom - 1) / denom;
        proof {
            vstd::arithmetic::div_mod::lemma_div_is_ordered_by_denominator(
                y_num + denom - 1,
                1,
                denom as int,
            );
        }
        if c >= 1 {
            c - 1
        } else {
            0
        }
    };
    if (raw as u64) >= (n as u64) {
        n - 1
    } else {
        raw as usize
    }
}

/// The caret column for a pointer over a single line of text.
pub fn caret_index(origin_x: i64, text: &str, point_x: i64) -> (r: usize)
    requires
        -GEOM_LIMIT <= origin_x <= GEOM_LIMIT,
        -GEOM_LIMIT <= point_x <= GEOM_LIMIT,
    ensures
        r == spec_caret_index(origin_x as int, text@.len(), point_x as int),
        r <= text@.len(),
{
    let len: usize = text.unicode_len();
    let local: i64 = point_x - origin_x;
    let col: i64 = if local <= 0 {
        0
    } else {
        (local + CHAR_WIDTH / 2) / CHAR_WIDTH
    };
    if (col as u64) >= (len as u64) {
        len
    } else {
        col as usize
    }
}

/// The headless backend. It retains nothing and draws nowhere.
#[derive(Clone, Copy, Debug)]
pub struct HeadlessStyler {}

impl HeadlessStyler {
    pub fn new() -> (r: HeadlessStyler) {
        HeadlessStyler {  }
    }
}

impl Styler for HeadlessStyler {
    fn begin(&mut self, persistent_state: PersistentState) {
    }

    fn end(&mut self) {
    }

    fn button(&mut self, control: Control, button: Button<'_>) {
    }

    fn scrollbar(&mut self, control: Control, scrollbar: Scrollbar) {
    }

    fn listbox(&mut self, control: Control, listbox: Listbox<'_>, scroll: Point) {
    }

    fn listbox_get_content_size(&self, control: Control, listbox: Listbox<'_>) -> (r: Point) {
        listbox_content_size(listbox)
    }

    fn listbox_index_at_point(
        &self,
        control: Control,
        listbox: Listbox<'_>,
        scroll: Point,
        point: Point,
    ) -> (r: Option<usize>) {
        if listbox.items.len() == 0 {
            return listbox.index;
        }
        Some(listbox_hit_index(control.rect.h, listbox, scroll.y, point.y))
    }

    fn textbox(&mut self, control: Control, textbox: Textbox<'_>, scroll: Point) {
    }

    fn textbox_get_content_size(&self, control: Control, textbox: Textbox<'_>) -> (r: Point) {
        Point { x: 0, y: 0 }
    }

    fn textbox_index_at_point(
        &self,
        control: Control,
        textbox: Textbox<'_>,
        scroll: Point,
        point: Point,
    ) -> (r: Option<usize>) {
        Some(caret_index(control.rect.x, textbox.text.as_str(), point.x))
    }
}

} // verus!
