//! Per-frame widget descriptors. The host declares every widget afresh
//! each frame; nothing here is retained by the engine. The `uid` of a
//! [`Control`] is the caller-chosen stable key that correlates this
//! frame's declaration with state persisted from earlier frames.
use vstd::prelude::*;

use crate::geo::Rect;

verus! {

/// Fixed-point unit for scroll fractions and content ratios: the value
/// that stands for 1.0. A scroll fraction lives in `[0, SCROLL_ONE]`.
pub const SCROLL_ONE: i64 = 1000000;

/// The part of a widget declaration every widget shares: identity,
/// enabled flag and bounds.
#[derive(Clone, Copy, PartialEq, Eq, Structural, Debug)]
pub struct Control {
    pub uid: i64,
    pub enabled: bool,
    pub rect: Rect,
}

impl Default for Control {
    fn default() -> (r: Control)
        ensures
            r.uid == 0,
            r.enabled,
            r.rect == (Rect { x: 0, y: 0, w: 0, h: 0 }),
    {
        Control { enabled: true, uid: 0, rect: Rect { x: 0, y: 0, w: 0, h: 0 } }
    }
}

/// Button parameters: its label.
#[derive(Clone, Copy)]
pub struct Button<'a> {
    pub text: &'a str,
}

/// Scrollbar parameters. `value` is the current scroll fraction and
/// `ratio` the content-to-viewport ratio, both scaled by [`SCROLL_ONE`].
#[derive(Clone, Copy, PartialEq, Eq, Structural, Debug)]
pub struct Scrollbar {
    pub value: i64,
    pub ratio: i64,
}

/// Listbox parameters: the items to show and the selected index, if any.
#[derive(Clone, Copy)]
pub struct Listbox<'a> {
    pub items: &'a Vec<&'a str>,
    pub index: Option<usize>,
}

/// Textbox parameters: the text to show.
#[derive(Clone, Copy)]
pub struct Textbox<'a> {
    pub text: &'a String,
}

} // verus!
