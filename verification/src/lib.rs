//! Interaction core of an immediate-mode GUI toolkit.
//!
//! Each frame the host declares its widgets afresh — identity, bounds and
//! current value — and the engine computes what changed: which control is
//! active, what value a drag produced, which item a click selected. Drawing
//! and content measurement are delegated to a pluggable [`styler::Styler`]
//! backend. Retained state (drag captures, scroll offsets, carets) survives
//! frame boundaries keyed only by caller-supplied identities.
//!
//! The engine's behaviour is specified against a ghost [`StateModel`]: every
//! widget call's effect on the persistent state, and the value it returns,
//! is pinned down by pure transition functions over that model.
pub mod control;
pub mod geo;
pub mod headless;
pub mod input;
pub mod styler;

use std::collections::HashMap;

use vstd::prelude::*;

use crate::control::{Button, Control, Listbox, Scrollbar, Textbox, SCROLL_ONE};
use crate::geo::{Point, Rect, COORD_LIMIT, GEOM_LIMIT};
use crate::input::Input;
use crate::styler::Styler;

verus! {

/// Thickness in pixels of the scrollbars a composite widget embeds.
pub const SCROLLBAR_THICKNESS: i64 = 16;

/// Retained values for one control identity, lazily created on first
/// reference and kept for the life of the engine. The fields for every
/// kind of control are flattened into one record.
#[derive(Clone, Copy, PartialEq, Eq, Debug)]
pub struct PersistentControlState {
    pub scrollbar_value: i64,
    pub textbox_caret: usize,
    pub textbox_selection_start: Option<usize>,
    pub textbox_selection_end: Option<usize>,
}

/// The entry a control identity starts from.
pub open spec fn default_entry() -> PersistentControlState {
    PersistentControlState {
        scrollbar_value: 0,
        textbox_caret: 0,
        textbox_selection_start: None,
        textbox_selection_end: None,
    }
}

impl Default for PersistentControlState {
    fn default() -> (r: PersistentControlState)
        ensures
            r == default_entry(),
    {
        PersistentControlState {
            scrollbar_value: 0,
            textbox_caret: 0,
            textbox_selection_start: None,
            textbox_selection_end: None,
        }
    }
}

impl PersistentControlState {
    /// A retained scroll fraction is always a valid fraction.
    pub open spec fn wf(self) -> bool {
        0 <= self.scrollbar_value <= SCROLL_ONE
    }
}

/// The mathematical model of [`PersistentState`]: the same record with the
/// keyed table abstracted to a `Map`. All engine contracts are stated as
/// transition functions over this model.
#[verifier::ext_equal]
pub struct StateModel {
    pub active_control: Option<i64>,
    pub current_input: Input,
    pub last_input: Input,
    pub mouse_down_position: Point,
    pub clear_active_control_after_mouse_up: bool,
    pub control_state: Map<i64, PersistentControlState>,
}

/// State that survives across frames: which control is active, the two
/// most recent input snapshots, the pointer position latched at the last
/// press edge, the auto-release policy flag, and the keyed table of
/// per-identity retained values.
#[derive(Clone)]
pub struct PersistentState {
    pub active_control: Option<i64>,
    pub current_input: Input,
    pub last_input: Input,
    pub mouse_down_position: Point,
    pub clear_active_control_after_mouse_up: bool,
    pub control_state: HashMap<i64, PersistentControlState>,
}

impl View for PersistentState {
    type V = StateModel;

    open spec fn view(&self) -> StateModel {
        StateModel {
            active_control: self.active_control,
            current_input: self.current_input,
            last_input: self.last_input,
            mouse_down_position: self.mouse_down_position,
            clear_active_control_after_mouse_up: self.clear_active_control_after_mouse_up,
            control_state: self.control_state@,
        }
    }
}

/// The model a fresh engine starts from: nothing active, inputs at rest,
/// auto-release armed, no retained entries.
pub open spec fn initial_state() -> StateModel {
    StateModel {
        active_control: None,
        current_input: Input { mouse_position: Point { x: 0, y: 0 }, mouse_wheel: 0, primary_down: false },
        last_input: Input { mouse_position: Point { x: 0, y: 0 }, mouse_wheel: 0, primary_down: false },
        mouse_down_position: Point { x: 0, y: 0 },
        clear_active_control_after_mouse_up: true,
        control_state: Map::empty(),
    }
}

impl StateModel {
    /// Every position the model retains is in coordinate range and every
    /// retained entry is well-formed.
    pub open spec fn wf(self) -> bool {
        &&& self.current_input.mouse_position.bounded(COORD_LIMIT)
        &&& self.last_input.mouse_position.bounded(COORD_LIMIT)
        &&& self.mouse_down_position.bounded(COORD_LIMIT)
        &&& forall|uid: i64|
            self.control_state.contains_key(uid) ==> (#[trigger] self.control_state[uid]).wf()
    }

    /// The primary button went from up on the last frame to down on this one.
    pub open spec fn press_edge(self) -> bool {
        self.current_input.primary_down && !self.last_input.primary_down
    }

    /// `uid` is the control identity currently capturing interaction.
    pub open spec fn is_active(self, uid: i64) -> bool {
        self.active_control == Some(uid)
    }

    /// A declaration of `control` reports pushed this frame: the control is
    /// enabled, the frame shows a press edge, and the latched press position
    /// lies strictly inside the control's bounds.
    pub open spec fn pushes(self, control: Control) -> bool {
        control.enabled && self.press_edge() && self.mouse_down_position.spec_inside(control.rect)
    }

    /// `control` is being interacted with this frame: it is either pushed
    /// now or was already the active control.
    pub open spec fn interacting(self, control: Control) -> bool {
        self.pushes(control) || self.is_active(control.uid)
    }

    /// Effect of push detection: a push captures the control and re-arms
    /// the default auto-release; otherwise nothing changes.
    pub open spec fn after_push(self, control: Control) -> StateModel {
        if self.pushes(control) {
            StateModel {
                active_control: Some(control.uid),
                clear_active_control_after_mouse_up: true,
                ..self
            }
        } else {
            self
        }
    }

    /// The retained entry for `uid`, or the default entry if none exists yet.
    pub open spec fn entry_or_default(self, uid: i64) -> PersistentControlState {
        if self.control_state.contains_key(uid) {
            self.control_state[uid]
        } else {
            default_entry()
        }
    }

    /// Effect of reading an entry: a missing entry is created at its
    /// default; an existing entry is left untouched.
    pub open spec fn seeded(self, uid: i64) -> StateModel {
        if self.control_state.contains_key(uid) {
            self
        } else {
            StateModel {
                control_state: self.control_state.insert(uid, default_entry()),
                ..self
            }
        }
    }

    /// The model with `uid`'s retained scroll fraction set to `v`, all its
    /// other retained values kept.
    pub open spec fn with_scrollbar_value(self, uid: i64, v: i64) -> StateModel {
        StateModel {
            control_state: self.control_state.insert(
                uid,
                PersistentControlState { scrollbar_value: v, ..self.entry_or_default(uid) },
            ),
            ..self
        }
    }

    /// The model with `uid`'s retained caret index set to `caret`, all its
    /// other retained values kept.
    pub open spec fn with_caret(self, uid: i64, caret: usize) -> StateModel {
        StateModel {
            control_state: self.control_state.insert(
                uid,
                PersistentControlState { textbox_caret: caret, ..self.entry_or_default(uid) },
            ),
            ..self
        }
    }

    /// Effect of starting a frame: the snapshots shift, and a press edge
    /// latches the pointer position as the press origin.
    pub open spec fn begin_step(self, input: Input) -> StateModel {
        let edge = input.primary_down && !self.current_input.primary_down;
        StateModel {
            last_input: self.current_input,
            current_input: input,
            mouse_down_position: if edge {
                input.mouse_position
            } else {
                self.mouse_down_position
            },
            ..self
        }
    }

    /// Effect of finishing a frame: the active control is released exactly
    /// when one is active, the pointer is now up, and release is not
    /// suppressed.
    pub open spec fn end_step(self) -> StateModel {
        if self.active_control is Some && !self.current_input.primary_down
            && self.clear_active_control_after_mouse_up {
            StateModel { active_control: None, ..self }
        } else {
            self
        }
    }
}

/// The control a composite widget embeds for horizontal scrolling: keyed
/// `parent + 1`, spanning the bottom strip of the parent's rect, minus the
/// corner reserved for the vertical scrollbar.
pub open spec fn spec_hscroll_child(control: Control) -> Control {
    Control {
        uid: (control.uid + 1) as i64,
        enabled: control.enabled,
        rect: Rect {
            x: control.rect.x,
            y: (control.rect.y + control.rect.h - SCROLLBAR_THICKNESS) as i64,
            w: (control.rect.w - SCROLLBAR_THICKNESS) as i64,
            h: SCROLLBAR_THICKNESS,
        },
    }
}

/// The control a composite widget embeds for vertical scrolling: keyed
/// `parent + 2`, spanning the right strip of the parent's rect.
pub open spec fn spec_vscroll_child(control: Control) -> Control {
    Control {
        uid: (control.uid + 2) as i64,
        enabled: control.enabled,
        rect: Rect {
            x: (control.rect.x + control.rect.w - SCROLLBAR_THICKNESS) as i64,
            y: control.rect.y,
            w: SCROLLBAR_THICKNESS,
            h: control.rect.h,
        },
    }
}

/// Content overflows a viewport extent: the content-to-viewport ratio
/// exceeds one. A degenerate negative extent never overflows.
pub open spec fn spec_overflows(content: i64, extent: i64) -> bool {
    extent >= 0 && content > extent
}

/// The content-to-viewport ratio, scaled by `SCROLL_ONE`. A degenerate
/// extent is treated as one pixel.
pub open spec fn spec_content_ratio(content: i64, extent: i64) -> int {
    if extent > 0 {
        content * (SCROLL_ONE as int) / (extent as int)
    } else {
        content * (SCROLL_ONE as int)
    }
}

/// The composite's own surface after reserving strips for whichever
/// embedded scrollbars its overflow demanded.
pub open spec fn spec_shrunk(control: Control, ovf_x: bool, ovf_y: bool) -> Control {
    Control {
        uid: control.uid,
        enabled: control.enabled,
        rect: Rect {
            x: control.rect.x,
            y: control.rect.y,
            w: if ovf_y {
                (control.rect.w - SCROLLBAR_THICKNESS) as i64
            } else {
                control.rect.w
            },
            h: if ovf_x {
                (control.rect.h - SCROLLBAR_THICKNESS) as i64
            } else {
                control.rect.h
            },
        },
    }
}

impl StateModel {
    /// Effect of the composite-scrollbar phase shared by listbox and
    /// textbox, for measured content size `cs`: both child entries are
    /// created on read, then each axis that overflows runs its embedded
    /// scrollbar on last frame's persisted value.
    pub open spec fn composite_scroll_step(self, control: Control, cs: Point) -> StateModel {
        let hsb = spec_hscroll_child(control);
        let vsb = spec_vscroll_child(control);
        let m1 = self.seeded(hsb.uid).seeded(vsb.uid);
        let hv = m1.entry_or_default(hsb.uid).scrollbar_value;
        let vv = m1.entry_or_default(vsb.uid).scrollbar_value;
        let m2 = if spec_overflows(cs.x, control.rect.w) {
            m1.scrollbar_step(
                hsb,
                Scrollbar {
                    value: hv,
                    ratio: spec_content_ratio(cs.x, control.rect.w) as i64,
                },
            )
        } else {
            m1
        };
        if spec_overflows(cs.y, control.rect.h) {
            m2.scrollbar_step(
                vsb,
                Scrollbar {
                    value: vv,
                    ratio: spec_content_ratio(cs.y, control.rect.h) as i64,
                },
            )
        } else {
            m2
        }
    }

    /// Effect of a listbox declaration on the model, for measured content
    /// size `cs`: the composite-scrollbar phase, then push detection on
    /// the shrunk surface.
    pub open spec fn listbox_step(self, control: Control, cs: Point) -> StateModel {
        let m3 = self.composite_scroll_step(control, cs);
        let c2 = spec_shrunk(
            control,
            spec_overflows(cs.x, control.rect.w),
            spec_overflows(cs.y, control.rect.h),
        );
        m3.after_push(c2)
    }

    /// The selection a listbox declaration returns, for measured content
    /// size `cs` and backend hit-test answer `hit`: the hit overrides the
    /// caller's selection exactly while the listbox is being interacted
    /// with.
    pub open spec fn listbox_result(
        self,
        control: Control,
        index: Option<usize>,
        cs: Point,
        hit: Option<usize>,
    ) -> Option<usize> {
        let m3 = self.composite_scroll_step(control, cs);
        let c2 = spec_shrunk(
            control,
            spec_overflows(cs.x, control.rect.w),
            spec_overflows(cs.y, control.rect.h),
        );
        if m3.interacting(c2) {
            hit
        } else {
            index
        }
    }

    /// Effect of a textbox declaration on the model, for measured content
    /// size `cs` and backend caret answer `hit`: the composite-scrollbar
    /// phase; push detection on the shrunk surface, a push suppressing
    /// auto-release; a press edge outside an active textbox releasing it;
    /// and the caret persisted while interacting with the button held.
    pub open spec fn textbox_step(self, control: Control, cs: Point, hit: Option<usize>) -> StateModel {
        let m3 = self.composite_scroll_step(control, cs);
        let c2 = spec_shrunk(
            control,
            spec_overflows(cs.x, control.rect.w),
            spec_overflows(cs.y, control.rect.h),
        );
        let pushed = m3.pushes(c2);
        let m4 = m3.after_push(c2);
        let m4b = if pushed {
            StateModel { clear_active_control_after_mouse_up: false, ..m4 }
        } else {
            m4
        };
        let m5 = if m4b.active_control == Some(control.uid)
            && !m4b.current_input.mouse_position.spec_inside(c2.rect) && m4b.press_edge() {
            StateModel { active_control: None, ..m4b }
        } else {
            m4b
        };
        if (pushed || m5.active_control == Some(control.uid)) && m5.current_input.primary_down {
            m5.with_caret(control.uid, hit->0)
        } else {
            m5
        }
    }
}

/// Clamp a scaled scroll fraction into `[0, SCROLL_ONE]`.
pub open spec fn spec_clamp_scroll(v: int) -> int {
    if v < 0 {
        0
    } else if v > SCROLL_ONE {
        SCROLL_ONE as int
    } else {
        v
    }
}

/// The scroll fraction an active drag produces: the pointer's offset from
/// the track's leading edge as a fraction of the track extent, clamped.
/// The value tracks the pointer's absolute position, not a drag delta.
pub open spec fn spec_drag_value(pos: int, origin: int, extent: int) -> int {
    if pos <= origin {
        0
    } else {
        spec_clamp_scroll((pos - origin) * SCROLL_ONE / extent)
    }
}

impl StateModel {
    /// The value a scrollbar declaration returns. While interacting and
    /// with a usable track, the drag recomputes the fraction from the
    /// current pointer alone; otherwise the caller's value is clamped.
    pub open spec fn scrollbar_result(self, control: Control, scrollbar: Scrollbar) -> int {
        let horizontal = control.rect.w > control.rect.h;
        let extent = if horizontal { control.rect.w } else { control.rect.h };
        let origin = if horizontal { control.rect.x } else { control.rect.y };
        let pos = if horizontal {
            self.current_input.mouse_position.x
        } else {
            self.current_input.mouse_position.y
        };
        if self.interacting(control) && extent > 0 {
            spec_drag_value(pos as int, origin as int, extent as int)
        } else {
            spec_clamp_scroll(scrollbar.value as int)
        }
    }

    /// Effect of a scrollbar declaration on the model: push detection, then
    /// the returned value persisted under the control's identity.
    pub open spec fn scrollbar_step(self, control: Control, scrollbar: Scrollbar) -> StateModel {
        self.after_push(control).with_scrollbar_value(
            control.uid,
            self.scrollbar_result(control, scrollbar) as i64,
        )
    }
}

impl PersistentState {
    /// A fresh state store: nothing active, inputs at rest, auto-release
    /// armed, no retained entries.
    pub fn new() -> (r: PersistentState)
        ensures
            r@ == initial_state(),
            r@.wf(),
    {
        PersistentState {
            active_control: None,
            current_input: Input::default(),
            last_input: Input::default(),
            mouse_down_position: Point { x: 0, y: 0 },
            clear_active_control_after_mouse_up: true,
            control_state: HashMap::new(),
        }
    }

    /// The control identity currently capturing interaction, if any.
    pub fn active_control(&self) -> (r: Option<i64>)
        ensures
            r == self@.active_control,
    {
        self.active_control
    }

    /// This frame's input snapshot.
    pub fn current_input(&self) -> (r: Input)
        ensures
            r == self@.current_input,
    {
        self.current_input
    }

    /// The previous frame's input snapshot.
    pub fn last_input(&self) -> (r: Input)
        ensures
            r == self@.last_input,
    {
        self.last_input
    }

    /// The pointer position latched at the most recent press edge.
    pub fn mouse_down_position(&self) -> (r: Point)
        ensures
            r == self@.mouse_down_position,
    {
        self.mouse_down_position
    }

    /// The retained values for `uid`, if that identity has been referenced.
    pub fn get_state(&self, uid: i64) -> (r: Option<PersistentControlState>)
        ensures
            self@.control_state.contains_key(uid) ==> r == Some(self@.control_state[uid]),
            !self@.control_state.contains_key(uid) ==> r is None,
    {
        match self.control_state.get(&uid) {
            Some(v) => Some(*v),
            None => None,
        }
    }

    /// Read the retained entry for `uid`, creating it at its default on
    /// first reference.
    fn get_control_data(&mut self, uid: i64) -> (r: PersistentControlState)
        ensures
            final(self)@ == old(self)@.seeded(uid),
            r == old(self)@.entry_or_default(uid),
            old(self)@.wf() ==> final(self)@.wf(),
    {
        if !self.control_state.contains_key(&uid) {
            self.control_state.insert(uid, PersistentControlState::default());
        }
        match self.control_state.get(&uid) {
            Some(v) => *v,
            None => {
                // Unreachable: the entry was just inserted if it was missing.
                proof {
                    assert(false);
                }
                PersistentControlState::default()
            },
        }
    }

    /// Persist a scroll fraction for `uid`, keeping its other retained
    /// values.
    fn set_scrollbar_value(&mut self, uid: i64, v: i64)
        ensures
            final(self)@ == old(self)@.with_scrollbar_value(uid, v),
    {
        let data = self.get_control_data(uid);
        self.control_state.insert(uid, PersistentControlState { scrollbar_value: v, ..data });
        proof {
            assert(self@.control_state =~= old(self)@.with_scrollbar_value(uid, v).control_state);
            assert(self@ =~= old(self)@.with_scrollbar_value(uid, v));
        }
    }

    /// Persist a caret index for `uid`, keeping its other retained values.
    fn set_textbox_caret(&mut self, uid: i64, caret: usize)
        ensures
            final(self)@ == old(self)@.with_caret(uid, caret),
    {
        let data = self.get_control_data(uid);
        self.control_state.insert(uid, PersistentControlState { textbox_caret: caret, ..data });
        proof {
            assert(self@.control_state =~= old(self)@.with_caret(uid, caret).control_state);
            assert(self@ =~= old(self)@.with_caret(uid, caret));
        }
    }

    /// The shared push primitive: a disabled control never pushes; an
    /// enabled one pushes exactly when the frame shows a press edge whose
    /// latched position lies strictly inside the control's bounds, and a
    /// push captures the control and re-arms auto-release.
    fn process_push(&mut self, control: Control) -> (pushed: bool)
        requires
            old(self)@.wf(),
            control.rect.bounded(GEOM_LIMIT),
        ensures
            pushed == old(self)@.pushes(control),
            final(self)@ == old(self)@.after_push(control),
    {
        if !control.enabled {
            return false;
        }
        if self.current_input.primary_down && !self.last_input.primary_down
            && self.mouse_down_position.inside(control.rect) {
            self.active_control = Some(control.uid);
            self.clear_active_control_after_mouse_up = true;
            return true;
        }
        false
    }
}

/// The interaction engine: a visual backend plus the persistent state the
/// engine owns. Widget calls consume the current state and this frame's
/// declarations, mutate the state, draw through the backend and return
/// each widget's effective value.
pub struct Ugui<T: Styler> {
    pub styler: T,
    pub persistent_state: PersistentState,
}

impl<T: Styler> Ugui<T> {
    /// The engine's invariant: its persistent state is well-formed.
    pub open spec fn wf(self) -> bool {
        self.persistent_state@.wf()
    }

    /// Declare a button. Returns whether it was pushed this frame, and
    /// pins the one-frame edge semantics: pushed exactly on an enabled
    /// control under a press edge landing strictly inside it.
    pub fn button(&mut self, control: Control, button: Button<'_>) -> (pushed: bool)
        requires
            old(self).wf(),
            control.rect.bounded(GEOM_LIMIT),
        ensures
            pushed == old(self).persistent_state@.pushes(control),
            final(self).persistent_state@ == old(self).persistent_state@.after_push(control),
            final(self).wf(),
    {
        let pushed = self.persistent_state.process_push(control);
        self.styler.button(control, button);
        pushed
    }

    /// Declare a scrollbar. Returns the new scroll fraction: recomputed
    /// from the pointer while the control is being dragged, the caller's
    /// value otherwise, always clamped into `[0, SCROLL_ONE]`, and
    /// persisted under the control's identity.
    pub fn scrollbar(&mut self, control: Control, scrollbar: Scrollbar) -> (r: i64)
        requires
            old(self).wf(),
            control.rect.bounded(GEOM_LIMIT),
        ensures
            0 <= r <= SCROLL_ONE,
            r == old(self).persistent_state@.scrollbar_result(control, scrollbar),
            final(self).persistent_state@ == old(self).persistent_state@.scrollbar_step(
                control,
                scrollbar,
            ),
            final(self).wf(),
    {
        let pushed = self.persistent_state.process_push(control);
        let is_horizontal = control.rect.w > control.rect.h;
        let mut value: i64 = scrollbar.value;

        let interacting = pushed || {
            match self.persistent_state.active_control() {
                Some(uid) => uid == control.uid,
                None => false,
            }
        };
        let extent: i64 = if is_horizontal {
            control.rect.w
        } else {
            control.rect.h
        };
        if interacting && extent > 0 {
            let origin: i64 = if is_horizontal {
                control.rect.x
            } else {
                control.rect.y
            };
            let pos: i64 = if is_horizontal {
                self.persistent_state.current_input().mouse_position.x
            } else {
                self.persistent_state.current_input().mouse_position.y
            };
            if pos <= origin {
                value = 0;
            } else {
                value = (pos - origin) * SCROLL_ONE / extent;
            }
        }

        if value < 0 {
            value = 0;
        }
        if value > SCROLL_ONE {
            value = SCROLL_ONE;
        }
        self.persistent_state.set_scrollbar_value(control.uid, value);
        self.styler.scrollbar(control, scrollbar);
        value
    }

    /// Declare a listbox: a composite of the list surface and up to two
    /// embedded scrollbars (keyed `uid + 1` and `uid + 2`), created on the
    /// axes whose measured content overflows. Returns the effective
    /// selection: the backend's clamped hit-test answer while the listbox
    /// is being interacted with, the caller's selection otherwise.
    pub fn listbox(&mut self, control: Control, listbox: Listbox<'_>) -> (r: Option<usize>)
        requires
            old(self).wf(),
            control.rect.bounded(COORD_LIMIT),
            control.uid <= i64::MAX - 2,
        ensures
            final(self).wf(),
            r == listbox.index || (listbox.items@.len() > 0 && r is Some && r->0
                < listbox.items@.len()),
            !old(self).persistent_state@.press_edge() && !old(self).persistent_state@.is_active(
                control.uid,
            ) ==> r == listbox.index,
            exists|cs: Point, hit: Option<usize>|
                {
                    &&& 0 <= cs.x <= COORD_LIMIT
                    &&& 0 <= cs.y <= COORD_LIMIT
                    &&& (listbox.items@.len() == 0 ==> hit == listbox.index)
                    &&& (listbox.items@.len() > 0 ==> hit is Some && hit->0
                        < listbox.items@.len())
                    &&& final(self).persistent_state@ == old(self).persistent_state@.listbox_step(
                        control,
                        cs,
                    )
                    &&& r == #[trigger] old(self).persistent_state@.listbox_result(
                        control,
                        listbox.index,
                        cs,
                        hit,
                    )
                },
    {
        let hscroll = Control {
            uid: control.uid + 1,
            enabled: control.enabled,
            rect: Rect {
                x: control.rect.x,
                y: control.rect.bottom() - SCROLLBAR_THICKNESS,
                w: control.rect.w - SCROLLBAR_THICKNESS,
                h: SCROLLBAR_THICKNESS,
            },
        };
        let vscroll = Control {
            uid: control.uid + 2,
            enabled: control.enabled,
            rect: Rect {
                x: control.rect.right() - SCROLLBAR_THICKNESS,
                y: control.rect.y,
                w: SCROLLBAR_THICKNESS,
                h: control.rect.h,
            },
        };
        let hv: i64 = self.persistent_state.get_control_data(hscroll.uid).scrollbar_value;
        let vv: i64 = self.persistent_state.get_control_data(vscroll.uid).scrollbar_value;
        let content_size = self.styler.listbox_get_content_size(control, listbox);
        let ovf_x = control.rect.w >= 0 && content_size.x > control.rect.w;
        let ovf_y = control.rect.h >= 0 && content_size.y > control.rect.h;
        let ghost m0 = old(self).persistent_state@;

        let mut c2 = control;
        let mut scroll = Point { x: 0, y: 0 };
        if ovf_x {
            c2.rect.h = c2.rect.h - SCROLLBAR_THICKNESS;
            let ratio = content_ratio(content_size.x, control.rect.w);
            self.scrollbar(hscroll, Scrollbar { value: hv, ratio });
            scroll.x = hv;
        }
        if ovf_y {
            c2.rect.w = c2.rect.w - SCROLLBAR_THICKNESS;
            let ratio = content_ratio(content_size.y, control.rect.h);
            self.scrollbar(vscroll, Scrollbar { value: vv, ratio });
            scroll.y = vv;
        }

        let pushed = self.persistent_state.process_push(c2);
        let mut index = listbox.index;
        let interacting = pushed || {
            match self.persistent_state.active_control() {
                Some(uid) => uid == control.uid,
                None => false,
            }
        };
        if interacting {
            let local = self.persistent_state.current_input().mouse_position.sub(
                c2.rect.top_left(),
            );
            index = self.styler.listbox_index_at_point(c2, listbox, scroll, local);
        }
        self.styler.listbox(c2, listbox, scroll);
        proof {
            let cs_w = content_size;
            let hit_w: Option<usize> = if interacting {
                index
            } else if listbox.items@.len() == 0 {
                listbox.index
            } else {
                Some(0usize)
            };
            assert(self.persistent_state@ == m0.listbox_step(control, cs_w));
            assert(index == m0.listbox_result(control, listbox.index, cs_w, hit_w));
        }
        index
    }

    /// Declare a textbox: the same composite-scrollbar handling as a
    /// listbox, but with interaction arranged for editing. A push
    /// suppresses the default auto-release so the capture survives the
    /// pointer leaving the bounds; a press edge outside the active textbox
    /// releases it; and while interacting with the button held, the
    /// backend's caret answer is persisted. Returns the text unchanged —
    /// mutation is layered above this engine.
    pub fn textbox(&mut self, control: Control, textbox: Textbox<'_>) -> (r: String)
        requires
            old(self).wf(),
            control.rect.bounded(COORD_LIMIT),
            control.uid <= i64::MAX - 2,
        ensures
            final(self).wf(),
            r == *textbox.text,
            exists|cs: Point, hit: Option<usize>|
                {
                    &&& 0 <= cs.x <= COORD_LIMIT
                    &&& 0 <= cs.y <= COORD_LIMIT
                    &&& hit is Some
                    &&& hit->0 <= textbox.text@.len()
                    &&& final(self).persistent_state@
                        == #[trigger] old(self).persistent_state@.textbox_step(control, cs, hit)
                },
    {
        let hscroll = Control {
            uid: control.uid + 1,
            enabled: control.enabled,
            rect: Rect {
                x: control.rect.x,
                y: control.rect.bottom() - SCROLLBAR_THICKNESS,
                w: control.rect.w - SCROLLBAR_THICKNESS,
                h: SCROLLBAR_THICKNESS,
            },
        };
        let vscroll = Control {
            uid: control.uid + 2,
            enabled: control.enabled,
            rect: Rect {
                x: control.rect.right() - SCROLLBAR_THICKNESS,
                y: control.rect.y,
                w: SCROLLBAR_THICKNESS,
                h: control.rect.h,
            },
        };
        let hv: i64 = self.persistent_state.get_control_data(hscroll.uid).scrollbar_value;
        let vv: i64 = self.persistent_state.get_control_data(vscroll.uid).scrollbar_value;
        let content_size = self.styler.textbox_get_content_size(control, textbox);
        let ovf_x = control.rect.w >= 0 && content_size.x > control.rect.w;
        let ovf_y = control.rect.h >= 0 && content_size.y > control.rect.h;
        let ghost m0 = old(self).persistent_state@;

        let mut c2 = control;
        let mut scroll = Point { x: 0, y: 0 };
        if ovf_x {
            c2.rect.h = c2.rect.h - SCROLLBAR_THICKNESS;
            let ratio = content_ratio(content_size.x, control.rect.w);
            self.scrollbar(hscroll, Scrollbar { value: hv, ratio });
            scroll.x = hv;
        }
        if ovf_y {
            c2.rect.w = c2.rect.w - SCROLLBAR_THICKNESS;
            let ratio = content_ratio(content_size.y, control.rect.h);
            self.scrollbar(vscroll, Scrollbar { value: vv, ratio });
            scroll.y = vv;
        }

        let pushed = self.persistent_state.process_push(c2);

        // A textbox manages its own deactivation, so the default
        // release-on-pointer-up must not clear it.
        if pushed {
            self.persistent_state.clear_active_control_after_mouse_up = false;
        }

        // A press edge outside the bounds commits and exits edit mode.
        let active_now = match self.persistent_state.active_control() {
            Some(uid) => uid == control.uid,
            None => false,
        };
        let outside = !self.persistent_state.current_input().mouse_position.inside(c2.rect);
        let edge = self.persistent_state.current_input().primary_down
            && !self.persistent_state.last_input().primary_down;
        if active_now && outside && edge {
            self.persistent_state.active_control = None;
        }

        let active_after = match self.persistent_state.active_control() {
            Some(uid) => uid == control.uid,
            None => false,
        };
        let ghost mut hit_w: Option<usize> = Some(0usize);
        if (pushed || active_after) && self.persistent_state.current_input().primary_down {
            let idx = self.styler.textbox_index_at_point(
                c2,
                textbox,
                scroll,
                self.persistent_state.current_input().mouse_position,
            );
            proof {
                hit_w = idx;
            }
            let caret = idx.unwrap();
            self.persistent_state.set_textbox_caret(control.uid, caret);
        }

        self.styler.textbox(c2, textbox, scroll);
        proof {
            assert(self.persistent_state@ == m0.textbox_step(control, content_size, hit_w));
        }
        textbox.text.clone()
    }

    /// Start a frame: shift the input snapshots, latch the press origin on
    /// a press edge, and hand the backend a snapshot of the persistent
    /// state before it prepares its surface.
    pub fn begin(&mut self, input: Input)
        requires
            old(self).wf(),
            input.mouse_position.bounded(COORD_LIMIT),
        ensures
            final(self).persistent_state@ == old(self).persistent_state@.begin_step(input),
            final(self).wf(),
    {
        self.persistent_state.last_input = self.persistent_state.current_input;
        self.persistent_state.current_input = input;

        if self.persistent_state.current_input.primary_down
            && !self.persistent_state.last_input.primary_down {
            self.persistent_state.mouse_down_position =
                self.persistent_state.current_input.mouse_position;
        }

        self.styler.begin(self.persistent_state.clone());
    }

    /// Finish a frame: present it, then release the active control exactly
    /// when one is active, the pointer is now up, and release was not
    /// suppressed by the active widget.
    pub fn end(&mut self)
        requires
            old(self).wf(),
        ensures
            final(self).persistent_state@ == old(self).persistent_state@.end_step(),
            final(self).wf(),
    {
        self.styler.end();

        if self.persistent_state.active_control.is_some()
            && !self.persistent_state.current_input.primary_down
            && self.persistent_state.clear_active_control_after_mouse_up {
            self.persistent_state.active_control = None;
        }
    }
}

/// The content-to-viewport ratio, scaled by `SCROLL_ONE`.
fn content_ratio(content: i64, extent: i64) -> (r: i64)
    requires
        0 <= content <= COORD_LIMIT,
        -GEOM_LIMIT <= extent <= GEOM_LIMIT,
    ensures
        r == spec_content_ratio(content, extent),
{
    if extent > 0 {
        content * SCROLL_ONE / extent
    } else {
        content * SCROLL_ONE
    }
}


/// At most one control identity is active at any time: two identities
/// that are both active are the same identity.
pub proof fn lemma_single_active_control(m: StateModel, a: i64, b: i64)
    requires
        m.is_active(a),
        m.is_active(b),
    ensures
        a == b,
{
}

/// Push edge-triggering: a control reports pushed exactly when it is
/// enabled, the pointer was up on the previous frame and is down on this
/// one, and the latched press position lies strictly inside its bounds.
/// On any other frame it does not report pushed.
pub proof fn lemma_push_edge_trigger(m: StateModel, control: Control)
    ensures
        m.pushes(control) <==> (control.enabled && m.current_input.primary_down
            && !m.last_input.primary_down && m.mouse_down_position.spec_inside(control.rect)),
{
}

/// Scrollbar bounds: whatever the state, the declaration and the drag
/// history, the value a scrollbar returns lies within `[0, SCROLL_ONE]`.
pub proof fn lemma_scrollbar_result_bounds(m: StateModel, control: Control, scrollbar: Scrollbar)
    ensures
        0 <= m.scrollbar_result(control, scrollbar) <= SCROLL_ONE,
{
}

/// Auto-release: when the pointer is up at the end of a frame and release
/// was not suppressed, no control is active after `end`, whatever was
/// active before.
pub proof fn lemma_auto_release(m: StateModel)
    requires
        !m.current_input.primary_down,
        m.clear_active_control_after_mouse_up,
    ensures
        m.end_step().active_control is None,
{
}

/// Idempotent re-declaration of a button: under a frame with no new
/// pointer events, a button does not report pushed, and re-declaring it
/// on the next frame with the pointer still unchanged reports the same.
pub proof fn lemma_button_redeclare(m0: StateModel, control: Control)
    requires
        m0.current_input.primary_down == m0.last_input.primary_down,
    ensures
        !m0.pushes(control),
        m0.after_push(control) == m0,
        ({
            let m2b = m0.after_push(control).end_step().begin_step(m0.current_input);
            &&& !m2b.pushes(control)
            &&& m2b.after_push(control) == m2b
        }),
{
}

/// Idempotent re-declaration of a scrollbar: fed back the fraction it
/// just returned, across an `end`/`begin` with the pointer unchanged, a
/// scrollbar returns that fraction again and leaves the same retained
/// entry under its identity.
pub proof fn lemma_scrollbar_redeclare(
    m0: StateModel,
    control: Control,
    sb1: Scrollbar,
    sb2: Scrollbar,
)
    requires
        sb2.value == m0.scrollbar_result(control, sb1),
    ensures
        ({
            let m1 = m0.scrollbar_step(control, sb1);
            let m2b = m1.end_step().begin_step(m0.current_input);
            &&& m2b.scrollbar_result(control, sb2) == m0.scrollbar_result(control, sb1)
            &&& m2b.scrollbar_step(control, sb2).control_state[control.uid]
                == m1.control_state[control.uid]
        }),
{
    let m1 = m0.scrollbar_step(control, sb1);
    let m2b = m1.end_step().begin_step(m0.current_input);
    assert(!m2b.press_edge());
    if m2b.is_active(control.uid) {
        assert(m0.interacting(control));
    }
    assert(m2b.scrollbar_result(control, sb2) == m0.scrollbar_result(control, sb1));
}

/// Idempotent re-declaration of a listbox: with no new pointer events,
/// the same measured content size and the same backend hit answer, a
/// listbox fed back the selection it just returned, across an
/// `end`/`begin` with the pointer unchanged, returns that selection again
/// and leaves the same retained entries.
pub proof fn lemma_listbox_redeclare(
    m0: StateModel,
    control: Control,
    index1: Option<usize>,
    cs: Point,
    hit: Option<usize>,
)
    requires
        m0.wf(),
        m0.current_input.primary_down == m0.last_input.primary_down,
        control.uid <= i64::MAX - 2,
    ensures
        ({
            let r1 = m0.listbox_result(control, index1, cs, hit);
            let m1 = m0.listbox_step(control, cs);
            let m2b = m1.end_step().begin_step(m0.current_input);
            &&& m2b.listbox_result(control, r1, cs, hit) == r1
            &&& m2b.listbox_step(control, cs).control_state == m1.control_state
        }),
{
    let r1 = m0.listbox_result(control, index1, cs, hit);
    let m1 = m0.listbox_step(control, cs);
    let m2b = m1.end_step().begin_step(m0.current_input);

    let hsb = spec_hscroll_child(control);
    let vsb = spec_vscroll_child(control);
    assert(hsb.uid == control.uid + 1 && vsb.uid == control.uid + 2);
    assert(hsb.uid != vsb.uid);
    let ox = spec_overflows(cs.x, control.rect.w);
    let oy = spec_overflows(cs.y, control.rect.h);
    let c2 = spec_shrunk(control, ox, oy);

    let a1 = m0.seeded(hsb.uid).seeded(vsb.uid);
    let hv1 = a1.entry_or_default(hsb.uid).scrollbar_value;
    let vv1 = a1.entry_or_default(vsb.uid).scrollbar_value;
    assert(a1.entry_or_default(hsb.uid).wf());
    assert(a1.entry_or_default(vsb.uid).wf());
    let m3 = m0.composite_scroll_step(control, cs);
    assert(!m0.press_edge());
    assert(!m3.press_edge());
    assert(m3.active_control == m0.active_control);
    assert(m1 == m3);

    let a2 = m2b.seeded(hsb.uid).seeded(vsb.uid);
    assert(a2 == m2b);
    let m3p = m2b.composite_scroll_step(control, cs);
    assert(!m2b.press_edge());

    // The value either child scrollbar recomputes on the second frame is
    // the value the first frame persisted.
    if ox {
        let sb1 = Scrollbar {
            value: hv1,
            ratio: spec_content_ratio(cs.x, control.rect.w) as i64,
        };
        let sb2 = Scrollbar {
            value: m2b.entry_or_default(hsb.uid).scrollbar_value,
            ratio: spec_content_ratio(cs.x, control.rect.w) as i64,
        };
        lemma_scrollbar_result_bounds(a1, hsb, sb1);
        if m2b.is_active(hsb.uid) {
            assert(a1.interacting(hsb));
        }
        assert(m2b.entry_or_default(hsb.uid).scrollbar_value
            == a1.scrollbar_result(hsb, sb1) as i64);
        assert(m2b.scrollbar_result(hsb, sb2) == a1.scrollbar_result(hsb, sb1));
    }
    if oy {
        let b1 = if ox {
            a1.scrollbar_step(
                hsb,
                Scrollbar { value: hv1, ratio: spec_content_ratio(cs.x, control.rect.w) as i64 },
            )
        } else {
            a1
        };
        let b2 = if ox {
            m2b.scrollbar_step(
                hsb,
                Scrollbar {
                    value: m2b.entry_or_default(hsb.uid).scrollbar_value,
                    ratio: spec_content_ratio(cs.x, control.rect.w) as i64,
                },
            )
        } else {
            m2b
        };
        let sv1 = Scrollbar {
            value: b1.entry_or_default(vsb.uid).scrollbar_value,
            ratio: spec_content_ratio(cs.y, control.rect.h) as i64,
        };
        let sv2 = Scrollbar {
            value: b2.entry_or_default(vsb.uid).scrollbar_value,
            ratio: spec_content_ratio(cs.y, control.rect.h) as i64,
        };
        lemma_scrollbar_result_bounds(b1, vsb, sv1);
        if b2.is_active(vsb.uid) {
            assert(b1.interacting(vsb));
        }
        assert(b2.scrollbar_result(vsb, sv2) == b1.scrollbar_result(vsb, sv1));
    }
    assert(m3p.control_state =~= m3.control_state);
    assert(m2b.listbox_step(control, cs).control_state =~= m1.control_state);

    // The returned selection is stable: interacting on the second frame
    // implies the first frame already returned the hit answer.
    if m3p.interacting(c2) {
        assert(m3.interacting(c2));
    }
}

/// Idempotent re-declaration of a textbox: with no new pointer events,
/// the same measured content size and the same backend caret answer,
/// re-declaring a textbox across an `end`/`begin` with the pointer
/// unchanged leaves the same retained entries (the returned text is the
/// declared text both times by construction).
pub proof fn lemma_textbox_redeclare(
    m0: StateModel,
    control: Control,
    cs: Point,
    hit: Option<usize>,
)
    requires
        m0.wf(),
        m0.current_input.primary_down == m0.last_input.primary_down,
        control.uid <= i64::MAX - 2,
    ensures
        ({
            let m1 = m0.textbox_step(control, cs, hit);
            let m2b = m1.end_step().begin_step(m0.current_input);
            m2b.textbox_step(control, cs, hit).control_state == m1.control_state
        }),
{
    let m1 = m0.textbox_step(control, cs, hit);
    let m2b = m1.end_step().begin_step(m0.current_input);

    let hsb = spec_hscroll_child(control);
    let vsb = spec_vscroll_child(control);
    assert(hsb.uid == control.uid + 1 && vsb.uid == control.uid + 2);
    assert(hsb.uid != vsb.uid);
    let ox = spec_overflows(cs.x, control.rect.w);
    let oy = spec_overflows(cs.y, control.rect.h);
    let c2 = spec_shrunk(control, ox, oy);

    let a1 = m0.seeded(hsb.uid).seeded(vsb.uid);
    let hv1 = a1.entry_or_default(hsb.uid).scrollbar_value;
    assert(a1.entry_or_default(hsb.uid).wf());
    assert(a1.entry_or_default(vsb.uid).wf());
    let m3 = m0.composite_scroll_step(control, cs);
    assert(!m0.press_edge());
    assert(!m3.press_edge());

    let a2 = m2b.seeded(hsb.uid).seeded(vsb.uid);
    assert(a2 == m2b);
    let m3p = m2b.composite_scroll_step(control, cs);
    assert(!m2b.press_edge());

    if ox {
        let sb1 = Scrollbar {
            value: hv1,
            ratio: spec_content_ratio(cs.x, control.rect.w) as i64,
        };
        let sb2 = Scrollbar {
            value: m2b.entry_or_default(hsb.uid).scrollbar_value,
            ratio: spec_content_ratio(cs.x, control.rect.w) as i64,
        };
        lemma_scrollbar_result_bounds(a1, hsb, sb1);
        if m2b.is_active(hsb.uid) {
            assert(a1.interacting(hsb));
        }
        assert(m2b.scrollbar_result(hsb, sb2) == a1.scrollbar_result(hsb, sb1));
    }
    if oy {
        let b1 = if ox {
            a1.scrollbar_step(
                hsb,
                Scrollbar { value: hv1, ratio: spec_content_ratio(cs.x, control.rect.w) as i64 },
            )
        } else {
            a1
        };
        let b2 = if ox {
            m2b.scrollbar_step(
                hsb,
                Scrollbar {
                    value: m2b.entry_or_default(hsb.uid).scrollbar_value,
                    ratio: spec_content_ratio(cs.x, control.rect.w) as i64,
                },
            )
        } else {
            m2b
        };
        let sv1 = Scrollbar {
            value: b1.entry_or_default(vsb.uid).scrollbar_value,
            ratio: spec_content_ratio(cs.y, control.rect.h) as i64,
        };
        let sv2 = Scrollbar {
            value: b2.entry_or_default(vsb.uid).scrollbar_value,
            ratio: spec_content_ratio(cs.y, control.rect.h) as i64,
        };
        lemma_scrollbar_result_bounds(b1, vsb, sv1);
        if b2.is_active(vsb.uid) {
            assert(b1.interacting(vsb));
        }
        assert(b2.scrollbar_result(vsb, sv2) == b1.scrollbar_result(vsb, sv1));
    }
    // Interaction state is untouched by the composite phase and, with no
    // press edge, by the textbox's own steps; releasing on `end` can only
    // happen with the pointer up, in which case neither frame writes a
    // caret.
    assert(m3.active_control == m0.active_control);
    assert(m3.current_input == m0.current_input);
    assert(m1.active_control == m3.active_control);
    assert(m3p.active_control == m2b.active_control);
    assert(m3p.current_input == m0.current_input);
    if m0.current_input.primary_down {
        assert(m2b.active_control == m1.active_control);
    }
    // Frame one's caret write commutes with the child entries frame two
    // re-inserts, so the final tables agree pointwise.
    assert(m2b.textbox_step(control, cs, hit).control_state =~= m1.control_state);
}

} // verus!
