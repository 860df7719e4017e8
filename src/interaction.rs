use vstd::prelude::*;

use crate::geometry::Point;

verus! {

/// Vertical distance between two overlay items.
pub const OVERLAY_PITCH: i64 = 28;

/// Hover and toggle flags of one header label; a label is known by its position.
#[derive(Clone, Copy, Debug, PartialEq, Eq, Structural)]
pub struct LabelState {
    pub hovered: bool,
    pub active: bool,
}

/// How a header label or an overlay item is drawn; `Active` wins over `Hovered`.
#[derive(Clone, Copy, Debug, PartialEq, Eq, Structural)]
pub enum Style {
    Neutral,
    Hovered,
    Active,
}

/// A pointer event, scoped to the canvas, to one header label or to one overlay item.
#[derive(Clone, Copy, Debug, PartialEq, Eq, Structural)]
pub enum Event {
    Motion { x: i64, y: i64 },
    DragBegin { x: i64, y: i64 },
    DragUpdate { dx: i64, dy: i64 },
    DragEnd { x: i64, y: i64 },
    LabelClick { label: usize },
    OutsideClick,
    LabelEnter { label: usize },
    LabelLeave { label: usize },
    OverlayEnter { item: usize },
    OverlayLeave { item: usize },
}

/// The mathematical value of an interaction state.
pub struct InteractionView {
    pub pointer: (int, int),
    pub playhead: (int, int),
    pub drag_offset: (int, int),
    pub labels: Seq<LabelState>,
    pub overlay_texts: Seq<Seq<char>>,
    pub overlay_hovered: Seq<bool>,
    pub indicator: bool,
}

pub open spec fn label_style(l: LabelState) -> Style {
    if l.active {
        Style::Active
    } else if l.hovered {
        Style::Hovered
    } else {
        Style::Neutral
    }
}

/// Overlay items only ever show as hovered or neutral.
pub open spec fn overlay_style(hovered: bool) -> Style {
    if hovered {
        Style::Hovered
    } else {
        Style::Neutral
    }
}

/// The vertical offset of overlay item `i`: items are stacked at a fixed pitch.
pub open spec fn overlay_offset(i: int) -> int {
    i * OVERLAY_PITCH
}

pub open spec fn fits_i64(v: int) -> bool {
    i64::MIN <= v <= i64::MAX
}

impl InteractionView {
    /// No two header labels are active at once.
    pub open spec fn at_most_one_active(self) -> bool {
        forall|i: int, j: int|
            0 <= i < self.labels.len() && 0 <= j < self.labels.len() && self.labels[i].active
                && self.labels[j].active ==> i == j
    }

    pub open spec fn wf(self) -> bool {
        &&& self.at_most_one_active()
        &&& self.overlay_texts.len() == self.overlay_hovered.len()
        &&& self.overlay_hovered.len() * OVERLAY_PITCH <= i64::MAX
    }

    /// Everything that a frame or a label's look can show; the drag offset is bookkeeping.
    pub open spec fn looks_like(self, o: InteractionView) -> bool {
        &&& self.pointer == o.pointer
        &&& self.playhead == o.playhead
        &&& self.labels == o.labels
        &&& self.overlay_texts == o.overlay_texts
        &&& self.overlay_hovered == o.overlay_hovered
        &&& self.indicator == o.indicator
    }

    pub open spec fn after_motion(self, x: int, y: int) -> InteractionView {
        InteractionView { pointer: (x, y), ..self }
    }

    pub open spec fn after_drag_begin(self, x: int, y: int) -> InteractionView {
        InteractionView { drag_offset: (x - self.playhead.0, y - self.playhead.1), ..self }
    }

    /// The drag's reported delta less the offset captured at its begin becomes the new
    /// absolute playhead position. This mixes a relative delta with an absolute offset and
    /// is probably not what was meant; it is kept as observed, and the playhead is not
    /// clamped to the canvas.
    pub open spec fn after_drag_update(self, dx: int, dy: int) -> InteractionView {
        InteractionView { playhead: (dx - self.drag_offset.0, dy - self.drag_offset.1), ..self }
    }

    pub open spec fn after_drag_end(self, x: int, y: int) -> InteractionView {
        InteractionView { drag_offset: (x - self.playhead.0, y - self.playhead.1), ..self }
    }

    pub open spec fn after_label_click(self, i: int) -> InteractionView {
        if !(0 <= i < self.labels.len()) {
            self
        } else if !self.labels[i].active {
            InteractionView {
                labels: Seq::new(
                    self.labels.len(),
                    |j: int|
                        if j == i {
                            LabelState { hovered: self.labels[i].hovered, active: true }
                        } else {
                            LabelState { hovered: false, active: false }
                        },
                ),
                indicator: true,
                ..self
            }
        } else {
            InteractionView {
                labels: self.labels.update(
                    i,
                    LabelState { hovered: self.labels[i].hovered, active: false },
                ),
                indicator: false,
                ..self
            }
        }
    }

    pub open spec fn after_outside_click(self) -> InteractionView {
        InteractionView {
            labels: Seq::new(
                self.labels.len(),
                |j: int| LabelState { hovered: self.labels[j].hovered, active: false },
            ),
            indicator: false,
            ..self
        }
    }

    pub open spec fn after_label_hover(self, i: int, hovered: bool) -> InteractionView {
        if 0 <= i < self.labels.len() && !self.labels[i].active {
            InteractionView {
                labels: self.labels.update(i, LabelState { hovered, active: false }),
                ..self
            }
        } else {
            self
        }
    }

    pub open spec fn after_overlay_hover(self, i: int, hovered: bool) -> InteractionView {
        if 0 <= i < self.overlay_hovered.len() {
            InteractionView { overlay_hovered: self.overlay_hovered.update(i, hovered), ..self }
        } else {
            self
        }
    }

    pub open spec fn step(self, e: Event) -> InteractionView {
        match e {
            Event::Motion { x, y } => self.after_motion(x as int, y as int),
            Event::DragBegin { x, y } => self.after_drag_begin(x as int, y as int),
            Event::DragUpdate { dx, dy } => self.after_drag_update(dx as int, dy as int),
            Event::DragEnd { x, y } => self.after_drag_end(x as int, y as int),
            Event::LabelClick { label } => self.after_label_click(label as int),
            Event::OutsideClick => self.after_outside_click(),
            Event::LabelEnter { label } => self.after_label_hover(label as int, true),
            Event::LabelLeave { label } => self.after_label_hover(label as int, false),
            Event::OverlayEnter { item } => self.after_overlay_hover(item as int, true),
            Event::OverlayLeave { item } => self.after_overlay_hover(item as int, false),
        }
    }

    /// The event's arithmetic stays within 64-bit coordinates.
    pub open spec fn admits(self, e: Event) -> bool {
        match e {
            Event::DragBegin { x, y } => fits_i64(x - self.playhead.0) && fits_i64(
                y - self.playhead.1,
            ),
            Event::DragUpdate { dx, dy } => fits_i64(dx - self.drag_offset.0) && fits_i64(
                dy - self.drag_offset.1,
            ),
            Event::DragEnd { x, y } => fits_i64(x - self.playhead.0) && fits_i64(
                y - self.playhead.1,
            ),
            _ => true,
        }
    }
}


/// The view after applying `events` in order.
pub open spec fn replay(v: InteractionView, events: Seq<Event>) -> InteractionView
    decreases events.len(),
{
    if events.len() == 0 {
        v
    } else {
        replay(v, events.drop_last()).step(events.last())
    }
}

/// Every event keeps a well-formed state well-formed; in particular no event makes a
/// second header label active.
pub proof fn lemma_step_keeps_wf(v: InteractionView, e: Event)
    requires
        v.wf(),
    ensures
        v.step(e).wf(),
{
    let w = v.step(e);
    match e {
        Event::LabelClick { label } => {
            let i = label as int;
            if 0 <= i < v.labels.len() && !v.labels[i].active {
                assert forall|a: int, b: int|
                    0 <= a < w.labels.len() && 0 <= b < w.labels.len() && w.labels[a].active
                        && w.labels[b].active implies a == b by {
                    assert(a == i && b == i);
                }
            } else if 0 <= i < v.labels.len() {
                assert forall|a: int, b: int|
                    0 <= a < w.labels.len() && 0 <= b < w.labels.len() && w.labels[a].active
                        && w.labels[b].active implies a == b by {
                    assert(v.labels[a].active && v.labels[b].active);
                }
            }
        },
        Event::LabelEnter { label } | Event::LabelLeave { label } => {
            let i = label as int;
            assert forall|a: int, b: int|
                0 <= a < w.labels.len() && 0 <= b < w.labels.len() && w.labels[a].active
                    && w.labels[b].active implies a == b by {
                assert(v.labels[a].active && v.labels[b].active);
            }
        },
        _ => {},
    }
}

/// The one interaction state of a canvas and its header: pointer, playhead, drag offset,
/// label and overlay flags, and the transient indicator.
pub struct InteractionState {
    pointer: Point,
    playhead: Point,
    drag_offset: Point,
    labels: Vec<LabelState>,
    overlay_texts: Vec<String>,
    overlay_hovered: Vec<bool>,
    indicator: bool,
}

impl View for InteractionState {
    type V = InteractionView;

    closed spec fn view(&self) -> InteractionView {
        InteractionView {
            pointer: self.pointer.as_pair(),
            playhead: self.playhead.as_pair(),
            drag_offset: self.drag_offset.as_pair(),
            labels: self.labels@,
            overlay_texts: self.overlay_texts@.map_values(|t: String| t@),
            overlay_hovered: self.overlay_hovered@,
            indicator: self.indicator,
        }
    }
}

impl InteractionState {
    /// A fresh state: `label_count` neutral labels, one neutral overlay item per text,
    /// the pointer and the drag offset at the origin, the indicator off.
    pub fn new(label_count: usize, overlay_texts: Vec<String>, playhead: Point) -> (r:
        InteractionState)
        requires
            overlay_texts@.len() * OVERLAY_PITCH <= i64::MAX,
        ensures
            r@.wf(),
            r@.pointer == (0int, 0int),
            r@.playhead == playhead.as_pair(),
            r@.drag_offset == (0int, 0int),
            r@.labels == Seq::new(
                label_count as nat,
                |i: int| LabelState { hovered: false, active: false },
            ),
            r@.overlay_texts == overlay_texts@.map_values(|t: String| t@),
            r@.overlay_hovered == Seq::new(overlay_texts@.len(), |i: int| false),
            !r@.indicator,
    {
        let mut labels: Vec<LabelState> = Vec::new();
        let mut i: usize = 0;
        while i < label_count
            invariant
                i <= label_count,
                labels@ == Seq::new(i as nat, |k: int| LabelState { hovered: false, active: false }),
            decreases label_count - i,
        {
            labels.push(LabelState { hovered: false, active: false });
            i = i + 1;
            proof {
                assert(labels@ =~= Seq::new(
                    i as nat,
                    |k: int| LabelState { hovered: false, active: false },
                ));
            }
        }
        let mut overlay_hovered: Vec<bool> = Vec::new();
        let mut j: usize = 0;
        while j < overlay_texts.len()
            invariant
                j <= overlay_texts@.len(),
                overlay_hovered@ == Seq::new(j as nat, |k: int| false),
            decreases overlay_texts@.len() - j,
        {
            overlay_hovered.push(false);
            j = j + 1;
            proof {
                assert(overlay_hovered@ =~= Seq::new(j as nat, |k: int| false));
            }
        }
        let origin = Point { x: 0, y: 0 };
        InteractionState {
            pointer: origin,
            playhead,
            drag_offset: origin,
            labels,
            overlay_texts,
            overlay_hovered,
            indicator: false,
        }
    }

    /// Records the pointer position; a redraw is asked for when it moved.
    pub fn on_pointer_motion(&mut self, x: i64, y: i64) -> (redraw: bool)
        requires
            old(self)@.wf(),
        ensures
            final(self)@ == old(self)@.after_motion(x as int, y as int),
            final(self)@.wf(),
            redraw == !old(self)@.looks_like(final(self)@),
    {
        proof {
            lemma_step_keeps_wf(self@, Event::Motion { x, y });
        }
        let moved = self.pointer.x != x || self.pointer.y != y;
        self.pointer = Point { x, y };
        moved
    }

    /// Captures the offset between the drag's start and the playhead; nothing visible changes.
    pub fn on_drag_begin(&mut self, x: i64, y: i64) -> (redraw: bool)
        requires
            old(self)@.wf(),
            old(self)@.admits(Event::DragBegin { x, y }),
        ensures
            final(self)@ == old(self)@.after_drag_begin(x as int, y as int),
            final(self)@.wf(),
            redraw == !old(self)@.looks_like(final(self)@),
            !redraw,
    {
        proof {
            lemma_step_keeps_wf(self@, Event::DragBegin { x, y });
        }
        self.drag_offset = Point { x: x - self.playhead.x, y: y - self.playhead.y };
        false
    }

    /// Moves the playhead to the drag delta less the captured offset.
    pub fn on_drag_update(&mut self, dx: i64, dy: i64) -> (redraw: bool)
        requires
            old(self)@.wf(),
            old(self)@.admits(Event::DragUpdate { dx, dy }),
        ensures
            final(self)@ == old(self)@.after_drag_update(dx as int, dy as int),
            final(self)@.wf(),
            redraw == !old(self)@.looks_like(final(self)@),
    {
        proof {
            lemma_step_keeps_wf(self@, Event::DragUpdate { dx, dy });
        }
        let nx = dx - self.drag_offset.x;
        let ny = dy - self.drag_offset.y;
        let moved = self.playhead.x != nx || self.playhead.y != ny;
        self.playhead = Point { x: nx, y: ny };
        moved
    }

    /// Recomputes the drag offset from the final coordinates; the playhead stays.
    pub fn on_drag_end(&mut self, x: i64, y: i64) -> (redraw: bool)
        requires
            old(self)@.wf(),
            old(self)@.admits(Event::DragEnd { x, y }),
        ensures
            final(self)@ == old(self)@.after_drag_end(x as int, y as int),
            final(self)@.wf(),
            redraw == !old(self)@.looks_like(final(self)@),
            !redraw,
    {
        proof {
            lemma_step_keeps_wf(self@, Event::DragEnd { x, y });
        }
        self.drag_offset = Point { x: x - self.playhead.x, y: y - self.playhead.y };
        false
    }

    /// Toggles a header label. Turning it on clears every other label's active and hovered
    /// flags and sets the indicator; turning it off clears the indicator. A position past
    /// the last label changes nothing.
    pub fn on_label_click(&mut self, label: usize) -> (redraw: bool)
        requires
            old(self)@.wf(),
        ensures
            final(self)@ == old(self)@.after_label_click(label as int),
            final(self)@.wf(),
            redraw == !old(self)@.looks_like(final(self)@),
            redraw == (label < old(self)@.labels.len()),
    {
        proof {
            lemma_step_keeps_wf(self@, Event::LabelClick { label });
        }
        let n = self.labels.len();
        if label >= n {
            return false;
        }
        let was = self.labels[label];
        if !was.active {
            let mut next: Vec<LabelState> = Vec::new();
            let mut j: usize = 0;
            while j < n
                invariant
                    n == self.labels@.len(),
                    label < n,
                    j <= n,
                    next@ == Seq::new(
                        j as nat,
                        |k: int|
                            if k == label as int {
                                LabelState { hovered: was.hovered, active: true }
                            } else {
                                LabelState { hovered: false, active: false }
                            },
                    ),
                decreases n - j,
            {
                if j == label {
                    next.push(LabelState { hovered: was.hovered, active: true });
                } else {
                    next.push(LabelState { hovered: false, active: false });
                }
                j = j + 1;
                proof {
                    assert(next@ =~= Seq::new(
                        j as nat,
                        |k: int|
                            if k == label as int {
                                LabelState { hovered: was.hovered, active: true }
                            } else {
                                LabelState { hovered: false, active: false }
                            },
                    ));
                }
            }
            self.labels = next;
            self.indicator = true;
        } else {
            self.labels.set(label, LabelState { hovered: was.hovered, active: false });
            self.indicator = false;
        }
        proof {
            assert(self@.labels[label as int].active != old(self)@.labels[label as int].active);
            assert(self@.labels =~= old(self)@.after_label_click(label as int).labels);
        }
        true
    }

    /// A primary click outside every label: clears whichever label is active and the
    /// indicator.
    pub fn on_outside_click(&mut self) -> (redraw: bool)
        requires
            old(self)@.wf(),
        ensures
            final(self)@ == old(self)@.after_outside_click(),
            final(self)@.wf(),
            redraw == !old(self)@.looks_like(final(self)@),
            redraw == (old(self)@.indicator || exists|i: int|
                0 <= i < old(self)@.labels.len() && old(self)@.labels[i].active),
    {
        proof {
            lemma_step_keeps_wf(self@, Event::OutsideClick);
        }
        let n = self.labels.len();
        let mut next: Vec<LabelState> = Vec::new();
        let mut any_active = false;
        let mut j: usize = 0;
        while j < n
            invariant
                n == self.labels@.len(),
                j <= n,
                next@ == Seq::new(
                    j as nat,
                    |k: int| LabelState { hovered: self.labels@[k].hovered, active: false },
                ),
                any_active == exists|k: int| 0 <= k < j && self.labels@[k].active,
            decreases n - j,
        {
            let l = self.labels[j];
            if l.active {
                any_active = true;
            }
            next.push(LabelState { hovered: l.hovered, active: false });
            j = j + 1;
            proof {
                assert(next@ =~= Seq::new(
                    j as nat,
                    |k: int| LabelState { hovered: self.labels@[k].hovered, active: false },
                ));
            }
        }
        let redraw = self.indicator || any_active;
        proof {
            let before = self@;
            let after = before.after_outside_click();
            if any_active {
                let k = choose|k: int| 0 <= k < n && self.labels@[k].active;
                assert(after.labels[k] != before.labels[k]);
            } else if !self.indicator {
                assert(after.labels =~= before.labels);
            }
        }
        self.labels = next;
        self.indicator = false;
        redraw
    }

    /// Sets a label's hovered flag, unless the label is active.
    fn set_label_hovered(&mut self, label: usize, hovered: bool) -> (redraw: bool)
        requires
            old(self)@.wf(),
        ensures
            final(self)@ == old(self)@.after_label_hover(label as int, hovered),
            final(self)@.wf(),
            redraw == !old(self)@.looks_like(final(self)@),
    {
        proof {
            if hovered {
                lemma_step_keeps_wf(self@, Event::LabelEnter { label });
            } else {
                lemma_step_keeps_wf(self@, Event::LabelLeave { label });
            }
        }
        if label < self.labels.len() && !self.labels[label].active {
            let changed = self.labels[label].hovered != hovered;
            proof {
                if !changed {
                    assert(self@.labels.update(
                        label as int,
                        LabelState { hovered, active: false },
                    ) =~= self@.labels);
                } else {
                    let after = self@.after_label_hover(label as int, hovered);
                    assert(after.labels[label as int] != self@.labels[label as int]);
                }
            }
            self.labels.set(label, LabelState { hovered, active: false });
            changed
        } else {
            false
        }
    }

    /// The pointer entered a header label.
    pub fn on_label_enter(&mut self, label: usize) -> (redraw: bool)
        requires
            old(self)@.wf(),
        ensures
            final(self)@ == old(self)@.after_label_hover(label as int, true),
            final(self)@.wf(),
            redraw == !old(self)@.looks_like(final(self)@),
    {
        self.set_label_hovered(label, true)
    }

    /// The pointer left a header label.
    pub fn on_label_leave(&mut self, label: usize) -> (redraw: bool)
        requires
            old(self)@.wf(),
        ensures
            final(self)@ == old(self)@.after_label_hover(label as int, false),
            final(self)@.wf(),
            redraw == !old(self)@.looks_like(final(self)@),
    {
        self.set_label_hovered(label, false)
    }

    /// Sets an overlay item's hovered flag; overlay items have no active flag.
    fn set_overlay_hovered(&mut self, item: usize, hovered: bool) -> (redraw: bool)
        requires
            old(self)@.wf(),
        ensures
            final(self)@ == old(self)@.after_overlay_hover(item as int, hovered),
            final(self)@.wf(),
            redraw == !old(self)@.looks_like(final(self)@),
    {
        proof {
            if hovered {
                lemma_step_keeps_wf(self@, Event::OverlayEnter { item });
            } else {
                lemma_step_keeps_wf(self@, Event::OverlayLeave { item });
            }
        }
        if item < self.overlay_hovered.len() {
            let changed = self.overlay_hovered[item] != hovered;
            proof {
                if !changed {
                    assert(self@.overlay_hovered.update(item as int, hovered)
                        =~= self@.overlay_hovered);
                } else {
                    let after = self@.after_overlay_hover(item as int, hovered);
                    assert(after.overlay_hovered[item as int] != self@.overlay_hovered[item as int]);
                }
            }
            self.overlay_hovered.set(item, hovered);
            changed
        } else {
            false
        }
    }

    /// The pointer entered an overlay item.
    pub fn on_overlay_enter(&mut self, item: usize) -> (redraw: bool)
        requires
            old(self)@.wf(),
        ensures
            final(self)@ == old(self)@.after_overlay_hover(item as int, true),
            final(self)@.wf(),
            redraw == !old(self)@.looks_like(final(self)@),
    {
        self.set_overlay_hovered(item, true)
    }

    /// The pointer left an overlay item.
    pub fn on_overlay_leave(&mut self, item: usize) -> (redraw: bool)
        requires
            old(self)@.wf(),
        ensures
            final(self)@ == old(self)@.after_overlay_hover(item as int, false),
            final(self)@.wf(),
            redraw == !old(self)@.looks_like(final(self)@),
    {
        self.set_overlay_hovered(item, false)
    }

    /// Applies one event; the result asks for a redraw exactly when something visible changed.
    pub fn handle(&mut self, e: Event) -> (redraw: bool)
        requires
            old(self)@.wf(),
            old(self)@.admits(e),
        ensures
            final(self)@ == old(self)@.step(e),
            final(self)@.wf(),
            redraw == !old(self)@.looks_like(final(self)@),
    {
        match e {
            Event::Motion { x, y } => self.on_pointer_motion(x, y),
            Event::DragBegin { x, y } => self.on_drag_begin(x, y),
            Event::DragUpdate { dx, dy } => self.on_drag_update(dx, dy),
            Event::DragEnd { x, y } => self.on_drag_end(x, y),
            Event::LabelClick { label } => self.on_label_click(label),
            Event::OutsideClick => self.on_outside_click(),
            Event::LabelEnter { label } => self.on_label_enter(label),
            Event::LabelLeave { label } => self.on_label_leave(label),
            Event::OverlayEnter { item } => self.on_overlay_enter(item),
            Event::OverlayLeave { item } => self.on_overlay_leave(item),
        }
    }

    /// The last observed pointer position.
    pub fn pointer(&self) -> (r: Point)
        ensures
            r.as_pair() == self@.pointer,
    {
        self.pointer
    }

    /// The playhead position.
    pub fn playhead(&self) -> (r: Point)
        ensures
            r.as_pair() == self@.playhead,
    {
        self.playhead
    }

    /// The offset captured at the last drag begin or end.
    pub fn drag_offset(&self) -> (r: Point)
        ensures
            r.as_pair() == self@.drag_offset,
    {
        self.drag_offset
    }

    /// Whether the transient indicator is on.
    pub fn indicator(&self) -> (r: bool)
        ensures
            r == self@.indicator,
    {
        self.indicator
    }

    pub fn label_count(&self) -> (r: usize)
        ensures
            r == self@.labels.len(),
    {
        self.labels.len()
    }

    /// The flags of the label at `label`, if there is one.
    pub fn label(&self, label: usize) -> (r: Option<LabelState>)
        ensures
            r == if label < self@.labels.len() {
                Some(self@.labels[label as int])
            } else {
                None
            },
    {
        if label < self.labels.len() {
            Some(self.labels[label])
        } else {
            None
        }
    }

    /// How the label at `label` is drawn: active before hovered before neutral.
    pub fn label_style(&self, label: usize) -> (r: Option<Style>)
        ensures
            r == if label < self@.labels.len() {
                Some(label_style(self@.labels[label as int]))
            } else {
                None
            },
    {
        if label < self.labels.len() {
            let l = self.labels[label];
            if l.active {
                Some(Style::Active)
            } else if l.hovered {
                Some(Style::Hovered)
            } else {
                Some(Style::Neutral)
            }
        } else {
            None
        }
    }

    pub fn overlay_count(&self) -> (r: usize)
        requires
            self@.wf(),
        ensures
            r == self@.overlay_hovered.len(),
            r == self@.overlay_texts.len(),
    {
        self.overlay_hovered.len()
    }

    /// The text of overlay item `item`, if there is one.
    pub fn overlay_text(&self, item: usize) -> (r: Option<String>)
        ensures
            match r {
                Some(t) => item < self@.overlay_texts.len() && t@ == self@.overlay_texts[item as int],
                None => item >= self@.overlay_texts.len(),
            },
    {
        if item < self.overlay_texts.len() {
            Some(self.overlay_texts[item].clone())
        } else {
            None
        }
    }

    /// How overlay item `item` is drawn, if there is one.
    pub fn overlay_style(&self, item: usize) -> (r: Option<Style>)
        ensures
            r == if item < self@.overlay_hovered.len() {
                Some(overlay_style(self@.overlay_hovered[item as int]))
            } else {
                None
            },
    {
        if item < self.overlay_hovered.len() {
            if self.overlay_hovered[item] {
                Some(Style::Hovered)
            } else {
                Some(Style::Neutral)
            }
        } else {
            None
        }
    }

    /// The vertical offset of overlay item `item`, if there is one.
    pub fn overlay_offset(&self, item: usize) -> (r: Option<i64>)
        requires
            self@.wf(),
        ensures
            r == if item < self@.overlay_hovered.len() {
                Some(overlay_offset(item as int) as i64)
            } else {
                None
            },
    {
        if item < self.overlay_hovered.len() {
            proof {
                assert(item * OVERLAY_PITCH <= self@.overlay_hovered.len() * OVERLAY_PITCH)
                    by (nonlinear_arith)
                    requires
                        item < self@.overlay_hovered.len(),
                ;
            }
            Some(item as i64 * OVERLAY_PITCH)
        } else {
            None
        }
    }
}

} // verus!
