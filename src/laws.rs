use vstd::prelude::*;

use crate::interaction::{lemma_step_keeps_wf, replay, Event, InteractionView};
use crate::render::{frame_of, grid_cmds, layer_cmds};

verus! {

/// After every prefix of any sequence of events, at most one header label is active.
pub proof fn lemma_exclusion_after_every_event(v: InteractionView, events: Seq<Event>)
    requires
        v.wf(),
    ensures
        forall|k: int|
            0 <= k <= events.len() ==> (#[trigger] replay(v, events.take(k))).at_most_one_active(),
    decreases events.len(),
{
    if events.len() > 0 {
        let rest = events.drop_last();
        lemma_exclusion_after_every_event(v, rest);
        lemma_replay_keeps_wf(v, events);
        assert forall|k: int| 0 <= k <= events.len() implies (#[trigger] replay(
            v,
            events.take(k),
        )).at_most_one_active() by {
            if k < events.len() {
                assert(events.take(k) =~= rest.take(k));
            } else {
                assert(events.take(k) =~= events);
            }
        }
    } else {
        assert forall|k: int| 0 <= k <= events.len() implies (#[trigger] replay(
            v,
            events.take(k),
        )).at_most_one_active() by {
            assert(events.take(k) =~= events);
        }
    }
}

/// Any sequence of events keeps a well-formed state well-formed.
pub proof fn lemma_replay_keeps_wf(v: InteractionView, events: Seq<Event>)
    requires
        v.wf(),
    ensures
        replay(v, events).wf(),
    decreases events.len(),
{
    if events.len() > 0 {
        lemma_replay_keeps_wf(v, events.drop_last());
        lemma_step_keeps_wf(replay(v, events.drop_last()), events.last());
    }
}

/// Clicking the active label turns it off and clears the indicator; a click outside
/// every label leaves no label active and clears the indicator.
pub proof fn lemma_toggle_symmetry(v: InteractionView, i: int)
    requires
        v.wf(),
        0 <= i < v.labels.len(),
        v.labels[i].active,
    ensures
        !v.after_label_click(i).labels[i].active,
        !v.after_label_click(i).indicator,
        forall|j: int|
            0 <= j < v.labels.len() ==> !(#[trigger] v.after_outside_click().labels[j]).active,
        !v.after_outside_click().indicator,
{
}

/// A drag that begins at `(x, y)` and is updated with `(dx, dy)` moves the playhead from
/// `p` to `p + (dx, dy) - (x, y)`.
pub proof fn lemma_drag_algebra(v: InteractionView, x: int, y: int, dx: int, dy: int)
    ensures
        v.after_drag_begin(x, y).drag_offset == (x - v.playhead.0, y - v.playhead.1),
        v.after_drag_begin(x, y).after_drag_update(dx, dy).playhead == (
            v.playhead.0 + dx - x,
            v.playhead.1 + dy - y,
        ),
{
}

/// A motion event changes what is shown exactly when it moves the pointer.
pub proof fn lemma_motion_redraw(v: InteractionView, x: int, y: int)
    ensures
        !v.looks_like(v.after_motion(x, y)) <==> v.pointer != (x, y),
{
}

/// States that look alike render the same frame: a frame depends on nothing but what
/// the state shows, so a skipped redraw loses nothing and rendering twice gives the same
/// frame twice.
pub proof fn lemma_render_deterministic(
    v: InteractionView,
    w: InteractionView,
    width: int,
    height: int,
    preview_height: int,
)
    requires
        v.looks_like(w),
    ensures
        frame_of(width, height, preview_height, v.pointer, v.indicator, v.playhead.0) == frame_of(
            width,
            height,
            preview_height,
            w.pointer,
            w.indicator,
            w.playhead.0,
        ),
{
}

/// The grid holds three commands per layer, and layer `i` starts with its line at
/// `preview_height + 30 i`.
pub proof fn lemma_grid_layout(width: int, preview_height: int, n: nat, i: int)
    requires
        0 <= i < n,
    ensures
        grid_cmds(width, preview_height, n).len() == 3 * n,
        grid_cmds(width, preview_height, n).subrange(3 * i, 3 * i + 3) == layer_cmds(
            width,
            preview_height,
            i,
        ),
    decreases n,
{
    lemma_grid_len(width, preview_height, (n - 1) as nat);
    let prev = grid_cmds(width, preview_height, (n - 1) as nat);
    let all = grid_cmds(width, preview_height, n);
    if i < n - 1 {
        lemma_grid_layout(width, preview_height, (n - 1) as nat, i);
        assert(all.subrange(3 * i, 3 * i + 3) =~= prev.subrange(3 * i, 3 * i + 3));
    } else {
        assert(all.subrange(3 * i, 3 * i + 3) =~= layer_cmds(width, preview_height, i));
    }
}

proof fn lemma_grid_len(width: int, preview_height: int, n: nat)
    ensures
        grid_cmds(width, preview_height, n).len() == 3 * n,
    decreases n,
{
    if n > 0 {
        lemma_grid_len(width, preview_height, (n - 1) as nat);
    }
}

} // verus!
