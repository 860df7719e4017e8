use vstd::prelude::*;

use crate::geometry::{Point, Rect};
use crate::interaction::InteractionState;

verus! {

/// Height of one track layer.
pub const TRACK_LAYER_HEIGHT: i64 = 30;

/// Width of the gutter that holds the layer numbers.
pub const LABEL_GUTTER_WIDTH: i64 = 40;

/// Length of the playhead line below the preview.
pub const PLAYHEAD_LENGTH: i64 = 300;

/// Side of the square watch zone at the canvas origin.
pub const WATCH_ZONE_SIZE: i64 = 50;

/// Horizontal inset of a layer number.
pub const LAYER_NUMBER_X: i64 = 5;

/// Vertical drop of a layer number below its layer's line.
pub const LAYER_NUMBER_DROP: i64 = 14;

/// x of the divider between the preview and the side panel.
pub const DIVIDER_X: i64 = 800;

pub const MENU_PANEL_X: i64 = 40;

pub const MENU_PANEL_Y: i64 = 1;

pub const MENU_PANEL_WIDTH: i64 = 270;

pub const MENU_PANEL_HEIGHT: i64 = 123;

pub const MENU_PANEL_RADIUS: i64 = 8;

/// Which colour a drawing command uses.
#[derive(Clone, Copy, Debug, PartialEq, Eq, Structural)]
pub enum Paint {
    Background,
    Highlight,
    Grid,
    LayerNumber,
    Playhead,
    MenuPanel,
    Divider,
}

/// One drawing command of a frame.
#[derive(Clone, Copy, Debug, PartialEq, Eq, Structural)]
pub enum DrawCmd {
    /// Fills the whole canvas.
    Fill { paint: Paint },
    FillRect { paint: Paint, rect: Rect },
    FillRoundedRect { paint: Paint, rect: Rect, radius: i64 },
    Line { paint: Paint, from: Point, to: Point },
    /// The 1-based number of a track layer, written at `at`.
    LayerNumber { paint: Paint, at: Point, number: u64 },
}

/// The watch zone is the closed square from the origin to (50, 50).
pub open spec fn in_watch_zone(x: int, y: int) -> bool {
    0 <= x <= WATCH_ZONE_SIZE && 0 <= y <= WATCH_ZONE_SIZE
}

/// Number of track layers: the canvas height over the layer height, rounded up; a
/// negative height counts as zero.
pub open spec fn layer_count(height: int) -> nat {
    if height <= 0 {
        0
    } else {
        ((height + TRACK_LAYER_HEIGHT - 1) / (TRACK_LAYER_HEIGHT as int)) as nat
    }
}

pub open spec fn clamp_zero(v: int) -> int {
    if v < 0 {
        0
    } else {
        v
    }
}

/// The three commands of layer `i`: its line across the canvas, its number and its gutter tick.
pub open spec fn layer_cmds(width: int, preview_height: int, i: int) -> Seq<DrawCmd> {
    let y = preview_height + i * TRACK_LAYER_HEIGHT;
    seq![
        DrawCmd::Line {
            paint: Paint::Grid,
            from: Point { x: 0, y: y as i64 },
            to: Point { x: width as i64, y: y as i64 },
        },
        DrawCmd::LayerNumber {
            paint: Paint::LayerNumber,
            at: Point { x: LAYER_NUMBER_X, y: (y + LAYER_NUMBER_DROP) as i64 },
            number: (i + 1) as u64,
        },
        DrawCmd::Line {
            paint: Paint::Grid,
            from: Point { x: LABEL_GUTTER_WIDTH, y: y as i64 },
            to: Point { x: LABEL_GUTTER_WIDTH, y: (y + TRACK_LAYER_HEIGHT) as i64 },
        },
    ]
}

/// The grid's commands for layers `0 .. n`, in order.
pub open spec fn grid_cmds(width: int, preview_height: int, n: nat) -> Seq<DrawCmd>
    decreases n,
{
    if n == 0 {
        Seq::empty()
    } else {
        grid_cmds(width, preview_height, (n - 1) as nat) + layer_cmds(
            width,
            preview_height,
            n - 1,
        )
    }
}

/// The commands drawn before the grid: the background, then the highlight square when
/// the pointer is in the watch zone or the indicator is on.
pub open spec fn head_cmds(pointer: (int, int), indicator: bool) -> Seq<DrawCmd> {
    let background = seq![DrawCmd::Fill { paint: Paint::Background }];
    if in_watch_zone(pointer.0, pointer.1) || indicator {
        background.push(
            DrawCmd::FillRect {
                paint: Paint::Highlight,
                rect: Rect { x: 0, y: 0, width: WATCH_ZONE_SIZE, height: WATCH_ZONE_SIZE },
            },
        )
    } else {
        background
    }
}

/// The commands drawn after the grid: the playhead, the menu panel and the divider.
pub open spec fn tail_cmds(preview_height: int, playhead_x: int) -> Seq<DrawCmd> {
    seq![
        DrawCmd::Line {
            paint: Paint::Playhead,
            from: Point { x: playhead_x as i64, y: preview_height as i64 },
            to: Point { x: playhead_x as i64, y: (preview_height + PLAYHEAD_LENGTH) as i64 },
        },
        DrawCmd::FillRoundedRect {
            paint: Paint::MenuPanel,
            rect: Rect {
                x: MENU_PANEL_X,
                y: MENU_PANEL_Y,
                width: MENU_PANEL_WIDTH,
                height: MENU_PANEL_HEIGHT,
            },
            radius: MENU_PANEL_RADIUS,
        },
        DrawCmd::Line {
            paint: Paint::Divider,
            from: Point { x: DIVIDER_X, y: 0 },
            to: Point { x: DIVIDER_X, y: preview_height as i64 },
        },
    ]
}

/// The whole frame for a canvas of `width` by `height` with the preview `preview_height`
/// tall, drawn from the pointer, the indicator and the playhead's x; negative extents
/// count as zero.
pub open spec fn frame_of(
    width: int,
    height: int,
    preview_height: int,
    pointer: (int, int),
    indicator: bool,
    playhead_x: int,
) -> Seq<DrawCmd> {
    let ph = clamp_zero(preview_height);
    head_cmds(pointer, indicator) + grid_cmds(clamp_zero(width), ph, layer_count(height))
        + tail_cmds(ph, playhead_x)
}

/// The number of track layers of a canvas `height` tall.
pub fn num_layers(height: i32) -> (n: u64)
    ensures
        n == layer_count(height as int),
        n <= 71_582_789,
{
    if height <= 0 {
        0
    } else {
        let h = height as u64;
        (h + 29) / 30
    }
}

impl InteractionState {
    /// Draws a frame of `width` by `height` with the preview `preview_height` tall. The
    /// state is only read.
    pub fn render(&self, width: i32, height: i32, preview_height: i32) -> (frame: Vec<DrawCmd>)
        ensures
            frame@ == frame_of(
                width as int,
                height as int,
                preview_height as int,
                self@.pointer,
                self@.indicator,
                self@.playhead.0,
            ),
    {
        let pointer = self.pointer();
        let indicator = self.indicator();
        let playhead = self.playhead();
        let w: i64 = if width < 0 {
            0
        } else {
            width as i64
        };
        let ph: i64 = if preview_height < 0 {
            0
        } else {
            preview_height as i64
        };
        let mut frame: Vec<DrawCmd> = Vec::new();
        frame.push(DrawCmd::Fill { paint: Paint::Background });
        if (0 <= pointer.x && pointer.x <= WATCH_ZONE_SIZE && 0 <= pointer.y && pointer.y
            <= WATCH_ZONE_SIZE) || indicator {
            frame.push(
                DrawCmd::FillRect {
                    paint: Paint::Highlight,
                    rect: Rect { x: 0, y: 0, width: WATCH_ZONE_SIZE, height: WATCH_ZONE_SIZE },
                },
            );
        }
        let ghost head = frame@;
        proof {
            assert(head =~= head_cmds(self@.pointer, self@.indicator));
        }
        let n = num_layers(height);
        let mut i: u64 = 0;
        while i < n
            invariant
                i <= n,
                n <= 71_582_789,
                n == layer_count(height as int),
                0 <= w <= i32::MAX,
                0 <= ph <= i32::MAX,
                frame@ == head + grid_cmds(w as int, ph as int, i as nat),
            decreases n - i,
        {
            let y: i64 = ph + (i as i64) * TRACK_LAYER_HEIGHT;
            let ghost before = frame@;
            frame.push(
                DrawCmd::Line {
                    paint: Paint::Grid,
                    from: Point { x: 0, y },
                    to: Point { x: w, y },
                },
            );
            frame.push(
                DrawCmd::LayerNumber {
                    paint: Paint::LayerNumber,
                    at: Point { x: LAYER_NUMBER_X, y: y + LAYER_NUMBER_DROP },
                    number: i + 1,
                },
            );
            frame.push(
                DrawCmd::Line {
                    paint: Paint::Grid,
                    from: Point { x: LABEL_GUTTER_WIDTH, y },
                    to: Point { x: LABEL_GUTTER_WIDTH, y: y + TRACK_LAYER_HEIGHT },
                },
            );
            proof {
                assert(frame@ =~= before + layer_cmds(w as int, ph as int, i as int));
                assert(grid_cmds(w as int, ph as int, (i + 1) as nat) == grid_cmds(
                    w as int,
                    ph as int,
                    i as nat,
                ) + layer_cmds(w as int, ph as int, i as int));
                assert(frame@ =~= head + grid_cmds(w as int, ph as int, (i + 1) as nat));
            }
            i = i + 1;
        }
        frame.push(
            DrawCmd::Line {
                paint: Paint::Playhead,
                from: Point { x: playhead.x, y: ph },
                to: Point { x: playhead.x, y: ph + PLAYHEAD_LENGTH },
            },
        );
        frame.push(
            DrawCmd::FillRoundedRect {
                paint: Paint::MenuPanel,
                rect: Rect {
                    x: MENU_PANEL_X,
                    y: MENU_PANEL_Y,
                    width: MENU_PANEL_WIDTH,
                    height: MENU_PANEL_HEIGHT,
                },
                radius: MENU_PANEL_RADIUS,
            },
        );
        frame.push(
            DrawCmd::Line {
                paint: Paint::Divider,
                from: Point { x: DIVIDER_X, y: 0 },
                to: Point { x: DIVIDER_X, y: ph },
            },
        );
        proof {
            assert(frame@ =~= head + grid_cmds(w as int, ph as int, n as nat) + tail_cmds(
                ph as int,
                self@.playhead.0,
            ));
        }
        frame
    }
}

} // verus!
