use luvita::geometry::{Point, Rect};
use luvita::interaction::InteractionState;
use luvita::render::{num_layers, DrawCmd, Paint};

fn state() -> InteractionState {
    InteractionState::new(2, Vec::new(), Point::new(200, 150))
}

fn highlight() -> DrawCmd {
    DrawCmd::FillRect { paint: Paint::Highlight, rect: Rect { x: 0, y: 0, width: 50, height: 50 } }
}

fn has_highlight(frame: &[DrawCmd]) -> bool {
    frame.iter().any(|c| *c == highlight())
}

#[test]
fn layer_count_rounds_up() {
    assert_eq!(num_layers(300), 10);
    assert_eq!(num_layers(301), 11);
    assert_eq!(num_layers(1), 1);
    assert_eq!(num_layers(0), 0);
    assert_eq!(num_layers(-40), 0);
    assert_eq!(num_layers(700), 24);
    assert_eq!(num_layers(i32::MAX), 71_582_789);
}

#[test]
fn grid_layout() {
    let mut s = state();
    s.on_pointer_motion(400, 400);
    let frame = s.render(1133, 300, 430);
    assert_eq!(frame.len(), 1 + 3 * 10 + 3);
    for i in 0..10usize {
        let y = 430 + 30 * i as i64;
        assert_eq!(
            frame[1 + 3 * i],
            DrawCmd::Line { paint: Paint::Grid, from: Point::new(0, y), to: Point::new(1133, y) }
        );
        assert_eq!(
            frame[2 + 3 * i],
            DrawCmd::LayerNumber {
                paint: Paint::LayerNumber,
                at: Point::new(5, y + 14),
                number: i as u64 + 1
            }
        );
        assert_eq!(
            frame[3 + 3 * i],
            DrawCmd::Line {
                paint: Paint::Grid,
                from: Point::new(40, y),
                to: Point::new(40, y + 30)
            }
        );
    }
}

#[test]
fn frame_order_and_fixed_parts() {
    let s = state();
    let frame = s.render(800, 30, 500);
    assert_eq!(
        frame,
        vec![
            DrawCmd::Fill { paint: Paint::Background },
            highlight(),
            DrawCmd::Line { paint: Paint::Grid, from: Point::new(0, 500), to: Point::new(800, 500) },
            DrawCmd::LayerNumber { paint: Paint::LayerNumber, at: Point::new(5, 514), number: 1 },
            DrawCmd::Line { paint: Paint::Grid, from: Point::new(40, 500), to: Point::new(40, 530) },
            DrawCmd::Line {
                paint: Paint::Playhead,
                from: Point::new(200, 500),
                to: Point::new(200, 800)
            },
            DrawCmd::FillRoundedRect {
                paint: Paint::MenuPanel,
                rect: Rect { x: 40, y: 1, width: 270, height: 123 },
                radius: 8
            },
            DrawCmd::Line { paint: Paint::Divider, from: Point::new(800, 0), to: Point::new(800, 500) },
        ]
    );
}

#[test]
fn negative_extents_clamp_to_zero() {
    let mut s = state();
    s.on_pointer_motion(-1, -1);
    let frame = s.render(-10, -5, -30);
    assert_eq!(
        frame,
        vec![
            DrawCmd::Fill { paint: Paint::Background },
            DrawCmd::Line { paint: Paint::Playhead, from: Point::new(200, 0), to: Point::new(200, 300) },
            DrawCmd::FillRoundedRect {
                paint: Paint::MenuPanel,
                rect: Rect { x: 40, y: 1, width: 270, height: 123 },
                radius: 8
            },
            DrawCmd::Line { paint: Paint::Divider, from: Point::new(800, 0), to: Point::new(800, 0) },
        ]
    );
}

#[test]
fn watch_zone() {
    let mut s = state();
    s.on_pointer_motion(25, 25);
    assert!(has_highlight(&s.render(800, 60, 430)));
    s.on_pointer_motion(51, 51);
    assert!(!has_highlight(&s.render(800, 60, 430)));
    s.on_pointer_motion(50, 50);
    assert!(has_highlight(&s.render(800, 60, 430)));
    s.on_pointer_motion(0, 0);
    assert!(has_highlight(&s.render(800, 60, 430)));
    s.on_pointer_motion(50, 51);
    assert!(!has_highlight(&s.render(800, 60, 430)));
    s.on_pointer_motion(-1, 10);
    assert!(!has_highlight(&s.render(800, 60, 430)));
}

#[test]
fn indicator_shows_highlight() {
    let mut s = state();
    s.on_pointer_motion(300, 300);
    assert!(!has_highlight(&s.render(800, 60, 430)));
    s.on_label_click(1);
    let frame = s.render(800, 60, 430);
    assert!(has_highlight(&frame));
    assert_eq!(frame.iter().filter(|c| **c == highlight()).count(), 1);
    s.on_outside_click();
    assert!(!has_highlight(&s.render(800, 60, 430)));
}

#[test]
fn render_is_idempotent() {
    let mut s = state();
    s.on_pointer_motion(30, 40);
    s.on_drag_begin(220, 160);
    s.on_drag_update(400, 10);
    let first = s.render(1133, 700, 430);
    let second = s.render(1133, 700, 430);
    assert_eq!(first, second);
    assert_eq!(first.len(), 2 + 3 * 24 + 3);
    assert_eq!(s.playhead(), Point::new(380, 0));
    assert_eq!(
        first[first.len() - 3],
        DrawCmd::Line { paint: Paint::Playhead, from: Point::new(380, 430), to: Point::new(380, 730) }
    );
}

#[test]
fn drag_offset_does_not_change_frame() {
    let mut s = state();
    let before = s.render(640, 90, 430);
    assert!(!s.on_drag_begin(999, -999));
    assert_eq!(s.render(640, 90, 430), before);
}
