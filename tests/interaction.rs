use luvita::geometry::Point;
use luvita::interaction::{Event, InteractionState, LabelState, Style};

fn state(labels: usize) -> InteractionState {
    let texts = vec![
        String::from("open"),
        String::from("close"),
        String::from("open project"),
        String::from("quit"),
    ];
    InteractionState::new(labels, texts, Point::new(200, 150))
}

fn active_count(s: &InteractionState) -> usize {
    let mut n = 0;
    for i in 0..s.label_count() {
        if s.label(i).unwrap().active {
            n += 1;
        }
    }
    n
}

#[test]
fn new_state_is_neutral() {
    let s = state(7);
    assert_eq!(s.label_count(), 7);
    assert_eq!(s.overlay_count(), 4);
    assert_eq!(s.pointer(), Point::new(0, 0));
    assert_eq!(s.playhead(), Point::new(200, 150));
    assert_eq!(s.drag_offset(), Point::new(0, 0));
    assert!(!s.indicator());
    for i in 0..7 {
        assert_eq!(s.label_style(i), Some(Style::Neutral));
    }
    assert_eq!(s.label_style(7), None);
    assert_eq!(s.label(7), None);
}

#[test]
fn mutual_exclusion_over_click_sequence() {
    let mut s = state(5);
    let clicks = [0usize, 3, 3, 1, 4, 4, 4, 2, 0, 9, 2];
    for &c in clicks.iter() {
        s.on_label_click(c);
        assert!(active_count(&s) <= 1);
    }
    s.on_outside_click();
    assert_eq!(active_count(&s), 0);
}

#[test]
fn click_activates_and_clears_others() {
    let mut s = state(3);
    assert!(s.on_label_enter(0));
    assert!(s.on_label_click(0));
    assert_eq!(s.label(0), Some(LabelState { hovered: true, active: true }));
    assert!(s.indicator());
    assert_eq!(s.label_style(0), Some(Style::Active));
    s.on_label_enter(1);
    assert!(s.on_label_click(1));
    assert_eq!(s.label(0), Some(LabelState { hovered: false, active: false }));
    assert_eq!(s.label(1), Some(LabelState { hovered: true, active: true }));
    assert_eq!(s.label(2), Some(LabelState { hovered: false, active: false }));
    assert!(s.indicator());
}

#[test]
fn toggle_symmetry() {
    let mut s = state(3);
    s.on_label_click(1);
    assert!(s.indicator());
    assert!(s.on_label_click(1));
    assert!(!s.label(1).unwrap().active);
    assert!(!s.indicator());

    s.on_label_click(2);
    assert!(s.on_outside_click());
    assert!(!s.label(2).unwrap().active);
    assert!(!s.indicator());
    assert!(!s.on_outside_click());
}

#[test]
fn click_past_last_label_changes_nothing() {
    let mut s = state(2);
    assert!(!s.on_label_click(2));
    assert_eq!(active_count(&s), 0);
    assert!(!s.indicator());
}

#[test]
fn hover_ignored_on_active_label() {
    let mut s = state(2);
    s.on_label_click(0);
    assert!(!s.on_label_leave(0));
    assert!(!s.on_label_enter(0));
    assert_eq!(s.label_style(0), Some(Style::Active));
    assert!(s.on_label_enter(1));
    assert_eq!(s.label_style(1), Some(Style::Hovered));
    assert!(!s.on_label_enter(1));
    assert!(s.on_label_leave(1));
    assert_eq!(s.label_style(1), Some(Style::Neutral));
}

#[test]
fn overlay_items_hover_only() {
    let mut s = state(2);
    assert_eq!(s.overlay_text(2), Some(String::from("open project")));
    assert_eq!(s.overlay_text(4), None);
    assert_eq!(s.overlay_offset(0), Some(0));
    assert_eq!(s.overlay_offset(3), Some(84));
    assert_eq!(s.overlay_offset(4), None);
    assert!(s.on_overlay_enter(1));
    assert_eq!(s.overlay_style(1), Some(Style::Hovered));
    assert!(!s.on_overlay_enter(1));
    assert!(s.on_overlay_leave(1));
    assert_eq!(s.overlay_style(1), Some(Style::Neutral));
    assert!(!s.on_overlay_enter(4));
    assert_eq!(s.overlay_style(4), None);
    assert_eq!(active_count(&s), 0);
}

#[test]
fn drag_algebra() {
    let mut s = InteractionState::new(0, Vec::new(), Point::new(50, 50));
    assert_eq!(s.playhead(), Point::new(50, 50));
    assert!(!s.on_drag_begin(100, 100));
    assert_eq!(s.drag_offset(), Point::new(50, 50));
    assert!(s.on_drag_update(60, 60));
    assert_eq!(s.playhead(), Point::new(10, 10));
    assert!(!s.on_drag_update(60, 60));
    assert!(!s.on_drag_end(70, 30));
    assert_eq!(s.drag_offset(), Point::new(60, 20));
    assert_eq!(s.playhead(), Point::new(10, 10));
}

#[test]
fn abandoned_drag_then_new_drag() {
    let mut s = state(0);
    s.on_drag_begin(300, 300);
    s.on_drag_update(310, 300);
    assert_eq!(s.playhead(), Point::new(210, 150));
    s.on_drag_begin(210, 150);
    assert_eq!(s.drag_offset(), Point::new(0, 0));
    s.on_drag_update(5, 7);
    assert_eq!(s.playhead(), Point::new(5, 7));
}

#[test]
fn playhead_is_not_clamped() {
    let mut s = state(0);
    s.on_drag_begin(0, 0);
    s.on_drag_update(-500, 90000);
    assert_eq!(s.playhead(), Point::new(-300, 90150));
}

#[test]
fn motion_redraw_discipline() {
    let mut s = state(0);
    assert!(s.on_pointer_motion(10, 20));
    assert_eq!(s.pointer(), Point::new(10, 20));
    assert!(!s.on_pointer_motion(10, 20));
    assert!(s.on_pointer_motion(10, 21));
    assert!(s.on_pointer_motion(11, 21));
}

#[test]
fn handle_dispatches_events() {
    let mut s = state(3);
    assert!(s.handle(Event::Motion { x: 25, y: 25 }));
    assert!(!s.handle(Event::Motion { x: 25, y: 25 }));
    assert!(!s.handle(Event::DragBegin { x: 250, y: 200 }));
    assert!(s.handle(Event::DragUpdate { dx: 60, dy: 60 }));
    assert_eq!(s.playhead(), Point::new(10, 10));
    assert!(!s.handle(Event::DragEnd { x: 20, y: 20 }));
    assert!(s.handle(Event::LabelEnter { label: 2 }));
    assert!(s.handle(Event::LabelClick { label: 2 }));
    assert!(s.handle(Event::LabelClick { label: 0 }));
    assert_eq!(active_count(&s), 1);
    assert_eq!(s.label(2), Some(LabelState { hovered: false, active: false }));
    assert!(s.handle(Event::OutsideClick));
    assert_eq!(active_count(&s), 0);
    assert!(s.handle(Event::OverlayEnter { item: 0 }));
    assert!(s.handle(Event::OverlayLeave { item: 0 }));
    assert!(!s.handle(Event::LabelLeave { label: 1 }));
}
