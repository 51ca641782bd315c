use centered_windows::{calculate_display_area, Position, RawRect, Rect, Size};

#[test]
fn rect_new_sets_edges_from_position_and_size() {
    let r = Rect::new(-5, 7, 20, 30);
    assert_eq!(r.raw(), (-5, 7, 15, 37));
}

#[test]
fn rect_new_reaches_the_largest_edge() {
    let r = Rect::new(i32::MAX - 10, -1, 10, 0);
    assert_eq!(r.raw(), (i32::MAX - 10, -1, i32::MAX, -1));
}

#[test]
fn rect_new_with_negative_origin_and_wide_size() {
    let r = Rect::new(-2_000_000_000, 0, 3_000_000_000, 1);
    assert_eq!(r.raw(), (-2_000_000_000, 0, 1_000_000_000, 1));
}

#[test]
fn adjust_moves_into_the_base_frame() {
    let base = Rect::new(-1920, -100, 5000, 2000);
    let r = Rect::new(100, 50, 300, 200);
    let a = Rect::adjust(r, base);
    assert_eq!(a.raw(), (2020, 150, 2320, 350));
}

#[test]
fn adjust_round_trips_through_the_negated_frame() {
    let base = Rect::new(-1920, 40, 3000, 1080);
    let back = Rect::new(1920, -40, 1, 1);
    let r = Rect::new(-700, 300, 640, 480);
    let there = Rect::adjust(r, base);
    let again = Rect::adjust(there, back);
    assert_eq!(again, r);
    let (l, t, rr, b) = there.raw();
    assert_eq!((l + -1920, t + 40, rr + -1920, b + 40), r.raw());
}

#[test]
fn contains_is_half_open() {
    let r = Rect::new(0, 0, 10, 10);
    assert!(r.contains(9, 9));
    assert!(!r.contains(10, 5));
    assert!(!r.contains(-1, 5));
    assert!(r.contains(0, 0));
    assert!(!r.contains(5, 10));
    assert!(!r.contains(5, -1));
}

#[test]
fn empty_rect_contains_nothing() {
    let r = Rect::new(3, 3, 0, 0);
    assert!(!r.contains(3, 3));
}

#[test]
fn from_raw_accepts_ordered_and_rejects_inverted() {
    let ok = Rect::from_raw(RawRect { left: 1, top: 2, right: 3, bottom: 4 });
    assert_eq!(ok.map(|r| r.raw()), Some((1, 2, 3, 4)));
    assert!(Rect::from_raw(RawRect { left: 5, top: 2, right: 3, bottom: 4 }).is_none());
    assert!(Rect::from_raw(RawRect { left: 1, top: 9, right: 3, bottom: 4 }).is_none());
}

#[test]
fn display_area_of_side_by_side_rotated_monitors() {
    let monitors = vec![Rect::new(0, 0, 1920, 1080), Rect::new(1920, 0, 1080, 1920)];
    let area = calculate_display_area(&monitors);
    assert_eq!(area.position, Position { x: 0, y: 0 });
    assert_eq!(area.size, Size { width: 3000, height: 1920 });
}

#[test]
fn display_area_spans_negative_coordinates() {
    let monitors = vec![
        Rect::new(0, 0, 1920, 1080),
        Rect::new(-1280, 200, 1280, 1024),
        Rect::new(500, -900, 1600, 900),
    ];
    let area = calculate_display_area(&monitors);
    assert_eq!(area.position, Position { x: -1280, y: -900 });
    assert_eq!(area.size, Size { width: 2100 + 1280, height: 1224 + 900 });
}

#[test]
fn display_area_does_not_include_the_origin_when_no_monitor_does() {
    let monitors = vec![Rect::new(100, 50, 800, 600)];
    let area = calculate_display_area(&monitors);
    assert_eq!(area.position, Position { x: 100, y: 50 });
    assert_eq!(area.size, Size { width: 800, height: 600 });
}

#[test]
fn display_area_of_no_monitor_is_empty() {
    let area = calculate_display_area(&[]);
    assert_eq!(area.position, Position { x: 0, y: 0 });
    assert_eq!(area.size, Size { width: 0, height: 0 });
}

#[test]
fn display_area_of_the_widest_range() {
    let monitors = vec![Rect::new(i32::MIN, 0, 10, 10), Rect::new(i32::MAX - 10, 0, 10, 10)];
    let area = calculate_display_area(&monitors);
    assert_eq!(area.position, Position { x: i32::MIN, y: 0 });
    assert_eq!(area.size, Size { width: u32::MAX, height: 10 });
}
