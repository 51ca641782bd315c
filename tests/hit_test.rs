use centered_windows::{
    ClipCache, MonitorAreas, MonitorInfo, Preferences, RawRect, Rect, WindowInfo, WindowProbe,
};

fn window(handle: isize, left: i32, top: i32, right: i32, bottom: i32) -> WindowInfo {
    let monitor = MonitorInfo::build(
        1,
        Some(MonitorAreas {
            monitor: RawRect { left: 0, top: 0, right: 1920, bottom: 1080 },
            work: RawRect { left: 0, top: 0, right: 1920, bottom: 1080 },
        }),
    );
    let probe = WindowProbe {
        handle,
        is_window: true,
        title: format!("window {handle}"),
        ex_style: 0,
        style: 0,
        visible: true,
        minimized: false,
        maximized: false,
        frame_bounds: Some(RawRect { left, top, right, bottom }),
        window_rect: None,
        monitor,
    };
    WindowInfo::build(&probe, &Preferences::default()).unwrap()
}

#[test]
fn adjacent_rects_select_one_recompute_per_change() {
    let overlay = Rect::new(0, 0, 1920, 1080);
    let windows = vec![window(1, 0, 0, 10, 10), window(2, 10, 0, 20, 10)];
    let a = Rect::new(0, 0, 10, 10);
    let b = Rect::new(10, 0, 10, 10);
    let mut cache = ClipCache::new();
    assert_eq!(cache.current(), None);

    assert!(cache.update(5, 5, overlay, &windows));
    assert_eq!(cache.current(), Some(a));

    for (x, y) in [(0, 0), (9, 9), (3, 7), (9, 0)] {
        assert!(!cache.update(x, y, overlay, &windows));
        assert_eq!(cache.current(), Some(a));
    }

    assert!(cache.update(15, 5, overlay, &windows));
    assert_eq!(cache.current(), Some(b));
    assert_ne!(cache.current(), Some(a));

    assert!(!cache.update(10, 5, overlay, &windows));
    assert_eq!(cache.current(), Some(b));
}

#[test]
fn first_window_in_order_wins_on_overlap() {
    let overlay = Rect::new(0, 0, 1920, 1080);
    let windows = vec![window(1, 0, 0, 100, 100), window(2, 50, 50, 200, 200)];
    let mut cache = ClipCache::new();
    assert!(cache.update(60, 60, overlay, &windows));
    assert_eq!(cache.current(), Some(Rect::new(0, 0, 100, 100)));
    assert!(cache.update(150, 150, overlay, &windows));
    assert_eq!(cache.current(), Some(Rect::new(50, 50, 150, 150)));
}

#[test]
fn hits_are_relative_to_the_overlay() {
    let overlay = Rect::new(-1920, -100, 3840, 1180);
    let windows = vec![window(1, -1000, 0, -500, 300)];
    let mut cache = ClipCache::new();
    assert!(cache.update(100, 100, overlay, &windows));
    assert_eq!(cache.current(), None);
    assert!(cache.update(1000, 200, overlay, &windows));
    assert_eq!(cache.current(), Some(Rect::new(920, 100, 500, 300)));
}

#[test]
fn leaving_every_window_clears_the_highlight() {
    let overlay = Rect::new(0, 0, 1920, 1080);
    let windows = vec![window(1, 0, 0, 10, 10)];
    let mut cache = ClipCache::new();
    assert!(cache.update(5, 5, overlay, &windows));
    assert!(cache.current().is_some());
    assert!(cache.update(500, 500, overlay, &windows));
    assert_eq!(cache.current(), None);
    assert!(cache.update(501, 500, overlay, &windows));
    assert_eq!(cache.current(), None);
}

#[test]
fn window_out_of_range_in_overlay_frame_is_passed_over() {
    let overlay = Rect::new(i32::MAX - 10, 0, 10, 10);
    let windows = vec![window(1, i32::MIN, 0, i32::MIN + 100, 10), window(2, 0, 0, 10, 10)];
    let mut cache = ClipCache::new();
    assert!(cache.update(i32::MIN + 15, 5, overlay, &windows));
    assert_eq!(cache.current(), Some(Rect::new(i32::MIN + 11, 0, 10, 10)));
}

#[test]
fn empty_window_list_highlights_nothing() {
    let overlay = Rect::new(0, 0, 1920, 1080);
    let mut cache = ClipCache::new();
    assert!(cache.update(5, 5, overlay, &[]));
    assert_eq!(cache.current(), None);
}
