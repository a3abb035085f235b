use wox_overlay::geometry::{
    monitor_under_cursor, position_window_at_the_center_of_the_monitor_with_cursor,
    screen_under_cursor, Monitor, PhysicalPosition, PhysicalSize, Point, Rect, ScaleFactor, Screen,
    Size,
};

fn scale(thousandths: u32) -> ScaleFactor {
    ScaleFactor::from_thousandths(thousandths).unwrap()
}

fn screen(name: &str, x: i64, y: i64, width: u32, height: u32, thousandths: u32) -> Screen {
    Screen {
        name: Some(name.to_string()),
        frame: Rect { origin: Point { x, y }, size: Size { width, height } },
        scale_factor: scale(thousandths),
    }
}

fn desk() -> Vec<Screen> {
    vec![
        screen("built-in", 0, 0, 1440, 900, 2000),
        screen("external", 1440, 0, 1920, 1080, 1000),
    ]
}

#[test]
fn scale_factor_of_zero_does_not_exist() {
    assert!(ScaleFactor::from_thousandths(0).is_none());
    assert_eq!(ScaleFactor::from_thousandths(1500).unwrap().thousandths(), 1500);
    assert_eq!(ScaleFactor::identity().thousandths(), 1000);
}

#[test]
fn rect_holds_left_and_upper_edge_only() {
    let r = Rect { origin: Point { x: 10, y: 20 }, size: Size { width: 100, height: 50 } };
    assert!(r.contains(Point { x: 10, y: 21 }));
    assert!(r.contains(Point { x: 109, y: 70 }));
    assert!(!r.contains(Point { x: 110, y: 30 }));
    assert!(!r.contains(Point { x: 9, y: 30 }));
    assert!(!r.contains(Point { x: 50, y: 20 }));
    assert!(r.contains(Point { x: 50, y: 70 }));
    assert!(!r.contains(Point { x: 50, y: 71 }));
}

#[test]
fn rect_at_the_end_of_the_range_does_not_overflow() {
    let r = Rect {
        origin: Point { x: i64::MAX, y: i64::MAX - 1 },
        size: Size { width: u32::MAX, height: u32::MAX },
    };
    assert!(r.contains(Point { x: i64::MAX, y: i64::MAX }));
    assert!(!r.contains(Point { x: i64::MAX - 1, y: i64::MAX }));
}

#[test]
fn pointer_on_first_screen_gives_scaled_monitor() {
    let m = monitor_under_cursor(Point { x: 700, y: 450 }, &desk());
    assert_eq!(
        m,
        Some(Monitor {
            name: Some("built-in".to_string()),
            position: PhysicalPosition { x: 0, y: 0 },
            size: PhysicalSize { width: 2880, height: 1800 },
            scale_factor: scale(2000),
        })
    );
}

#[test]
fn pointer_on_second_screen_gives_second_monitor() {
    let screens = desk();
    assert_eq!(screen_under_cursor(Point { x: 1440, y: 1 }, &screens), Some(1));
    let m = monitor_under_cursor(Point { x: 1440, y: 1 }, &screens).unwrap();
    assert_eq!(m.name, Some("external".to_string()));
    assert_eq!(m.position, PhysicalPosition { x: 1440, y: 0 });
    assert_eq!(m.size, PhysicalSize { width: 1920, height: 1080 });
}

#[test]
fn position_is_multiplied_by_the_scale_factor() {
    let screens = vec![screen("left", -1280, 100, 1280, 800, 2000)];
    let m = monitor_under_cursor(Point { x: -1, y: 101 }, &screens).unwrap();
    assert_eq!(m.position, PhysicalPosition { x: -2560, y: 200 });
    assert_eq!(m.size, PhysicalSize { width: 2560, height: 1600 });
}

#[test]
fn fractional_scale_is_cut_towards_zero() {
    let screens = vec![screen("odd", -3, 0, 1001, 7, 1500)];
    let m = monitor_under_cursor(Point { x: 0, y: 1 }, &screens).unwrap();
    assert_eq!(m.position, PhysicalPosition { x: -4, y: 0 });
    assert_eq!(m.size, PhysicalSize { width: 1501, height: 10 });
}

#[test]
fn physical_values_stay_inside_their_types() {
    let s = scale(4_000_000);
    assert_eq!(s.position_to_physical(i64::MAX), i32::MAX);
    assert_eq!(s.position_to_physical(i64::MIN), i32::MIN);
    assert_eq!(s.extent_to_physical(u32::MAX), u32::MAX);
    assert_eq!(scale(1000).position_to_physical(-2147483648), i32::MIN);
    assert_eq!(scale(1000).position_to_physical(-2147483647), -2147483647);
    assert_eq!(scale(1000).extent_to_physical(4294967295), 4294967295);
}

#[test]
fn logical_values_divide_by_the_scale_factor() {
    assert_eq!(scale(2000).position_to_logical(-2561), -1280);
    assert_eq!(scale(2000).position_to_logical(2561), 1280);
    assert_eq!(scale(1500).extent_to_logical(1501), 1000);
    assert_eq!(scale(1).position_to_logical(i32::MIN), -2_147_483_648_000);
    assert_eq!(scale(1).extent_to_logical(u32::MAX), 4_294_967_295_000);
}

#[test]
fn first_of_two_overlapping_screens_wins() {
    let screens = vec![
        screen("mirror a", 0, 0, 800, 600, 1000),
        screen("mirror b", 0, 0, 800, 600, 2000),
    ];
    assert_eq!(screen_under_cursor(Point { x: 5, y: 5 }, &screens), Some(0));
    let m = monitor_under_cursor(Point { x: 5, y: 5 }, &screens).unwrap();
    assert_eq!(m.name, Some("mirror a".to_string()));
}

#[test]
fn pointer_over_no_screen_gives_none() {
    assert_eq!(monitor_under_cursor(Point { x: 5000, y: 10 }, &desk()), None);
    assert_eq!(screen_under_cursor(Point { x: 5000, y: 10 }, &desk()), None);
    assert_eq!(monitor_under_cursor(Point { x: 0, y: 1 }, &Vec::new()), None);
}

#[test]
fn window_is_centred_on_the_monitor_with_the_cursor() {
    let frame = Rect { origin: Point { x: 3, y: 4 }, size: Size { width: 800, height: 60 } };
    let r = position_window_at_the_center_of_the_monitor_with_cursor(
        Point { x: 2000, y: 500 },
        &desk(),
        frame,
    );
    assert_eq!(
        r,
        Rect { origin: Point { x: 1440 + 560, y: 510 }, size: Size { width: 800, height: 60 } }
    );
    let on_first = position_window_at_the_center_of_the_monitor_with_cursor(
        Point { x: 10, y: 10 },
        &desk(),
        frame,
    );
    assert_eq!(on_first.origin, Point { x: 320, y: 420 });
}

#[test]
fn window_larger_than_the_display_hangs_over_on_both_sides() {
    let m = Monitor {
        name: None,
        position: PhysicalPosition { x: 100, y: -100 },
        size: PhysicalSize { width: 101, height: 50 },
        scale_factor: scale(1000),
    };
    let frame = Rect { origin: Point { x: 0, y: 0 }, size: Size { width: 200, height: 53 } };
    let r = m.center(frame);
    assert_eq!(r.origin, Point { x: 100 - 50, y: -100 - 2 });
    assert_eq!(r.size, frame.size);
}

#[test]
fn centring_twice_gives_the_same_origin() {
    let frame = Rect { origin: Point { x: -70, y: 9 }, size: Size { width: 801, height: 61 } };
    let once =
        position_window_at_the_center_of_the_monitor_with_cursor(Point { x: 1, y: 1 }, &desk(), frame);
    let twice =
        position_window_at_the_center_of_the_monitor_with_cursor(Point { x: 1, y: 1 }, &desk(), once);
    assert_eq!(once, twice);
    assert_eq!(once.origin, Point { x: 319, y: 419 });
}

#[test]
fn window_stays_where_there_is_no_monitor() {
    let frame = Rect { origin: Point { x: 3, y: 4 }, size: Size { width: 800, height: 60 } };
    let r = position_window_at_the_center_of_the_monitor_with_cursor(
        Point { x: -1, y: -1 },
        &desk(),
        frame,
    );
    assert_eq!(r, frame);
}
