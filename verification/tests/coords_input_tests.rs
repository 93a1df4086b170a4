use brushkit::coords::{div_floor, to_image, RectI};
use brushkit::input::{InputTracker, RawInput, Tool};
use brushkit::kernel::COORD_LIMIT;

fn raw() -> RawInput {
    RawInput {
        has_pointer: true,
        pointer_x: 0,
        pointer_y: 0,
        pointer_down: false,
        space_down: false,
        shift_down: false,
        enter_down: false,
        reset_clicked: false,
        merge_clicked: false,
        export_clicked: false,
        compute_only: false,
        tool: Tool::Draw,
        color_r: 255,
        color_g: 255,
        color_b: 255,
    }
}

fn view() -> RectI {
    RectI { x: 1000, y: 2000, w: 4000, h: 4000 }
}

fn scene() -> RectI {
    RectI { x: 0, y: 0, w: 1024, h: 1024 }
}

#[test]
fn div_floor_rounds_toward_negative_infinity() {
    assert_eq!(div_floor(7, 2), 3);
    assert_eq!(div_floor(-7, 2), -4);
    assert_eq!(div_floor(-8, 2), -4);
    assert_eq!(div_floor(0, 5), 0);
    assert_eq!(div_floor(-1, 5), -1);
    assert_eq!(div_floor(9, 3), 3);
}

#[test]
fn to_image_maps_viewport_corners_to_scene() {
    let v = view();
    let z = scene();
    // The viewport origin maps to the scene origin.
    assert_eq!(to_image(1000, 2000, &v, &z), (0, 0));
    // The far corner maps to the scene extent.
    assert_eq!(to_image(5000, 6000, &v, &z), (1024, 1024));
    // Positions left of the viewport still map (negative image space).
    let (qx, _) = to_image(0, 2000, &v, &z);
    assert!(qx < 0);
}

#[test]
fn coordinate_round_trip_within_zoom_tolerance() {
    let v = view();
    let z = scene();
    for p in [1000i64, 1003, 1777, 2500, 3999, 4999, 5000] {
        let (q, _) = to_image(p, 2000, &v, &z);
        // Inverse transform, image space back to screen space.
        let back = div_floor((q - z.x) * v.w, z.w) + v.x;
        assert!(back <= p);
        // Error below one image subpixel's worth of screen subpixels.
        assert!((p - back) * z.w < v.w + z.w, "p={} back={}", p, back);
    }
}

#[test]
fn pointer_edges_are_detected() {
    let mut t = InputTracker::new();
    let v = view();
    let z = scene();

    let mut r = raw();
    r.pointer_down = true;
    let b1 = t.update(&r, &v, &z);
    assert!(b1.pressed && !b1.held && !b1.released);

    let b2 = t.update(&r, &v, &z);
    assert!(!b2.pressed && b2.held && !b2.released);

    r.pointer_down = false;
    let b3 = t.update(&r, &v, &z);
    assert!(!b3.pressed && !b3.held && b3.released);

    let b4 = t.update(&r, &v, &z);
    assert!(!b4.pressed && !b4.held && !b4.released);
}

#[test]
fn cursor_trails_by_one_frame() {
    let mut t = InputTracker::new();
    let v = view();
    let z = scene();
    let mut r = raw();
    r.pointer_x = 1000;
    r.pointer_y = 2000;
    let b1 = t.update(&r, &v, &z);
    assert_eq!((b1.cursor_x, b1.cursor_y), (0, 0));
    r.pointer_x = 1004;
    let b2 = t.update(&r, &v, &z);
    assert_eq!((b2.prev_x, b2.prev_y), (0, 0));
    assert_eq!(b2.cursor_x, div_floor(4 * 1024, 4000));
}

#[test]
fn weight_anchors_follow_weight_tool() {
    let mut t = InputTracker::new();
    let v = view();
    let z = scene();

    // With the Draw tool, anchors stay at their defaults.
    let mut r = raw();
    r.pointer_down = true;
    r.pointer_x = 1000;
    r.pointer_y = 2000;
    let b = t.update(&r, &v, &z);
    assert_eq!((b.weight_ax, b.weight_ay), (25600, 25600));

    // With the Weight tool, a press moves the first anchor and a held
    // pointer moves the second.
    r.pointer_down = false;
    t.update(&r, &v, &z);
    r.tool = Tool::Weight;
    r.pointer_down = true;
    let b1 = t.update(&r, &v, &z);
    assert_eq!((b1.weight_ax, b1.weight_ay), (0, 0));
    assert_eq!((b1.weight_bx, b1.weight_by), (0, 0));
    r.pointer_x = 1100;
    let b2 = t.update(&r, &v, &z);
    assert_eq!((b2.weight_ax, b2.weight_ay), (0, 0));
    assert_eq!(b2.weight_bx, div_floor(100 * 1024, 4000));

    // Outside the view rectangle, the anchors do not move.
    r.pointer_x = 50000;
    let b3 = t.update(&r, &v, &z);
    assert_eq!(b3.weight_bx, b2.weight_bx);
}

#[test]
fn merge_rearms_on_new_enter_edge() {
    let mut t = InputTracker::new();
    let v = view();
    let z = scene();
    let mut r = raw();
    r.enter_down = true;
    let b1 = t.update(&r, &v, &z);
    assert!(b1.merge_requested);
    // Held down: no new edge, no new request.
    let b2 = t.update(&r, &v, &z);
    assert!(!b2.merge_requested);
    r.enter_down = false;
    let b3 = t.update(&r, &v, &z);
    assert!(!b3.merge_requested);
    r.enter_down = true;
    let b4 = t.update(&r, &v, &z);
    assert!(b4.merge_requested);
    // The panel button requests a merge directly.
    r.enter_down = false;
    r.merge_clicked = true;
    let b5 = t.update(&r, &v, &z);
    assert!(b5.merge_requested);
}

#[test]
fn cursor_is_clamped_to_coordinate_range() {
    let mut t = InputTracker::new();
    let v = RectI { x: 0, y: 0, w: 1, h: 1 };
    let z = RectI { x: 0, y: 0, w: 2097152, h: 2097152 };
    let mut r = raw();
    r.pointer_x = 2097152;
    r.pointer_y = 2097152;
    let b = t.update(&r, &v, &z);
    assert_eq!(b.cursor_x, COORD_LIMIT);
    assert_eq!(b.cursor_y, COORD_LIMIT);
}
