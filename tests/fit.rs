use gobliso::fit::place;

#[test]
fn square_canvas_from_landscape_source() {
    let p = place(800, 600, 1080, 1080);
    assert_eq!((p.width, p.height), (1080, 810));
    assert_eq!((p.x, p.y), (0, 135));
}

#[test]
fn wide_canvas_from_full_hd_source() {
    let p = place(1920, 1080, 1080, 566);
    assert_eq!((p.width, p.height), (1006, 566));
    assert_eq!((p.x, p.y), (37, 0));
}

#[test]
fn tall_canvas_from_portrait_source() {
    let p = place(600, 900, 1080, 1350);
    assert_eq!((p.width, p.height), (900, 1350));
    assert_eq!((p.x, p.y), (90, 0));
}

#[test]
fn odd_margin_is_floored() {
    // 3 x 1 onto 10 x 10: scaled to 10 x 3, margins 7 split as 3 above.
    let p = place(3, 1, 10, 10);
    assert_eq!((p.width, p.height), (10, 3));
    assert_eq!((p.x, p.y), (0, 3));
}

#[test]
fn truncation_keeps_aspect_within_one_pixel() {
    let p = place(7, 3, 100, 100);
    assert_eq!((p.width, p.height), (100, 42));
    // 42 * 7 <= 100 * 3 < 43 * 7
    assert!(p.height * 7 <= 100 * 3 && 100 * 3 < (p.height + 1) * 7);
    assert_eq!((p.x, p.y), (0, 29));
}

#[test]
fn placement_stays_inside_canvas_for_extreme_sources() {
    for &(w, h) in &[(1u32, 1u32), (1, 100000), (100000, 1), (u32::MAX, u32::MAX), (u32::MAX, 1)] {
        for &(dw, dh) in &[(1080u32, 1080u32), (1080, 566), (1080, 1350)] {
            let p = place(w, h, dw, dh);
            assert!(p.x + p.width <= dw);
            assert!(p.y + p.height <= dh);
            assert!(p.width == dw || p.height == dh);
        }
    }
}
