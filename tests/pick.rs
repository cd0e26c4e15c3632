use sandbox_pick::pick::{cast_request, ndc_from_pixel, CastError, NdcPoint, Pixel, Viewport};

fn value(num: i64, den: i64) -> f64 {
    num as f64 / den as f64
}

#[test]
fn centre_of_800_by_600_is_ndc_origin() {
    let v = Viewport { width: 800, height: 600 };
    let r = cast_request(v, Some(Pixel { x: 400, y: 300 }), true).unwrap();
    assert_eq!(r, NdcPoint { x_num: 0, x_den: 800, y_num: 0, y_den: 600 });
    assert_eq!(value(r.x_num, r.x_den), 0.0);
    assert_eq!(value(r.y_num, r.y_den), 0.0);
}

#[test]
fn corners_map_to_unit_square_corners() {
    let v = Viewport { width: 640, height: 480 };
    let low = ndc_from_pixel(v, Pixel { x: 0, y: 0 });
    assert_eq!((value(low.x_num, low.x_den), value(low.y_num, low.y_den)), (-1.0, -1.0));
    let high = ndc_from_pixel(v, Pixel { x: 640, y: 480 });
    assert_eq!((value(high.x_num, high.x_den), value(high.y_num, high.y_den)), (1.0, 1.0));
}

#[test]
fn quarter_pixel_gives_exact_formula() {
    let v = Viewport { width: 800, height: 600 };
    let r = ndc_from_pixel(v, Pixel { x: 200, y: 450 });
    assert_eq!(r, NdcPoint { x_num: -400, x_den: 800, y_num: 300, y_den: 600 });
    assert_eq!(value(r.x_num, r.x_den), -0.5);
    assert_eq!(value(r.y_num, r.y_den), 0.5);
}

#[test]
fn doubled_viewport_gives_same_point() {
    let small = cast_request(Viewport { width: 800, height: 600 }, Some(Pixel { x: 123, y: 457 }), true).unwrap();
    let big = cast_request(Viewport { width: 1600, height: 1200 }, Some(Pixel { x: 246, y: 914 }), true).unwrap();
    assert_eq!(small.x_num * big.x_den, big.x_num * small.x_den);
    assert_eq!(small.y_num * big.y_den, big.y_num * small.y_den);
    assert_eq!(value(small.x_num, small.x_den), value(big.x_num, big.x_den));
    assert_eq!(value(small.y_num, small.y_den), value(big.y_num, big.y_den));
}

#[test]
fn degenerate_camera_is_refused() {
    let v = Viewport { width: 800, height: 600 };
    assert_eq!(cast_request(v, Some(Pixel { x: 10, y: 10 }), false), Err(CastError::DegenerateCamera));
    assert_eq!(cast_request(Viewport { width: 0, height: 0 }, None, false), Err(CastError::DegenerateCamera));
}

#[test]
fn empty_viewport_is_refused() {
    assert_eq!(cast_request(Viewport { width: 0, height: 600 }, None, true), Err(CastError::InvalidViewport));
    assert_eq!(cast_request(Viewport { width: 800, height: 0 }, Some(Pixel { x: 1, y: 1 }), true), Err(CastError::InvalidViewport));
}

#[test]
fn missing_cursor_matches_origin_click() {
    let v = Viewport { width: 1024, height: 768 };
    let missing = cast_request(v, None, true);
    let origin = cast_request(v, Some(Pixel { x: 0, y: 0 }), true);
    assert_eq!(missing, origin);
    assert_eq!(missing, Ok(NdcPoint { x_num: -1024, x_den: 1024, y_num: -768, y_den: 768 }));
}

#[test]
fn largest_viewport_does_not_overflow() {
    let v = Viewport { width: u32::MAX, height: u32::MAX };
    let r = ndc_from_pixel(v, Pixel { x: u32::MAX, y: 0 });
    assert_eq!(r.x_num, u32::MAX as i64);
    assert_eq!(r.y_num, -(u32::MAX as i64));
}
