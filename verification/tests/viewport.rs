use pixel_canvas::error::CanvasError;
use pixel_canvas::viewport::ViewportTransform;

#[test]
fn new_view_is_the_grid_times_the_scale() {
    let v = ViewportTransform::new(2, 10, 10).unwrap();
    assert_eq!(v.scale(), 2);
    assert_eq!(v.view_width(), 20);
    assert_eq!(v.view_height(), 20);
    let v = ViewportTransform::new(8, 75, 56).unwrap();
    assert_eq!(v.view_width(), 600);
    assert_eq!(v.view_height(), 448);
}

#[test]
fn new_refuses_scale_zero() {
    assert!(ViewportTransform::new(0, 10, 10).is_none());
}

#[test]
fn new_refuses_a_view_beyond_32_bits() {
    assert!(ViewportTransform::new(2, u32::MAX / 2 + 1, 1).is_none());
    assert!(ViewportTransform::new(2, 1, u32::MAX / 2 + 1).is_none());
    let v = ViewportTransform::new(2, u32::MAX / 2, 1).unwrap();
    assert_eq!(v.view_width(), u32::MAX - 1);
}

#[test]
fn screen_to_buffer_divides_by_the_scale() {
    let v = ViewportTransform::new(2, 10, 10).unwrap();
    assert_eq!(v.screen_to_buffer(5, 7), (2, 3));
    assert_eq!(v.screen_to_buffer(0, 0), (0, 0));
    assert_eq!(v.screen_to_buffer(19, 19), (9, 9));
    assert_eq!(v.screen_to_buffer(20, 21), (10, 10));
}

#[test]
fn screen_to_buffer_rounds_toward_zero() {
    let v = ViewportTransform::new(4, 10, 10).unwrap();
    assert_eq!(v.screen_to_buffer(7, 3), (1, 0));
    assert_eq!(v.screen_to_buffer(-1, -3), (0, 0));
    assert_eq!(v.screen_to_buffer(-4, -7), (-1, -1));
    assert_eq!(v.screen_to_buffer(i32::MIN, i32::MAX), (i32::MIN / 4, i32::MAX / 4));
}

#[test]
fn screen_to_buffer_inverts_scaling_on_multiples() {
    for scale in [1u32, 2, 3, 8, 16] {
        let v = ViewportTransform::new(scale, 50, 50).unwrap();
        for x in -20..50i32 {
            for y in [-7i32, 0, 13, 49] {
                let s = scale as i32;
                assert_eq!(v.screen_to_buffer(x * s, y * s), (x, y));
            }
        }
    }
}

#[test]
fn every_position_of_a_cell_maps_to_the_cell() {
    let v = ViewportTransform::new(8, 10, 10).unwrap();
    for dx in 0..8i32 {
        for dy in 0..8i32 {
            assert_eq!(v.screen_to_buffer(3 * 8 + dx, 9 * 8 + dy), (3, 9));
        }
    }
}

#[test]
fn contains_is_the_extent_of_the_view() {
    let v = ViewportTransform::new(2, 10, 5).unwrap();
    assert!(v.contains(0, 0));
    assert!(v.contains(19, 9));
    assert!(!v.contains(20, 9));
    assert!(!v.contains(19, 10));
    assert!(!v.contains(-1, 0));
    assert!(!v.contains(0, -1));
}

#[test]
fn zoom_in_doubles_scale_and_view() {
    let mut v = ViewportTransform::new(2, 10, 7).unwrap();
    v.zoom_in();
    assert_eq!(v.scale(), 4);
    assert_eq!(v.view_width(), 40);
    assert_eq!(v.view_height(), 28);
}

#[test]
fn zoom_in_stops_where_the_view_would_overflow() {
    let mut v = ViewportTransform::new(1 << 30, 2, 1).unwrap();
    assert_eq!(v.view_width(), 1 << 31);
    v.zoom_in();
    assert_eq!(v.scale(), 1 << 30);
    assert_eq!(v.view_width(), 1 << 31);
    assert_eq!(v.view_height(), 1 << 30);
    let mut v = ViewportTransform::new(1 << 31, 1, 1).unwrap();
    v.zoom_in();
    assert_eq!(v.scale(), 1 << 31);
    assert_eq!(v.view_width(), 1 << 31);
}

#[test]
fn zoom_out_halves_scale_and_view() {
    let mut v = ViewportTransform::new(8, 10, 7).unwrap();
    v.zoom_out();
    assert_eq!(v.scale(), 4);
    assert_eq!(v.view_width(), 40);
    assert_eq!(v.view_height(), 28);
}

#[test]
fn zoom_out_of_an_odd_scale_keeps_the_view_a_multiple() {
    let mut v = ViewportTransform::new(3, 10, 7).unwrap();
    v.zoom_out();
    assert_eq!(v.scale(), 1);
    assert_eq!(v.view_width(), 10);
    assert_eq!(v.view_height(), 7);
    let mut v = ViewportTransform::new(5, 10, 7).unwrap();
    v.zoom_out();
    assert_eq!(v.scale(), 2);
    assert_eq!(v.view_width(), 20);
    assert_eq!(v.view_height(), 14);
}

#[test]
fn zoom_out_stops_at_scale_one() {
    let mut v = ViewportTransform::new(4, 10, 7).unwrap();
    v.zoom_out();
    v.zoom_out();
    assert_eq!(v.scale(), 1);
    assert_eq!((v.view_width(), v.view_height()), (10, 7));
    for _ in 0..5 {
        v.zoom_out();
        assert_eq!(v.scale(), 1);
        assert_eq!((v.view_width(), v.view_height()), (10, 7));
    }
}

#[test]
fn zoom_out_undoes_zoom_in() {
    let mut v = ViewportTransform::new(3, 11, 13).unwrap();
    v.zoom_in();
    v.zoom_out();
    assert_eq!(v.scale(), 3);
    assert_eq!((v.view_width(), v.view_height()), (33, 39));
}

#[test]
fn retarget_recomputes_the_view_at_the_same_scale() {
    let mut v = ViewportTransform::new(4, 10, 10).unwrap();
    assert_eq!(v.retarget(3, 25), Ok(()));
    assert_eq!(v.scale(), 4);
    assert_eq!((v.view_width(), v.view_height()), (12, 100));
}

#[test]
fn retarget_refuses_a_view_beyond_32_bits() {
    let mut v = ViewportTransform::new(4, 10, 10).unwrap();
    assert_eq!(v.retarget(1 << 30, 1), Err(CanvasError::InvalidDimension));
    assert_eq!(v.retarget(1, 1 << 30), Err(CanvasError::InvalidDimension));
    assert_eq!(v.scale(), 4);
    assert_eq!((v.view_width(), v.view_height()), (40, 40));
    assert_eq!(v.retarget((1 << 30) - 1, 1), Ok(()));
    assert_eq!(v.view_width(), u32::MAX - 3);
}
