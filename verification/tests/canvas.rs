use city_skyline::canvas::Canvas;
use city_skyline::common::{put_pixel_safe, Color};

const INK: Color = (255, 255, 120);

fn count_of(canvas: &Canvas, color: Color) -> usize {
    let mut count = 0;
    for y in 0..canvas.height() {
        for x in 0..canvas.width() {
            if canvas.get_pixel(x, y) == Some(color) {
                count += 1;
            }
        }
    }
    count
}

#[test]
fn a_new_canvas_is_black_and_has_its_size() {
    let canvas = Canvas::new(4, 3).unwrap();
    assert_eq!(canvas.width(), 4);
    assert_eq!(canvas.height(), 3);
    for y in 0..3 {
        for x in 0..4 {
            assert_eq!(canvas.get_pixel(x, y), Some((0, 0, 0)));
        }
    }
}

#[test]
fn a_canvas_may_have_no_pixels() {
    let canvas = Canvas::new(0, 7).unwrap();
    assert_eq!((canvas.width(), canvas.height()), (0, 7));
    assert_eq!(canvas.get_pixel(0, 0), None);
    let canvas = Canvas::new(0, 0).unwrap();
    assert_eq!((canvas.width(), canvas.height()), (0, 0));
}

#[test]
fn a_canvas_larger_than_any_allocation_is_refused() {
    assert!(Canvas::new(u32::MAX, u32::MAX).is_none());
}

#[test]
fn a_row_has_to_be_countable_even_where_there_is_no_row() {
    let countable = 3 * (u32::MAX as u128) <= usize::MAX as u128;
    let canvas = Canvas::new(u32::MAX, 0);
    assert_eq!(canvas.is_some(), countable);
    if let Some(canvas) = canvas {
        assert_eq!((canvas.width(), canvas.height()), (u32::MAX, 0));
        assert_eq!(canvas.get_pixel(0, 0), None);
    }
    let canvas = Canvas::new(0, u32::MAX).unwrap();
    assert_eq!((canvas.width(), canvas.height()), (0, u32::MAX));
}

#[test]
fn no_pixel_is_read_outside_the_canvas() {
    let canvas = Canvas::new(4, 3).unwrap();
    assert_eq!(canvas.get_pixel(4, 0), None);
    assert_eq!(canvas.get_pixel(0, 3), None);
    assert_eq!(canvas.get_pixel(3, 2), Some((0, 0, 0)));
    assert_eq!(canvas.get_pixel(u32::MAX, u32::MAX), None);
}

#[test]
fn a_pixel_that_is_put_can_be_read_back() {
    let mut canvas = Canvas::new(4, 3).unwrap();
    canvas.put_pixel(1, 2, (10, 20, 30));
    assert_eq!(canvas.get_pixel(1, 2), Some((10, 20, 30)));
    assert_eq!(canvas.get_pixel(2, 1), Some((0, 0, 0)));
    assert_eq!(count_of(&canvas, (10, 20, 30)), 1);
    assert_eq!((canvas.width(), canvas.height()), (4, 3));
}

#[test]
fn a_safe_write_outside_the_canvas_is_dropped() {
    let mut canvas = Canvas::new(4, 3).unwrap();
    put_pixel_safe(&mut canvas, 4, 0, INK);
    put_pixel_safe(&mut canvas, 0, 3, INK);
    put_pixel_safe(&mut canvas, u32::MAX, u32::MAX, INK);
    assert_eq!(count_of(&canvas, INK), 0);
    put_pixel_safe(&mut canvas, 3, 2, INK);
    assert_eq!(canvas.get_pixel(3, 2), Some(INK));
    assert_eq!(count_of(&canvas, INK), 1);
}

#[test]
fn a_safe_write_reaches_the_bottom_right_corner_and_no_further() {
    let mut canvas = Canvas::new(1900, 1080).unwrap();
    put_pixel_safe(&mut canvas, 1900, 1079, INK);
    put_pixel_safe(&mut canvas, 1899, 1080, INK);
    assert_eq!(count_of(&canvas, INK), 0);
    put_pixel_safe(&mut canvas, 1899, 1079, INK);
    assert_eq!(canvas.get_pixel(1899, 1079), Some(INK));
    assert_eq!(count_of(&canvas, INK), 1);
}

#[test]
fn a_rectangle_over_the_bottom_right_corner_is_clipped() {
    let mut canvas = Canvas::new(1900, 1080).unwrap();
    canvas.fill_rect(1898, 1078, 5, 5, INK);
    assert_eq!(canvas.get_pixel(1899, 1079), Some(INK));
    assert_eq!(canvas.get_pixel(1898, 1078), Some(INK));
    assert_eq!(canvas.get_pixel(1897, 1079), Some((0, 0, 0)));
    assert_eq!(canvas.get_pixel(1899, 1077), Some((0, 0, 0)));
    assert_eq!(canvas.get_pixel(1900, 1079), None);
    assert_eq!(canvas.get_pixel(1899, 1080), None);
    assert_eq!(count_of(&canvas, INK), 4);
    assert_eq!((canvas.width(), canvas.height()), (1900, 1080));
}

#[test]
fn a_rectangle_inside_the_canvas_is_painted_whole() {
    let mut canvas = Canvas::new(8, 6).unwrap();
    canvas.fill_rect(2, 1, 3, 4, INK);
    for y in 0..6u32 {
        for x in 0..8u32 {
            let inside = (2..5).contains(&x) && (1..5).contains(&y);
            assert_eq!(canvas.get_pixel(x, y), Some(if inside { INK } else { (0, 0, 0) }));
        }
    }
}

#[test]
fn a_rectangle_over_the_top_left_corner_is_clipped() {
    let mut canvas = Canvas::new(5, 5).unwrap();
    canvas.fill_rect(-2, -1, 4, 3, INK);
    for y in 0..5u32 {
        for x in 0..5u32 {
            let inside = x < 2 && y < 2;
            assert_eq!(canvas.get_pixel(x, y), Some(if inside { INK } else { (0, 0, 0) }));
        }
    }
}

#[test]
fn a_rectangle_off_the_canvas_changes_nothing() {
    let mut canvas = Canvas::new(5, 5).unwrap();
    canvas.fill_rect(5, 0, 3, 3, INK);
    canvas.fill_rect(0, 5, 3, 3, INK);
    canvas.fill_rect(-3, 0, 3, 3, INK);
    canvas.fill_rect(0, -3, 3, 3, INK);
    canvas.fill_rect(i64::MAX, i64::MAX, 2, 2, INK);
    canvas.fill_rect(i64::MIN, i64::MIN, 2, 2, INK);
    assert_eq!(count_of(&canvas, INK), 0);
}

#[test]
fn an_empty_rectangle_changes_nothing() {
    let mut canvas = Canvas::new(5, 5).unwrap();
    canvas.fill_rect(1, 1, 0, 3, INK);
    canvas.fill_rect(1, 1, 3, 0, INK);
    assert_eq!(count_of(&canvas, INK), 0);
}

#[test]
fn a_later_rectangle_paints_over_an_earlier_one() {
    let mut canvas = Canvas::new(4, 4).unwrap();
    canvas.fill_rect(0, 0, 3, 3, INK);
    canvas.fill_rect(2, 2, 2, 2, (1, 2, 3));
    assert_eq!(canvas.get_pixel(2, 2), Some((1, 2, 3)));
    assert_eq!(canvas.get_pixel(1, 1), Some(INK));
    assert_eq!(count_of(&canvas, INK), 8);
    assert_eq!(count_of(&canvas, (1, 2, 3)), 4);
}
