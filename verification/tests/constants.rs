use city_skyline::canvas::Canvas;
use city_skyline::constants::{
    BUILDING_BORDER_THICKNESS, BUILDING_COLORS, BUILDING_HEIGHT_RANGE, BUILDING_OFFSET_RANGE,
    BUILDING_WIDTH_RANGE, IMAGE_HEIGHT, IMAGE_WIDTH, STAR_CELL_COUNT_HORIZONTAL,
    STAR_CELL_COUNT_VERTICAL, STAR_CELL_HEIGHT, STAR_CELL_WIDTH, WINDOW_BORDER_THICKNESS,
    WINDOW_MARGIN,
};
use city_skyline::math::{Dimensions2, Vector2};
use city_skyline::nightsky::{check_grid, StarKind};
use city_skyline::skyline::check_compose;

#[test]
fn the_default_image_is_1900_by_1080() {
    assert_eq!((IMAGE_WIDTH, IMAGE_HEIGHT), (1900, 1080));
}

#[test]
fn the_default_buildings_come_from_their_ranges() {
    assert_eq!(BUILDING_HEIGHT_RANGE, 500..900);
    assert_eq!(BUILDING_WIDTH_RANGE, 200..275);
    assert_eq!(BUILDING_OFFSET_RANGE, -100..50);
    assert_eq!(BUILDING_COLORS, [(30, 30, 30), (80, 80, 80), (200, 200, 200), (175, 175, 175)]);
    assert_eq!((BUILDING_BORDER_THICKNESS, WINDOW_BORDER_THICKNESS, WINDOW_MARGIN), (5, 5, 50));
}

#[test]
fn the_default_star_grid_follows_the_shape_of_the_image() {
    assert_eq!(STAR_CELL_COUNT_HORIZONTAL, 30);
    assert_eq!(STAR_CELL_COUNT_VERTICAL, STAR_CELL_COUNT_HORIZONTAL * IMAGE_HEIGHT / IMAGE_WIDTH);
    assert_eq!(STAR_CELL_WIDTH, IMAGE_WIDTH / STAR_CELL_COUNT_HORIZONTAL);
    assert_eq!(STAR_CELL_HEIGHT, IMAGE_HEIGHT / STAR_CELL_COUNT_VERTICAL);
    assert_eq!((STAR_CELL_COUNT_VERTICAL, STAR_CELL_WIDTH, STAR_CELL_HEIGHT), (17, 63, 63));
}

#[test]
fn the_defaults_can_be_rendered() {
    let canvas = Canvas::new(IMAGE_WIDTH, IMAGE_HEIGHT).unwrap();
    let stars = vec![StarKind::Big; 30 * 17];
    assert!(check_grid(
        &canvas,
        &Vector2::new(STAR_CELL_COUNT_HORIZONTAL, STAR_CELL_COUNT_VERTICAL),
        &Dimensions2::new(STAR_CELL_HEIGHT, STAR_CELL_WIDTH),
        &stars
    ));
    assert!(check_compose(
        &BUILDING_OFFSET_RANGE,
        &Dimensions2::new(BUILDING_HEIGHT_RANGE, BUILDING_WIDTH_RANGE),
        &BUILDING_COLORS
    ));
}
