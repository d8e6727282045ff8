use city_skyline::constants::WINDOW_MARGIN;
use city_skyline::math::{Dimensions2, Point2};
use city_skyline::window::{layout_windows, Window, WindowType, WINDOW_TYPE_COUNT};

fn size_of(pattern: WindowType, building_width: u32, margin: u32) -> (u32, u32) {
    let size = pattern.dimensions_with_margin(building_width, margin);
    (size.height(), size.width())
}

fn placed(windows: &[Window]) -> Vec<(u32, u32, u32, u32)> {
    windows
        .iter()
        .map(|w| (w.position().x(), w.position().y(), w.dimensions().height(), w.dimensions().width()))
        .collect()
}

#[test]
fn a_window_keeps_its_position_and_size() {
    let window = Window::new(Point2::new(3, 4), Dimensions2::new(10, 20));
    assert_eq!(window.position().x(), 3);
    assert_eq!(window.position().y(), 4);
    assert_eq!(window.dimensions().height(), 10);
    assert_eq!(window.dimensions().width(), 20);
}

#[test]
fn two_by_two_spans_the_width_between_the_margins() {
    assert_eq!(size_of(WindowType::TwoByTwo, 220, 50), (120, 120));
    assert_eq!(size_of(WindowType::TwoByTwo, 101, 50), (1, 1));
}

#[test]
fn two_by_one_is_half_as_high_as_wide() {
    assert_eq!(size_of(WindowType::TwoByOne, 220, 50), (60, 120));
    assert_eq!(size_of(WindowType::TwoByOne, 221, 50), (60, 121));
}

#[test]
fn one_by_two_is_twice_as_high_as_wide() {
    assert_eq!(size_of(WindowType::OneByTwo, 220, 50), (70, 35));
    assert_eq!(size_of(WindowType::OneByTwo, 221, 50), (70, 35));
}

#[test]
fn one_by_one_is_a_square_of_half_the_free_width() {
    assert_eq!(size_of(WindowType::OneByOne, 220, 50), (35, 35));
    assert_eq!(size_of(WindowType::OneByOne, 152, 50), (1, 1));
}

#[test]
fn a_negative_size_clamps_to_zero() {
    assert_eq!(size_of(WindowType::TwoByTwo, 100, 50), (0, 0));
    assert_eq!(size_of(WindowType::TwoByTwo, 0, 50), (0, 0));
    assert_eq!(size_of(WindowType::TwoByOne, 99, 50), (0, 0));
    assert_eq!(size_of(WindowType::TwoByOne, 101, 50), (0, 1));
    assert_eq!(size_of(WindowType::OneByTwo, 150, 50), (0, 0));
    assert_eq!(size_of(WindowType::OneByTwo, 151, 50), (0, 0));
    assert_eq!(size_of(WindowType::OneByOne, 10, 50), (0, 0));
}

#[test]
fn sizes_do_not_overflow_on_the_largest_inputs() {
    assert_eq!(size_of(WindowType::TwoByTwo, u32::MAX, 0), (u32::MAX, u32::MAX));
    assert_eq!(size_of(WindowType::OneByTwo, u32::MAX, 0), (u32::MAX - 1, u32::MAX / 2));
    assert_eq!(size_of(WindowType::TwoByTwo, u32::MAX, u32::MAX), (0, 0));
    assert_eq!(size_of(WindowType::OneByOne, 5, u32::MAX), (0, 0));
}

#[test]
fn dimensions_for_uses_the_default_margin() {
    assert_eq!(WINDOW_MARGIN, 50);
    let size = WindowType::TwoByTwo.dimensions_for(220);
    assert_eq!((size.height(), size.width()), (120, 120));
    let size = WindowType::OneByTwo.dimensions_for(275);
    assert_eq!((size.height(), size.width()), (124, 62));
    assert!(WindowType::OneByOne.dimensions_for(150).is_zero());
}

#[test]
fn wide_patterns_have_one_window_per_row() {
    assert_eq!(WindowType::TwoByTwo.per_row(), 1);
    assert_eq!(WindowType::TwoByOne.per_row(), 1);
    assert_eq!(WindowType::OneByTwo.per_row(), 2);
    assert_eq!(WindowType::OneByOne.per_row(), 2);
}

#[test]
fn patterns_are_numbered_in_their_order() {
    assert_eq!(WINDOW_TYPE_COUNT, 4);
    assert_eq!(WindowType::from_index(0), WindowType::TwoByTwo);
    assert_eq!(WindowType::from_index(1), WindowType::OneByTwo);
    assert_eq!(WindowType::from_index(2), WindowType::TwoByOne);
    assert_eq!(WindowType::from_index(3), WindowType::OneByOne);
    assert_eq!(WindowType::from_index(4), WindowType::OneByOne);
    assert_eq!(WindowType::from_index(u32::MAX), WindowType::OneByOne);
}

#[test]
fn sampling_draws_every_pattern_sooner_or_later() {
    let mut rng = rand::thread_rng();
    let mut seen = [false; 4];
    for _ in 0..2000 {
        match WindowType::sample(&mut rng) {
            WindowType::TwoByTwo => seen[0] = true,
            WindowType::OneByTwo => seen[1] = true,
            WindowType::TwoByOne => seen[2] = true,
            WindowType::OneByOne => seen[3] = true,
        }
    }
    assert_eq!(seen, [true; 4]);
}

#[test]
fn two_by_two_on_a_building_of_220_gives_windows_of_120() {
    let windows = layout_windows(WindowType::TwoByTwo, 220, 600, 50);
    assert_eq!(
        placed(&windows),
        vec![(50, 50, 120, 120), (50, 220, 120, 120), (50, 390, 120, 120), (50, 560, 120, 120)]
    );
}

#[test]
fn one_by_one_places_two_windows_in_each_row() {
    let windows = layout_windows(WindowType::OneByOne, 220, 200, 50);
    assert_eq!(
        placed(&windows),
        vec![(50, 50, 35, 35), (135, 50, 35, 35), (50, 135, 35, 35), (135, 135, 35, 35)]
    );
}

#[test]
fn one_by_two_places_tall_windows_side_by_side() {
    let windows = layout_windows(WindowType::OneByTwo, 220, 171, 50);
    assert_eq!(
        placed(&windows),
        vec![(50, 50, 70, 35), (135, 50, 70, 35), (50, 170, 70, 35), (135, 170, 70, 35)]
    );
}

#[test]
fn two_by_one_places_one_flat_window_in_each_row() {
    let windows = layout_windows(WindowType::TwoByOne, 220, 270, 50);
    assert_eq!(placed(&windows), vec![(50, 50, 60, 120), (50, 160, 60, 120)]);
}

#[test]
fn a_row_that_starts_on_the_bottom_edge_is_not_laid_out() {
    assert_eq!(layout_windows(WindowType::TwoByTwo, 220, 220, 50).len(), 1);
    assert_eq!(layout_windows(WindowType::TwoByTwo, 220, 221, 50).len(), 2);
}

#[test]
fn a_building_too_narrow_for_its_margins_has_no_windows() {
    assert!(layout_windows(WindowType::TwoByTwo, 100, 600, 50).is_empty());
    assert!(layout_windows(WindowType::TwoByOne, 101, 600, 50).is_empty());
    assert!(layout_windows(WindowType::OneByTwo, 151, 600, 50).is_empty());
    assert!(layout_windows(WindowType::OneByOne, 151, 600, 50).is_empty());
    assert!(layout_windows(WindowType::OneByOne, 0, 600, 50).is_empty());
}

#[test]
fn the_narrowest_viable_building_has_windows() {
    assert_eq!(placed(&layout_windows(WindowType::TwoByTwo, 101, 52, 50)), vec![(50, 50, 1, 1)]);
    assert_eq!(placed(&layout_windows(WindowType::TwoByOne, 102, 52, 50)), vec![(50, 50, 1, 2)]);
    assert_eq!(
        placed(&layout_windows(WindowType::OneByTwo, 152, 53, 50)),
        vec![(50, 50, 2, 1), (101, 50, 2, 1)]
    );
    assert_eq!(
        placed(&layout_windows(WindowType::OneByOne, 152, 52, 50)),
        vec![(50, 50, 1, 1), (101, 50, 1, 1)]
    );
}

#[test]
fn a_building_no_taller_than_the_margin_has_no_windows() {
    assert!(layout_windows(WindowType::TwoByTwo, 220, 50, 50).is_empty());
    assert!(layout_windows(WindowType::TwoByTwo, 220, 0, 50).is_empty());
    assert_eq!(layout_windows(WindowType::TwoByTwo, 220, 51, 50).len(), 1);
}

#[test]
fn without_a_margin_windows_touch_each_other() {
    let windows = layout_windows(WindowType::TwoByTwo, 10, 25, 0);
    assert_eq!(placed(&windows), vec![(0, 0, 10, 10), (0, 10, 10, 10), (0, 20, 10, 10)]);
    let windows = layout_windows(WindowType::OneByOne, 10, 5, 0);
    assert_eq!(placed(&windows), vec![(0, 0, 5, 5), (5, 0, 5, 5)]);
}

#[test]
fn every_window_starts_inside_the_face_and_ends_before_its_right_edge() {
    let patterns =
        [WindowType::TwoByTwo, WindowType::OneByTwo, WindowType::TwoByOne, WindowType::OneByOne];
    for pattern in patterns {
        for building_width in [152u32, 199, 200, 237, 274] {
            for building_height in [500u32, 733, 899] {
                let windows = layout_windows(pattern, building_width, building_height, 50);
                assert!(!windows.is_empty());
                for (x, y, height, width) in placed(&windows) {
                    assert!(height > 0 && width > 0);
                    assert!(x + width <= building_width);
                    assert!(y < building_height);
                }
            }
        }
    }
}

#[test]
fn a_width_of_three_margins_is_too_narrow_for_two_windows_in_a_row() {
    assert!(layout_windows(WindowType::OneByOne, 150, 600, 50).is_empty());
    assert!(layout_windows(WindowType::OneByTwo, 150, 600, 50).is_empty());
    assert_eq!(layout_windows(WindowType::TwoByTwo, 150, 600, 50).len(), 6);
    assert_eq!(layout_windows(WindowType::TwoByOne, 150, 600, 50).len(), 8);
}

#[test]
fn windows_lie_within_the_face_when_the_last_row_fits() {
    let windows = layout_windows(WindowType::TwoByTwo, 220, 680, 50);
    assert_eq!(windows.len(), 4);
    for (x, y, height, width) in placed(&windows) {
        assert!(x + width <= 220);
        assert!(y + height <= 680);
    }
}

#[test]
fn the_last_row_may_reach_below_the_face() {
    let windows = placed(&layout_windows(WindowType::TwoByTwo, 220, 600, 50));
    assert_eq!(windows[3], (50, 560, 120, 120));
}
