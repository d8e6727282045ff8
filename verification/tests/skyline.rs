use city_skyline::building::Building;
use city_skyline::canvas::Canvas;
use city_skyline::common::Color;
use city_skyline::math::Dimensions2;
use city_skyline::skyline::{
    check_compose, close_skyline, next_cursor, next_position, place_buildings, render,
    render_buildings, shuffle_draw_order, RenderOpts,
};
use city_skyline::window::WindowType;

const PALETTE: [Color; 4] = [(30, 30, 30), (80, 80, 80), (200, 200, 200), (175, 175, 175)];

fn plain(x: u32, height: u32, width: u32, color: Color) -> Building {
    Building::assemble(x, Dimensions2::new(height, width), WindowType::TwoByTwo, 50, color)
}

#[test]
fn a_building_is_placed_at_its_offset_from_the_cursor() {
    assert_eq!(next_position(200, -100), 100);
    assert_eq!(next_position(10, 49), 59);
    assert_eq!(next_position(0, 0), 0);
    assert_eq!(next_position(u32::MAX, i32::MAX), u32::MAX as u64 + i32::MAX as u64);
}

#[test]
fn a_position_left_of_the_canvas_becomes_column_zero() {
    assert_eq!(next_position(0, -100), 0);
    assert_eq!(next_position(99, -100), 0);
    assert_eq!(next_position(100, -100), 0);
    assert_eq!(next_position(101, -100), 1);
    assert_eq!(next_position(0, i32::MIN), 0);
}

#[test]
fn the_cursor_moves_by_the_width_and_the_offset() {
    assert_eq!(next_cursor(0, 250, -100), 150);
    assert_eq!(next_cursor(150, 200, 49), 399);
    assert_eq!(next_cursor(0, 10, -100), -90);
    assert_eq!(next_cursor(u32::MAX, u32::MAX, i32::MAX), 2 * (u32::MAX as i64) + i32::MAX as i64);
}

#[test]
fn closing_an_empty_skyline_does_nothing() {
    let mut buildings: Vec<Building> = Vec::new();
    close_skyline(&mut buildings, 1900);
    assert!(buildings.is_empty());
}

#[test]
fn closing_a_skyline_makes_the_last_building_end_before_the_right_edge() {
    let mut buildings = vec![plain(0, 600, 220, PALETTE[0]), plain(1700, 700, 250, PALETTE[1])];
    close_skyline(&mut buildings, 1900);
    assert_eq!(buildings.len(), 2);
    assert_eq!((buildings[0].x, buildings[0].dimensions.width()), (0, 220));
    assert_eq!(buildings[0].dimensions.height(), 600);
    assert_eq!(buildings[1].x, 1700);
    assert_eq!(buildings[1].dimensions.width(), 199);
    assert_eq!(buildings[1].dimensions.height(), 700);
    assert_eq!(buildings[1].color, PALETTE[1]);
    assert_eq!(buildings[1].windows.len(), 4);
}

#[test]
fn closing_a_skyline_may_narrow_the_last_building() {
    let mut buildings = vec![plain(1899, 600, 220, PALETTE[0])];
    close_skyline(&mut buildings, 1900);
    assert_eq!(buildings[0].dimensions.width(), 0);
    let mut buildings = vec![plain(1800, 600, 220, PALETTE[0])];
    close_skyline(&mut buildings, 1900);
    assert_eq!(buildings[0].dimensions.width(), 99);
}

#[test]
fn a_skyline_ends_one_column_before_the_right_edge() {
    let mut rng = rand::thread_rng();
    for _ in 0..50 {
        let buildings =
            place_buildings(&mut rng, 1900, &(-100..50), &Dimensions2::new(500..900, 200..275), 50, &PALETTE);
        assert!(!buildings.is_empty());
        let last = buildings.last().unwrap();
        assert_eq!(last.x + last.dimensions.width(), 1899);
        for building in &buildings {
            assert!(building.x < 1900);
            assert!((500..900).contains(&building.dimensions.height()));
            assert!(PALETTE.contains(&building.color));
        }
        for building in &buildings[..buildings.len() - 1] {
            assert!((200..275).contains(&building.dimensions.width()));
        }
        for pair in buildings.windows(2) {
            assert!(pair[0].x <= pair[1].x);
        }
    }
}

#[test]
fn without_offsets_to_the_right_a_skyline_has_no_gap() {
    let mut rng = rand::thread_rng();
    for _ in 0..50 {
        let buildings =
            place_buildings(&mut rng, 1900, &(-100..1), &Dimensions2::new(500..900, 200..275), 50, &PALETTE);
        assert_eq!(buildings[0].x, 0);
        let mut covered = vec![false; 1900];
        for building in &buildings {
            for column in building.x..building.x + building.dimensions.width() {
                if column < 1900 {
                    covered[column as usize] = true;
                }
            }
        }
        assert!(covered[..1899].iter().all(|c| *c));
        let last = buildings.last().unwrap();
        assert_eq!(last.x + last.dimensions.width(), 1899);
    }
}

#[test]
fn fixed_draws_give_a_fixed_skyline() {
    let mut rng = rand::thread_rng();
    let buildings = place_buildings(&mut rng, 1000, &(-10..-9), &Dimensions2::new(500..501, 210..211), 50, &PALETTE);
    let placed: Vec<(u32, u32)> = buildings.iter().map(|b| (b.x, b.dimensions.width())).collect();
    assert_eq!(placed, vec![(0, 210), (190, 210), (390, 210), (590, 210), (790, 209)]);
    for building in &buildings {
        assert_eq!(building.dimensions.height(), 500);
    }
}

#[test]
fn a_canvas_without_columns_gets_no_building() {
    let mut rng = rand::thread_rng();
    let buildings =
        place_buildings(&mut rng, 0, &(-100..50), &Dimensions2::new(500..900, 200..275), 50, &PALETTE);
    assert!(buildings.is_empty());
}

#[test]
fn an_offset_past_the_right_edge_places_no_building() {
    let mut rng = rand::thread_rng();
    let buildings =
        place_buildings(&mut rng, 20, &(30..31), &Dimensions2::new(500..900, 200..275), 50, &PALETTE);
    assert!(buildings.is_empty());
}

#[test]
fn shuffling_keeps_the_buildings() {
    let mut rng = rand::thread_rng();
    let mut moved = false;
    for _ in 0..20 {
        let mut buildings: Vec<Building> =
            (0..10u32).map(|k| plain(k * 100, 500 + k, 200 + k, PALETTE[(k % 4) as usize])).collect();
        shuffle_draw_order(&mut buildings, &mut rng);
        assert_eq!(buildings.len(), 10);
        let order: Vec<u32> = buildings.iter().map(|b| b.x).collect();
        if order != (0..10u32).map(|k| k * 100).collect::<Vec<u32>>() {
            moved = true;
        }
        let mut seen: Vec<(u32, u32, u32, Color)> = buildings
            .iter()
            .map(|b| (b.x, b.dimensions.height(), b.dimensions.width(), b.color))
            .collect();
        seen.sort();
        let expected: Vec<(u32, u32, u32, Color)> =
            (0..10u32).map(|k| (k * 100, 500 + k, 200 + k, PALETTE[(k % 4) as usize])).collect();
        assert_eq!(seen, expected);
    }
    assert!(moved);
}

#[test]
fn a_later_building_hides_an_earlier_one() {
    let red: Color = (200, 0, 0);
    let blue: Color = (0, 0, 200);
    let left = plain(0, 6, 6, red);
    let right = plain(4, 4, 6, blue);
    let mut canvas = Canvas::new(10, 6).unwrap();
    render_buildings(&mut canvas, &vec![left, right], 0, 0);
    assert_eq!(canvas.get_pixel(3, 5), Some(red));
    assert_eq!(canvas.get_pixel(4, 5), Some(blue));
    assert_eq!(canvas.get_pixel(5, 2), Some(blue));
    assert_eq!(canvas.get_pixel(5, 1), Some(red));
    assert_eq!(canvas.get_pixel(9, 5), Some(blue));
    assert_eq!(canvas.get_pixel(9, 1), Some((0, 0, 0)));
    let left = plain(0, 6, 6, red);
    let right = plain(4, 4, 6, blue);
    let mut canvas = Canvas::new(10, 6).unwrap();
    render_buildings(&mut canvas, &vec![right, left], 0, 0);
    assert_eq!(canvas.get_pixel(4, 5), Some(red));
    assert_eq!(canvas.get_pixel(5, 2), Some(red));
    assert_eq!(canvas.get_pixel(6, 5), Some(blue));
}

#[test]
fn rendering_no_building_changes_nothing() {
    let mut canvas = Canvas::new(4, 4).unwrap();
    render_buildings(&mut canvas, &Vec::new(), 5, 5);
    for y in 0..4 {
        for x in 0..4 {
            assert_eq!(canvas.get_pixel(x, y), Some((0, 0, 0)));
        }
    }
}

#[test]
fn a_rendered_skyline_stands_on_the_bottom_edge() {
    let mut rng = rand::thread_rng();
    let sky: Color = (1, 2, 3);
    let mut canvas = Canvas::new(1900, 1080).unwrap();
    canvas.fill_rect(0, 0, 1900, 1080, sky);
    render(RenderOpts {
        image: &mut canvas,
        rng: &mut rng,
        building_border_thickness: 5,
        building_offset_range: -100..1,
        building_size_range: Dimensions2::new(500..900, 200..275),
        window_border_thickness: 5,
        window_margin: 50,
        color_opts: &PALETTE,
    });
    assert_eq!((canvas.width(), canvas.height()), (1900, 1080));
    for x in 0..1899u32 {
        assert_ne!(canvas.get_pixel(x, 1079), Some(sky));
    }
    for x in 0..1900u32 {
        for y in 0..180u32 {
            assert_eq!(canvas.get_pixel(x, y), Some(sky));
        }
    }
}

#[test]
fn the_default_ranges_can_be_composed() {
    assert!(check_compose(&(-100..50), &Dimensions2::new(500..900, 200..275), &PALETTE));
    assert!(check_compose(&(-199..50), &Dimensions2::new(500..900, 200..275), &PALETTE));
    assert!(check_compose(&(0..1), &Dimensions2::new(0..1, 1..2), &PALETTE[..1]));
}

#[test]
fn an_empty_range_cannot_be_drawn_from() {
    assert!(!check_compose(&(50..50), &Dimensions2::new(500..900, 200..275), &PALETTE));
    assert!(!check_compose(&(50..-100), &Dimensions2::new(500..900, 200..275), &PALETTE));
    assert!(!check_compose(&(-100..50), &Dimensions2::new(900..900, 200..275), &PALETTE));
    assert!(!check_compose(&(-100..50), &Dimensions2::new(500..900, 275..200), &PALETTE));
    assert!(!check_compose(&(-100..50), &Dimensions2::new(500..900, 200..275), &[]));
}

#[test]
fn the_cursor_has_to_move_to_the_right() {
    assert!(!check_compose(&(-200..50), &Dimensions2::new(500..900, 200..275), &PALETTE));
    assert!(!check_compose(&(-100..50), &Dimensions2::new(500..900, 0..275), &PALETTE));
    assert!(!check_compose(&(i32::MIN..0), &Dimensions2::new(500..900, 5..u32::MAX), &PALETTE));
    assert!(check_compose(&(i32::MAX - 1..i32::MAX), &Dimensions2::new(0..1, 0..u32::MAX), &PALETTE));
}
