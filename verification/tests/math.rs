use city_skyline::math::{Dimensions2, Point2, Vector2};

#[test]
fn vector_keeps_its_components() {
    let v = Vector2::new(3u32, 7u32);
    assert_eq!(v.x(), 3);
    assert_eq!(v.y(), 7);
    assert_eq!(*v.x_ref(), 3);
    assert_eq!(*v.y_ref(), 7);
}

#[test]
fn vector_components_can_be_changed_in_place() {
    let mut v = Vector2::new(3u32, 7u32);
    *v.x_mut() = 11;
    assert_eq!(v.x(), 11);
    assert_eq!(v.y(), 7);
    *v.y_mut() += 1;
    assert_eq!(v.x(), 11);
    assert_eq!(v.y(), 8);
}

#[test]
fn point_is_another_name_for_vector() {
    let p: Point2<u32> = Vector2::new(1, 2);
    assert_eq!((p.x(), p.y()), (1, 2));
}

#[test]
fn dimensions_take_height_first() {
    let d = Dimensions2::new(10u32, 20u32);
    assert_eq!(d.height(), 10);
    assert_eq!(d.width(), 20);
    assert_eq!(*d.height_ref(), 10);
    assert_eq!(*d.width_ref(), 20);
}

#[test]
fn dimensions_can_be_changed_in_place() {
    let mut d = Dimensions2::new(10u32, 20u32);
    *d.width_mut() = 25;
    assert_eq!((d.height(), d.width()), (10, 25));
    *d.height_mut() = 0;
    assert_eq!((d.height(), d.width()), (0, 25));
}

#[test]
fn a_size_is_zero_when_either_dimension_is() {
    assert!(Dimensions2::new(0u32, 5u32).is_zero());
    assert!(Dimensions2::new(5u32, 0u32).is_zero());
    assert!(Dimensions2::new(0u32, 0u32).is_zero());
    assert!(!Dimensions2::new(1u32, 1u32).is_zero());
    assert!(!Dimensions2::new(u32::MAX, 7u32).is_zero());
}

#[test]
fn a_vector_is_zero_when_either_component_is() {
    assert!(Vector2::new(0u32, 9u32).is_zero());
    assert!(Vector2::new(9u32, 0u32).is_zero());
    assert!(!Vector2::new(9u32, 9u32).is_zero());
}

#[test]
fn clones_hold_the_same_components() {
    let v = Vector2::new(4u32, 5u32);
    let w = v.clone();
    assert_eq!((w.x(), w.y()), (4, 5));
    let d = Dimensions2::new(6u32, 7u32);
    let e = d.clone();
    assert_eq!((e.height(), e.width()), (6, 7));
}
