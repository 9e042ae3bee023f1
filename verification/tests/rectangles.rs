use primer::rectangles::Rectangle;

#[test]
fn larger_can_hold_smaller() {
    let larger = Rectangle::new(8, 7);
    let smaller = Rectangle::new(5, 1);

    assert!(larger.can_hold(&smaller));
}

#[test]
fn smaller_cannot_hold_larger() -> Result<(), String> {
    let larger = Rectangle::new(8, 7);
    let smaller = Rectangle::new(5, 1);

    if !smaller.can_hold(&larger) {
        Ok(())
    } else {
        Err(String::from(
            "It should be impossible for a smaller rectangle to hold a larger one.",
        ))
    }
}

#[test]
fn area_is_correct() {
    let rect = Rectangle::new(10, 5);
    assert_eq!(rect.area(), 50);
}

#[test]
fn two_separate_rectangles_sharing_area() {
    println!("Hello, world!");

    let rect1 = Rectangle::new(10, 20);
    let rect2 = Rectangle::new(50, 4);

    assert_eq!(rect1.area(), rect2.area());
}

#[test]
fn a_square_is_as_wide_as_it_is_tall() {
    let square = Rectangle::square(6);
    assert_eq!(square.area(), 36);
    assert!(square.can_hold(&Rectangle::new(6, 6)));
}
