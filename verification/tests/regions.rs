use landmark_prediction::geometry::{ImageSize, Point, Rectangle};

const IMAGE: ImageSize = ImageSize { width: 640, height: 480 };

fn rect(left: i64, top: i64, right: i64, bottom: i64) -> Rectangle {
    Rectangle { left, top, right, bottom }
}

#[test]
fn whole_image_is_a_region() {
    assert!(rect(0, 0, 639, 479).within(&IMAGE));
}

#[test]
fn single_pixel_is_a_region() {
    assert!(rect(0, 0, 0, 0).within(&IMAGE));
    assert!(rect(639, 479, 639, 479).within(&IMAGE));
    assert!(rect(320, 240, 320, 240).within(&IMAGE));
}

#[test]
fn face_in_the_middle_is_a_region() {
    assert!(rect(200, 120, 420, 360).within(&IMAGE));
}

#[test]
fn edge_one_past_the_image_is_not_a_region() {
    assert!(!rect(0, 0, 640, 479).within(&IMAGE));
    assert!(!rect(0, 0, 639, 480).within(&IMAGE));
    assert!(!rect(-1, 0, 639, 479).within(&IMAGE));
    assert!(!rect(0, -1, 639, 479).within(&IMAGE));
}

#[test]
fn degenerate_rectangle_is_not_a_region() {
    assert!(!rect(10, 10, 9, 20).within(&IMAGE));
    assert!(!rect(10, 10, 20, 9).within(&IMAGE));
    assert!(!rect(300, 200, 100, 100).within(&IMAGE));
}

#[test]
fn rectangle_fully_outside_the_image_is_rejected() {
    assert!(!rect(640, 0, 700, 100).within(&IMAGE));
    assert!(!rect(0, 480, 100, 600).within(&IMAGE));
    assert!(!rect(-200, 10, -1, 100).within(&IMAGE));
    assert!(!rect(10, -200, 100, -1).within(&IMAGE));
    assert!(!rect(1000, 1000, 1100, 1100).within(&IMAGE));
    assert!(!rect(-1100, -1100, -1000, -1000).within(&IMAGE));
}

#[test]
fn rectangle_partly_outside_the_image_is_rejected() {
    assert!(!rect(600, 400, 700, 470).within(&IMAGE));
    assert!(!rect(-10, 100, 50, 200).within(&IMAGE));
    assert!(!rect(100, 400, 200, 500).within(&IMAGE));
}

#[test]
fn extreme_coordinates_are_rejected() {
    assert!(!rect(i64::MIN, i64::MIN, i64::MAX, i64::MAX).within(&IMAGE));
    assert!(!rect(0, 0, i64::MAX, 0).within(&IMAGE));
    assert!(!rect(i64::MIN, 0, 0, 0).within(&IMAGE));
}

#[test]
fn empty_image_has_no_region() {
    let none = ImageSize { width: 0, height: 0 };
    let flat = ImageSize { width: 640, height: 0 };
    let thin = ImageSize { width: 0, height: 480 };
    assert!(!rect(0, 0, 0, 0).within(&none));
    assert!(!rect(0, 0, 0, 0).within(&flat));
    assert!(!rect(0, 0, 0, 0).within(&thin));
}

#[test]
fn largest_image_takes_the_largest_coordinates() {
    let image = ImageSize { width: usize::MAX, height: usize::MAX };
    let far = ((usize::MAX as u64).min(i64::MAX as u64) - 1) as i64;
    assert!(rect(0, 0, far, far).within(&image));
}

#[test]
fn point_is_inside_up_to_the_last_pixel() {
    assert!(Point { x: 0, y: 0 }.inside(&IMAGE));
    assert!(Point { x: 639, y: 479 }.inside(&IMAGE));
    assert!(!Point { x: 640, y: 479 }.inside(&IMAGE));
    assert!(!Point { x: 639, y: 480 }.inside(&IMAGE));
    assert!(!Point { x: -1, y: 0 }.inside(&IMAGE));
    assert!(!Point { x: 0, y: -1 }.inside(&IMAGE));
    assert!(!Point { x: i64::MIN, y: i64::MAX }.inside(&IMAGE));
}
