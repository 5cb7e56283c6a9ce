use nav_controller::geometry::{BoundingBox, Coordinate, Vector};
use nav_controller::vision::{DetectedMarker, MapState, MarkerColor, StepError};

fn marker(color: MarkerColor, x_min: u32, y_min: u32, x_max: u32, y_max: u32) -> DetectedMarker {
    DetectedMarker { color, bbox: BoundingBox { x_min, y_min, x_max, y_max } }
}

#[test]
fn locate_finds_both_markers() {
    let markers = vec![
        marker(MarkerColor::Red, 0, 0, 10, 10),
        marker(MarkerColor::Green, 20, 20, 30, 40),
    ];
    let state = MapState::locate(&markers).unwrap();
    assert_eq!(state.car, Coordinate { x: 5, y: 5 });
    assert_eq!(state.target, Coordinate { x: 25, y: 30 });
}

#[test]
fn locate_takes_the_first_marker_of_each_color() {
    let markers = vec![
        marker(MarkerColor::Blue, 0, 0, 2, 2),
        marker(MarkerColor::Green, 10, 10, 20, 20),
        marker(MarkerColor::Red, 30, 30, 40, 40),
        marker(MarkerColor::Green, 50, 50, 60, 60),
        marker(MarkerColor::Red, 70, 70, 80, 80),
    ];
    let state = MapState::locate(&markers).unwrap();
    assert_eq!(state.car, Coordinate { x: 35, y: 35 });
    assert_eq!(state.target, Coordinate { x: 15, y: 15 });
}

#[test]
fn locate_reports_a_missing_car() {
    let markers = vec![marker(MarkerColor::Green, 0, 0, 2, 2)];
    assert_eq!(
        MapState::locate(&markers),
        Err(StepError::DetectionFailure { car_missing: true, target_missing: false })
    );
}

#[test]
fn locate_reports_a_missing_target() {
    let markers = vec![marker(MarkerColor::Red, 0, 0, 2, 2)];
    assert_eq!(
        MapState::locate(&markers),
        Err(StepError::DetectionFailure { car_missing: false, target_missing: true })
    );
}

#[test]
fn locate_reports_both_missing_in_an_empty_frame() {
    let markers: Vec<DetectedMarker> = Vec::new();
    assert_eq!(
        MapState::locate(&markers),
        Err(StepError::DetectionFailure { car_missing: true, target_missing: true })
    );
}

#[test]
fn locate_ignores_untracked_colors() {
    let markers = vec![
        marker(MarkerColor::White, 0, 0, 2, 2),
        marker(MarkerColor::Blue, 4, 4, 6, 6),
        marker(MarkerColor::Unknown, 8, 8, 10, 10),
    ];
    assert_eq!(
        MapState::locate(&markers),
        Err(StepError::DetectionFailure { car_missing: true, target_missing: true })
    );
}

#[test]
fn bbox_center_rounds_down() {
    let c = Coordinate::from_bbox(&BoundingBox { x_min: 0, y_min: 1, x_max: 5, y_max: 4 });
    assert_eq!(c, Coordinate { x: 2, y: 2 });
}

#[test]
fn bbox_center_handles_the_largest_pixels() {
    let c = Coordinate::from_bbox(&BoundingBox {
        x_min: u32::MAX,
        y_min: u32::MAX,
        x_max: u32::MAX,
        y_max: u32::MAX,
    });
    assert_eq!(c, Coordinate { x: u32::MAX, y: u32::MAX });
}

#[test]
fn vector_between_subtracts_coordinates() {
    let v = Vector::between(Coordinate { x: 3, y: 7 }, Coordinate { x: 10, y: 2 });
    assert_eq!(v, Vector { dx: 7, dy: -5 });
    let w = Vector::between(Coordinate { x: 0, y: 0 }, Coordinate { x: 0, y: 0 });
    assert_eq!(w, Vector { dx: 0, dy: 0 });
}
