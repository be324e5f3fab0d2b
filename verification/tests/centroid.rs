use polyprops::centroid::{has_negative, lowest_coordinates};
use polyprops::{
    centroid_algorithm, polygon_area_internal, polygon_centroid_internal, shift_x, shift_y, Edge,
    PolygonError,
};

fn close(a: f64, b: f64) -> bool {
    (a - b).abs() < 1e-6
}

#[test]
fn test_polygon_centroid() {
    let vertices = vec![0.0, 0.0, 1.0, 0.0, 1.0, 1.0];
    let (x, y) = polygon_centroid_internal(&vertices, None).unwrap();
    assert!(close(x, 2.0 / 3.0));
    assert!(close(y, 1.0 / 3.0));
}

#[test]
fn test_polygon_centroid_negative_vertices() {
    let vertices = vec![0.0, 0.0, 1.0, 0.0, 1.0, -1.0];
    let (x, y) = polygon_centroid_internal(&vertices, None).unwrap();
    assert!(close(x, 2.0 / 3.0));
    assert!(close(y, -1.0 / 3.0));
}

#[test]
fn centroid_of_rectangle_is_its_centre() {
    let vertices: Vec<f64> = vec![1.0, 1.0, 5.0, 1.0, 5.0, 3.0, 1.0, 3.0];
    assert_eq!(polygon_centroid_internal(&vertices, None), Ok((3.0, 2.0)));
}

#[test]
fn centroid_does_not_depend_on_direction() {
    let clockwise: Vec<f64> = vec![1.0, 3.0, 5.0, 3.0, 5.0, 1.0, 1.0, 1.0];
    assert_eq!(polygon_centroid_internal(&clockwise, None), Ok((3.0, 2.0)));
}

#[test]
fn centroid_with_supplied_area_equals_centroid_without() {
    let vertices: Vec<f64> = vec![0.0, 0.0, 1.0, 0.0, 1.0, 1.0];
    let area = polygon_area_internal(&vertices);
    assert_eq!(
        polygon_centroid_internal(&vertices, Some(area)),
        polygon_centroid_internal(&vertices, None)
    );
    let below: Vec<f64> = vec![-2.0, -2.0, 2.0, -2.0, 2.0, 2.0, -2.0, 2.0];
    let area = polygon_area_internal(&below);
    assert_eq!(area, 16.0);
    assert_eq!(
        polygon_centroid_internal(&below, Some(area)),
        polygon_centroid_internal(&below, None)
    );
}

#[test]
fn supplied_area_is_used_as_it_is() {
    let vertices: Vec<f64> = vec![1.0, 1.0, 5.0, 1.0, 5.0, 3.0, 1.0, 3.0];
    assert_eq!(polygon_centroid_internal(&vertices, Some(16.0)), Ok((1.5, 1.0)));
}

#[test]
fn centroid_moves_with_the_polygon() {
    let here: Vec<f64> = vec![1.0, 1.0, 5.0, 1.0, 5.0, 3.0, 1.0, 3.0];
    let there: Vec<f64> = vec![9.0, 17.0, 13.0, 17.0, 13.0, 19.0, 9.0, 19.0];
    let (x, y) = polygon_centroid_internal(&here, None).unwrap();
    assert_eq!(polygon_centroid_internal(&there, None), Ok((x + 8.0, y + 16.0)));
}

#[test]
fn centroid_moves_with_the_polygon_below_zero() {
    let there: Vec<f64> = vec![-7.0, -15.0, -3.0, -15.0, -3.0, -13.0, -7.0, -13.0];
    assert_eq!(polygon_centroid_internal(&there, None), Ok((-5.0, -14.0)));
}

#[test]
fn only_the_axis_that_reaches_below_zero_is_moved() {
    let left: Vec<f64> = vec![-1.0, 1.0, 0.0, 1.0, 0.0, 2.0];
    let (x, y) = polygon_centroid_internal(&left, None).unwrap();
    assert!(close(x, -1.0 / 3.0));
    assert!(close(y, 4.0 / 3.0));
    let low: Vec<f64> = vec![1.0, -1.0, 2.0, -1.0, 2.0, 0.0];
    let (x, y) = polygon_centroid_internal(&low, None).unwrap();
    assert!(close(x, 5.0 / 3.0));
    assert!(close(y, -2.0 / 3.0));
}

#[test]
fn centroid_of_collinear_points_is_not_finite() {
    let vertices: Vec<f64> = vec![0.0, 0.0, 1.0, 0.0, 2.0, 0.0];
    assert_eq!(polygon_area_internal(&vertices), 0.0);
    let (x, y) = polygon_centroid_internal(&vertices, None).unwrap();
    assert!(!x.is_finite());
    assert!(!y.is_finite());
}

#[test]
fn centroid_of_collinear_points_off_the_axis_is_not_finite() {
    let vertices: Vec<f64> = vec![1.0, 1.0, 2.0, 2.0, 4.0, 4.0];
    assert_eq!(polygon_area_internal(&vertices), 0.0);
    let (x, y) = polygon_centroid_internal(&vertices, None).unwrap();
    assert!(!x.is_finite());
    assert!(!y.is_finite());
}

#[test]
fn formula_refuses_negative_coordinates() {
    let vertices: Vec<f64> = vec![0.0, 0.0, 1.0, 0.0, 1.0, -1.0];
    assert_eq!(centroid_algorithm(&vertices, None), Err(PolygonError::NegativeVertex));
    assert_eq!(centroid_algorithm(&vertices, Some(0.5)), Err(PolygonError::NegativeVertex));
    let left: Vec<f64> = vec![-1.0, 1.0, 0.0, 1.0, 0.0, 2.0];
    assert_eq!(centroid_algorithm(&left, None), Err(PolygonError::NegativeVertex));
}

#[test]
fn formula_on_non_negative_coordinates() {
    let vertices: Vec<f64> = vec![0.0, 1.0, 1.0, 1.0, 1.0, 0.0];
    let (x, y) = centroid_algorithm(&vertices, None).unwrap();
    assert!(close(x, 2.0 / 3.0));
    assert!(close(y, 2.0 / 3.0));
    let rectangle: Vec<f64> = vec![1.0, 1.0, 5.0, 1.0, 5.0, 3.0, 1.0, 3.0];
    assert_eq!(centroid_algorithm(&rectangle, Some(8.0)), Ok((3.0, 2.0)));
}

#[test]
fn lowest_coordinates_are_found() {
    let vertices: Vec<f64> = vec![3.0, 4.0, -1.0, 7.0, 2.0, -5.0, 0.0, 0.0];
    assert_eq!(lowest_coordinates(&vertices), (-1.0, -5.0));
    let positive: Vec<f64> = vec![3.0, 4.0, 1.0, 7.0, 2.0, 5.0];
    assert_eq!(lowest_coordinates(&positive), (1.0, 4.0));
}

#[test]
fn shift_x_moves_every_x_and_no_y() {
    let vertices: Vec<f64> = vec![0.0, 0.0, 1.0, 0.0, 1.0, -1.0];
    let shifted = shift_x(&vertices, 2.5);
    assert_eq!(shifted, vec![2.5, 0.0, 3.5, 0.0, 3.5, -1.0]);
    assert_eq!(vertices, vec![0.0, 0.0, 1.0, 0.0, 1.0, -1.0]);
}

#[test]
fn shift_y_moves_every_y_and_no_x() {
    let vertices: Vec<f64> = vec![0.0, 0.0, 1.0, 0.0, 1.0, -1.0];
    let shifted = shift_y(&vertices, 1.0);
    assert_eq!(shifted, vec![0.0, 1.0, 1.0, 1.0, 1.0, 0.0]);
    assert_eq!(vertices, vec![0.0, 0.0, 1.0, 0.0, 1.0, -1.0]);
}

#[test]
fn shifts_leave_a_coordinate_without_partner_alone() {
    let vertices: Vec<i64> = vec![1, 2, 3, 4, 5];
    assert_eq!(shift_x(&vertices, 10), vec![11, 2, 13, 4, 5]);
    assert_eq!(shift_y(&vertices, 10), vec![1, 12, 3, 14, 5]);
}

#[test]
fn negative_coordinate_of_an_edge_is_seen() {
    assert!(!has_negative(&Edge { x1: 0.0, y1: 0.0, x2: 1.0, y2: 2.0 }));
    assert!(has_negative(&Edge { x1: -0.5, y1: 0.0, x2: 1.0, y2: 2.0 }));
    assert!(has_negative(&Edge { x1: 0.0, y1: -0.5, x2: 1.0, y2: 2.0 }));
    assert!(has_negative(&Edge { x1: 0.0, y1: 0.0, x2: -1.0, y2: 2.0 }));
    assert!(has_negative(&Edge { x1: 0.0, y1: 0.0, x2: 1.0, y2: -2.0 }));
}

#[test]
fn centroid_on_the_integer_lattice() {
    let vertices: Vec<i64> = vec![0, 0, 6, 0, 6, 6];
    assert_eq!(polygon_centroid_internal(&vertices, None), Ok((4, 2)));
    assert_eq!(polygon_centroid_internal(&vertices, Some(18)), Ok((4, 2)));
    let below: Vec<i64> = vec![-6, -6, 0, -6, 0, 0];
    assert_eq!(polygon_centroid_internal(&below, None), Ok((-2, -4)));
}

#[test]
fn rounding_moves_the_centroid_by_less_than_it_can_show() {
    let below: Vec<f64> = vec![-0.1, -0.1, -0.1, -0.2, -0.2, -1.1];
    let area = polygon_area_internal(&below);
    let (x, y) = polygon_centroid_internal(&below, None).unwrap();
    let (with_x, with_y) = polygon_centroid_internal(&below, Some(area)).unwrap();
    assert!((x + 0.4 / 3.0).abs() < 1e-12);
    assert!((y + 1.4 / 3.0).abs() < 1e-12);
    assert!((with_x - x).abs() < 1e-12);
    assert!((with_y - y).abs() < 1e-12);
    let here: Vec<f64> = vec![0.0, 0.0, 1.0, 0.0, 1.0, 1.0];
    let there: Vec<f64> = vec![0.1, 0.1, 1.1, 0.1, 1.1, 1.1];
    let (x, y) = polygon_centroid_internal(&here, None).unwrap();
    let (moved_x, moved_y) = polygon_centroid_internal(&there, None).unwrap();
    assert!((moved_x - (x + 0.1)).abs() < 1e-12);
    assert!((moved_y - (y + 0.1)).abs() < 1e-12);
}

#[test]
fn lattice_centroid_with_supplied_area_equals_centroid_without() {
    let polygon: Vec<i64> = vec![-30, 10, 40, -20, 70, 50, 20, 90, -40, 60];
    let area = polygon_area_internal(&polygon);
    assert_eq!(area, 7550);
    let found = polygon_centroid_internal(&polygon, None);
    assert!(found.is_ok());
    assert_eq!(polygon_centroid_internal(&polygon, Some(area)), found);
}
