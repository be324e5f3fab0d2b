use polyprops::{Polygon, PolygonError};

#[test]
fn odd_lengths_are_not_pairs() {
    for n in [1usize, 3, 5, 7, 9, 101] {
        let vertices = vec![1.0f64; n];
        assert_eq!(Polygon::validate_vertices(&vertices), Err(PolygonError::InvalidShape));
        assert_eq!(Polygon::new(vertices).err(), Some(PolygonError::InvalidShape));
    }
}

#[test]
fn fewer_than_three_points_are_no_polygon() {
    for n in [0usize, 2, 4] {
        let vertices = vec![1.0f64; n];
        assert_eq!(
            Polygon::validate_vertices(&vertices),
            Err(PolygonError::InsufficientVertices)
        );
        assert_eq!(Polygon::new(vertices).err(), Some(PolygonError::InsufficientVertices));
    }
}

#[test]
fn three_points_and_more_are_accepted() {
    for n in [6usize, 8, 10, 100] {
        let vertices = vec![1.0f64; n];
        assert_eq!(Polygon::validate_vertices(&vertices), Ok(()));
        let polygon = Polygon::new(vertices.clone()).unwrap();
        assert_eq!(polygon.vertices(), &vertices);
    }
}

#[test]
fn special_values_are_accepted() {
    let vertices = vec![f64::NAN, f64::INFINITY, 0.0, 0.0, 0.0, 0.0];
    assert!(Polygon::new(vertices).is_ok());
}

#[test]
fn new_polygon_holds_its_vertices() {
    let polygon = Polygon::new(vec![0.0, 0.0, 1.0, 0.0, 1.0, 1.0]).unwrap();
    assert_eq!(polygon.vertices(), &vec![0.0, 0.0, 1.0, 0.0, 1.0, 1.0]);
}

#[test]
fn set_vertices_replaces_the_vertices() {
    let mut polygon = Polygon::new(vec![0.0, 0.0, 1.0, 0.0, 1.0, 1.0]).unwrap();
    assert_eq!(polygon.set_vertices(vec![0.0, 0.0, 2.0, 0.0, 2.0, 2.0, 0.0, 2.0]), Ok(()));
    assert_eq!(polygon.vertices(), &vec![0.0, 0.0, 2.0, 0.0, 2.0, 2.0, 0.0, 2.0]);
    assert_eq!(polygon.area(), 4.0);
}

#[test]
fn refused_vertices_leave_the_polygon_as_it_was() {
    let mut polygon = Polygon::new(vec![0.0, 0.0, 1.0, 0.0, 1.0, 1.0]).unwrap();
    assert_eq!(polygon.set_vertices(vec![0.0, 0.0, 1.0]), Err(PolygonError::InvalidShape));
    assert_eq!(polygon.vertices(), &vec![0.0, 0.0, 1.0, 0.0, 1.0, 1.0]);
    assert_eq!(
        polygon.set_vertices(vec![0.0, 0.0, 1.0, 1.0]),
        Err(PolygonError::InsufficientVertices)
    );
    assert_eq!(polygon.vertices(), &vec![0.0, 0.0, 1.0, 0.0, 1.0, 1.0]);
    assert_eq!(polygon.area(), 0.5);
}

#[test]
fn polygon_area_of_unit_right_triangle() {
    let polygon = Polygon::new(vec![0.0, 0.0, 1.0, 0.0, 1.0, 1.0]).unwrap();
    assert_eq!(polygon.area(), 0.5);
}

#[test]
fn polygon_centroid_of_unit_right_triangle() {
    let polygon = Polygon::new(vec![0.0f64, 0.0, 1.0, 0.0, 1.0, 1.0]).unwrap();
    let (x, y) = polygon.centroid(None).unwrap();
    assert!((x - 2.0 / 3.0).abs() < 1e-12);
    assert!((y - 1.0 / 3.0).abs() < 1e-12);
    assert_eq!(polygon.centroid(Some(polygon.area())), polygon.centroid(None));
}

#[test]
fn polygon_with_negative_vertex() {
    let polygon = Polygon::new(vec![0.0f64, 0.0, 1.0, 0.0, 1.0, -1.0]).unwrap();
    assert_eq!(polygon.area(), 0.5);
    let (x, y) = polygon.centroid(None).unwrap();
    assert!((x - 2.0 / 3.0).abs() < 1e-12);
    assert!((y + 1.0 / 3.0).abs() < 1e-12);
}

#[test]
fn degenerate_polygon_is_detected() {
    let polygon = Polygon::new(vec![0.0f64, 0.0, 1.0, 0.0, 2.0, 0.0]).unwrap();
    assert_eq!(polygon.area(), 0.0);
    let (x, y) = polygon.centroid(None).unwrap();
    assert!(!x.is_finite());
    assert!(!y.is_finite());
}

#[test]
fn messages_describe_the_errors() {
    assert_eq!(
        PolygonError::InvalidShape.message(),
        "Vertices should be provided as a flat array, e.g. [x1, y1, x2, y2, ...]"
    );
    assert_eq!(
        PolygonError::InsufficientVertices.message(),
        "A polygon should have at least 3 vertices."
    );
    assert_eq!(PolygonError::NegativeVertex.message(), "Polygon contains negative vertices.");
}
