use placer::errors::{OutOfBoundsError, PlacementError};
use placer::palette::Color;
use placer::pixel::{classify_status, coordinates_to_canvas, Coordinates, PixelQuery};

#[test]
fn origin_of_the_tiled_space_is_tile_zero_local_origin() {
    let c = Coordinates::new(-1500, -1000).unwrap();
    assert_eq!((c.x, c.y), (0, 0));
    assert_eq!(coordinates_to_canvas(-1500, -1000).unwrap(), 0);
}

#[test]
fn last_column_of_the_first_tile() {
    // Shifted x = 999: still inside the first band, at its last local column.
    let c = Coordinates::new(-501, -1000).unwrap();
    assert_eq!((c.x, c.y), (999, 0));
    assert_eq!(coordinates_to_canvas(-501, -1000).unwrap(), 0);
}

#[test]
fn band_edges_are_inclusive() {
    // Shifted x = 1000 is still tile 0 (the test is <=, not <)...
    assert_eq!(coordinates_to_canvas(-500, -1000).unwrap(), 0);
    assert_eq!(Coordinates::new(-500, -1000).unwrap().x, 0);
    // ...and shifted x = 1001 is the first column past it, on tile 1.
    assert_eq!(coordinates_to_canvas(-499, -1000).unwrap(), 1);
    assert_eq!(Coordinates::new(-499, -1000).unwrap().x, 1);
}

#[test]
fn every_tile_is_reachable() {
    // One interior point per band, scanning the 3x2 layout row-major.
    assert_eq!(coordinates_to_canvas(-1000, -500).unwrap(), 0);
    assert_eq!(coordinates_to_canvas(0, -500).unwrap(), 1);
    assert_eq!(coordinates_to_canvas(1000, -500).unwrap(), 2);
    assert_eq!(coordinates_to_canvas(-1000, 500).unwrap(), 3);
    assert_eq!(coordinates_to_canvas(0, 500).unwrap(), 4);
    assert_eq!(coordinates_to_canvas(1000, 500).unwrap(), 5);
}

#[test]
fn mapping_is_deterministic() {
    for &(x, y) in &[(-1500, -1000), (-501, -1000), (0, 0), (1499, 999)] {
        assert_eq!(Coordinates::new(x, y), Coordinates::new(x, y));
        assert_eq!(coordinates_to_canvas(x, y), coordinates_to_canvas(x, y));
        let c = Coordinates::new(x, y).unwrap();
        assert!((0..1000).contains(&c.x));
        assert!((0..1000).contains(&c.y));
    }
}

#[test]
fn out_of_bounds_coordinates_are_rejected() {
    // Shifted x = 3001: past the last band.
    assert_eq!(
        coordinates_to_canvas(1501, 0),
        Err(OutOfBoundsError { x: 3001, y: 1000 })
    );
    // Shifted y = 2001: below the last row of tiles.
    assert_eq!(
        coordinates_to_canvas(0, 1001),
        Err(OutOfBoundsError { x: 1500, y: 2001 })
    );
    // The payload builder refuses the same coordinates, so no placement
    // request can be built for them.
    assert!(PixelQuery::new(1501, 0, Color::Red).is_err());
    assert!(PixelQuery::new(0, 1001, Color::Red).is_err());
}

#[test]
fn payload_carries_the_fixed_shape() {
    let q = PixelQuery::new(-499, -1000, Color::Blue).unwrap();
    assert_eq!(q.operation_name, "setPixel");
    assert_eq!(q.variables.input.action_name, "r/replace:set_pixel");
    assert!(q.query.starts_with("mutation setPixel"));
    let data = q.variables.input.pixel_message_data;
    assert_eq!((data.coordinate.x, data.coordinate.y), (1, 0));
    assert_eq!(data.color_index, 13);
    assert_eq!(data.canvas_index, 1);
}

#[test]
fn only_2xx_statuses_are_success() {
    assert_eq!(classify_status(200), Ok(()));
    assert_eq!(classify_status(204), Ok(()));
    assert_eq!(classify_status(299), Ok(()));
    assert_eq!(classify_status(199), Err(PlacementError::Status(199)));
    assert_eq!(classify_status(301), Err(PlacementError::Status(301)));
    assert_eq!(classify_status(404), Err(PlacementError::Status(404)));
    assert_eq!(classify_status(500), Err(PlacementError::Status(500)));
}
