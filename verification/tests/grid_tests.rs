use qlog::maidenhead::{grid_to_lat_lon, lat_lon_to_grid, GridPoint, Position};

fn position_of(g: GridPoint) -> Position {
    Position { lat: g.lat * 75_000, lon: g.lon * 75_000 }
}

#[test]
fn six_character_locator_decodes_to_square_centre() {
    // DM79mr: 104.958333 W, 39.729167 N, in 1/48 of a degree.
    let p = grid_to_lat_lon("DM79mr");
    assert_eq!(p, GridPoint { lat: 1907, lon: -5038 });
}

#[test]
fn four_character_locator_decodes_to_square_centre() {
    // DM79: centre at 105 W, 39.5 N.
    assert_eq!(grid_to_lat_lon("DM79"), GridPoint { lat: 39 * 48 + 24, lon: -105 * 48 });
}

#[test]
fn two_character_locator_decodes_to_field_centre() {
    // DM: centre at 110 W, 35 N.
    assert_eq!(grid_to_lat_lon("DM"), GridPoint { lat: 35 * 48, lon: -110 * 48 });
}

#[test]
fn decoding_ignores_letter_case() {
    assert_eq!(grid_to_lat_lon("dm79MR"), grid_to_lat_lon("DM79mr"));
}

#[test]
fn empty_locator_decodes_to_south_west_corner() {
    assert_eq!(grid_to_lat_lon(""), GridPoint { lat: -90 * 48, lon: -180 * 48 });
}

#[test]
fn position_encodes_to_six_characters() {
    // 105 W, 39.5 N.
    let p = Position { lat: 142_200_000, lon: -378_000_000 };
    assert_eq!(lat_lon_to_grid(&p), "DM79mm");
}

#[test]
fn position_in_second_degree_of_square_encodes_documented_example() {
    // 104.96 W, 39.73 N.
    let p = Position { lat: 143_028_000, lon: -377_856_000 };
    assert_eq!(lat_lon_to_grid(&p), "DM79mr");
}

#[test]
fn south_west_corner_encodes_to_aa00aa() {
    let p = Position { lat: -90 * 3_600_000, lon: -180 * 3_600_000 };
    assert_eq!(lat_lon_to_grid(&p), "AA00aa");
}

#[test]
fn round_trip_gives_the_locator_back() {
    for grid in ["FN31hj", "DM79lr", "DM79mr", "AA00aa", "RR99xx", "JO65ab", "AA00ma"] {
        let back = lat_lon_to_grid(&position_of(grid_to_lat_lon(grid)));
        assert_eq!(back, grid);
    }
}

#[test]
fn round_trip_canonicalises_letter_case() {
    let back = lat_lon_to_grid(&position_of(grid_to_lat_lon("fn31HJ")));
    assert_eq!(back, "FN31hj");
}

#[test]
fn round_trip_keeps_longitude_subsquares_past_l() {
    let back = lat_lon_to_grid(&position_of(grid_to_lat_lon("AA00ma")));
    assert_eq!(back, "AA00ma");
}

#[test]
fn encoded_square_contains_the_position() {
    let positions = [
        Position { lat: 143_028_000, lon: -377_856_000 },
        Position { lat: -90 * 3_600_000, lon: -180 * 3_600_000 },
        Position { lat: 90 * 3_600_000 - 1, lon: 180 * 3_600_000 - 1 },
        Position { lat: -123_456_789, lon: 456_789_012 },
        Position { lat: 0, lon: 0 },
    ];
    for p in positions {
        let c = position_of(grid_to_lat_lon(&lat_lon_to_grid(&p)));
        assert!(c.lon - 150_000 <= p.lon && p.lon < c.lon + 150_000, "{p:?} {c:?}");
        assert!(c.lat - 75_000 <= p.lat && p.lat < c.lat + 75_000, "{p:?} {c:?}");
    }
}
