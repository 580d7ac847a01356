use qlog::map::{fill_tiles_breadth, max_tiles, TileAuth, TileId, TileProvider, TileWindow, MAX_TILES};

#[test]
fn max_tiles_doubles_with_zoom() {
    assert_eq!(max_tiles(0), 1);
    assert_eq!(max_tiles(1), 2);
    assert_eq!(max_tiles(3), 8);
    assert_eq!(max_tiles(31), 1 << 31);
}

#[test]
fn tile_pixels_are_scaled_coordinates() {
    let t = TileId { x: 3, y: 5, zoom: 4 };
    assert_eq!(t.pixels(256), (768, 1280));
}

#[test]
fn tiles_in_range_depend_on_zoom() {
    assert!(TileId { x: 1, y: 1, zoom: 1 }.is_in_range());
    assert!(!TileId { x: 2, y: 0, zoom: 1 }.is_in_range());
    assert!(!TileId { x: 0, y: 1, zoom: 0 }.is_in_range());
}

#[test]
fn neighbours_stop_at_the_map_edge() {
    let t = TileId { x: 0, y: 0, zoom: 1 };
    assert_eq!(t.north(), None);
    assert_eq!(t.west(), None);
    assert_eq!(t.east(), Some(TileId { x: 1, y: 0, zoom: 1 }));
    assert_eq!(t.south(), Some(TileId { x: 0, y: 1, zoom: 1 }));
    let c = TileId { x: 1, y: 1, zoom: 1 };
    assert_eq!(c.east(), None);
    assert_eq!(c.south(), None);
    assert_eq!(c.north(), Some(TileId { x: 1, y: 0, zoom: 1 }));
    assert_eq!(c.west(), Some(TileId { x: 0, y: 1, zoom: 1 }));
}

#[test]
fn neighbours_are_mutual_on_concrete_tile() {
    let t = TileId { x: 5, y: 6, zoom: 4 };
    assert_eq!(t.east().unwrap().west(), Some(t));
    assert_eq!(t.south().unwrap().north(), Some(t));
    assert_eq!(t.west().unwrap().east(), Some(t));
    assert_eq!(t.north().unwrap().south(), Some(t));
}

#[test]
fn fill_covers_the_whole_world_at_zoom_one() {
    let w = TileWindow { x_min: 0, x_max: 1, y_min: 0, y_max: 1 };
    let start = TileId { x: 0, y: 0, zoom: 1 };
    let tiles = fill_tiles_breadth(&w, start);
    assert_eq!(tiles.len(), 4);
    assert_eq!(tiles[0], start);
    for x in 0..2 {
        for y in 0..2 {
            assert!(tiles.contains(&TileId { x, y, zoom: 1 }));
        }
    }
}

#[test]
fn fill_keeps_to_the_visible_window() {
    let w = TileWindow { x_min: 2, x_max: 3, y_min: 4, y_max: 4 };
    let start = TileId { x: 2, y: 4, zoom: 4 };
    let tiles = fill_tiles_breadth(&w, start);
    assert_eq!(tiles, vec![start, TileId { x: 3, y: 4, zoom: 4 }]);
}

#[test]
fn fill_is_empty_when_start_is_not_visible() {
    let w = TileWindow { x_min: 2, x_max: 3, y_min: 4, y_max: 4 };
    let tiles = fill_tiles_breadth(&w, TileId { x: 0, y: 0, zoom: 4 });
    assert!(tiles.is_empty());
}

#[test]
fn fill_stops_at_the_tile_limit() {
    let w = TileWindow { x_min: 0, x_max: 255, y_min: 0, y_max: 255 };
    let start = TileId { x: 100, y: 100, zoom: 8 };
    let tiles = fill_tiles_breadth(&w, start);
    assert_eq!(tiles.len(), MAX_TILES);
    assert_eq!(tiles[0], start);
    let mut sorted = tiles.clone();
    sorted.sort_by_key(|t| (t.x, t.y));
    sorted.dedup();
    assert_eq!(sorted.len(), MAX_TILES);
}

#[test]
fn openstreetmap_tile_request() {
    let r = TileProvider::OpenStreetMap.get_tile_request(&TileId { x: 3, y: 5, zoom: 4 });
    assert_eq!(r.url, "https://tile.openstreetmap.org/4/3/5.png");
    assert!(matches!(r.auth, TileAuth::NoToken));
}

#[test]
fn mapbox_tile_request_carries_token_as_query() {
    let p = TileProvider::MapBox {
        access_token: "tok".to_string(),
        style_owner: "mapbox".to_string(),
        style: "dark-v11".to_string(),
    };
    let r = p.get_tile_request(&TileId { x: 1, y: 2, zoom: 3 });
    assert_eq!(r.url, "https://api.mapbox.com/styles/v1/mapbox/dark-v11/tiles/256/3/1/2");
    match r.auth {
        TileAuth::QueryAccessToken(t) => assert_eq!(t, "tok"),
        other => panic!("unexpected auth {:?}", other),
    }
}

#[test]
fn cartocdn_tile_request_carries_bearer_token() {
    let p = TileProvider::CartoCDN { access_token: "abc".to_string(), style: "dark_all".to_string() };
    let r = p.get_tile_request(&TileId { x: 10, y: 20, zoom: 6 });
    assert_eq!(r.url, "https://basemaps.cartocdn.com/dark_all/6/10/20.png");
    match r.auth {
        TileAuth::Bearer(t) => assert_eq!(t, "abc"),
        other => panic!("unexpected auth {:?}", other),
    }
}
