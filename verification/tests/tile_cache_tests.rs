use qlog::map::TileId;
use qlog::tile_cache::{TileAnswer, TileManager, CACHE_LIFETIME, RETRY_TIME};

fn tile() -> TileId {
    TileId { x: 1, y: 2, zoom: 3 }
}

#[test]
fn unknown_tile_starts_loading_once() {
    let mut c: TileManager<u32> = TileManager::new();
    assert_eq!(c.get_tile(&tile(), 0), TileAnswer::StartLoading);
    assert_eq!(c.get_tile(&tile(), 10), TileAnswer::Loading);
    assert_eq!(c.texture(&tile()), None);
}

#[test]
fn loaded_tile_is_drawn() {
    let mut c: TileManager<u32> = TileManager::new();
    c.get_tile(&tile(), 0);
    c.tick(100, vec![(tile(), Some(7))]);
    assert_eq!(c.get_tile(&tile(), 200), TileAnswer::Ready);
    assert_eq!(c.texture(&tile()), Some(&7));
}

#[test]
fn drawn_tile_expires_after_cache_lifetime() {
    let mut c: TileManager<u32> = TileManager::new();
    c.get_tile(&tile(), 0);
    c.tick(0, vec![(tile(), Some(7))]);
    assert_eq!(c.get_tile(&tile(), 1_000), TileAnswer::Ready);
    // Last drawn at 1 s: kept while under CACHE_LIFETIME whole seconds.
    c.tick(1_000 + CACHE_LIFETIME * 1_000 - 1, vec![]);
    assert_eq!(c.texture(&tile()), Some(&7));
    c.tick(1_000 + CACHE_LIFETIME * 1_000, vec![]);
    assert_eq!(c.texture(&tile()), None);
    assert_eq!(c.get_tile(&tile(), 1_000 + CACHE_LIFETIME * 1_000), TileAnswer::StartLoading);
}

#[test]
fn drawing_a_tile_keeps_it_cached() {
    let mut c: TileManager<u32> = TileManager::new();
    c.get_tile(&tile(), 0);
    c.tick(0, vec![(tile(), Some(7))]);
    for now in [3_000u64, 6_000, 9_000, 12_000] {
        c.tick(now, vec![]);
        assert_eq!(c.get_tile(&tile(), now), TileAnswer::Ready);
    }
}

#[test]
fn failed_tile_waits_for_retry_time() {
    let mut c: TileManager<u32> = TileManager::new();
    assert_eq!(c.get_tile(&tile(), 0), TileAnswer::StartLoading);
    c.tick(500, vec![(tile(), None)]);
    assert_eq!(c.get_tile(&tile(), 600), TileAnswer::Loading);
    c.tick(500 + RETRY_TIME * 1_000 - 1, vec![]);
    assert_eq!(c.get_tile(&tile(), 500 + RETRY_TIME * 1_000 - 1), TileAnswer::Loading);
    c.tick(500 + RETRY_TIME * 1_000, vec![]);
    assert_eq!(c.get_tile(&tile(), 500 + RETRY_TIME * 1_000), TileAnswer::StartLoading);
}

#[test]
fn finished_fetch_replaces_failure() {
    let mut c: TileManager<&'static str> = TileManager::new();
    c.get_tile(&tile(), 0);
    c.tick(0, vec![(tile(), None)]);
    c.tick(1, vec![(tile(), Some("image"))]);
    assert_eq!(c.get_tile(&tile(), 2), TileAnswer::Ready);
    assert_eq!(c.texture(&tile()), Some(&"image"));
}

#[test]
fn later_result_for_same_tile_wins() {
    let mut c: TileManager<u32> = TileManager::new();
    c.get_tile(&tile(), 0);
    c.tick(0, vec![(tile(), Some(1)), (tile(), Some(2))]);
    assert_eq!(c.texture(&tile()), Some(&2));
}

#[test]
fn other_tiles_are_independent() {
    let mut c: TileManager<u32> = TileManager::new();
    let other = TileId { x: 0, y: 0, zoom: 3 };
    c.get_tile(&tile(), 0);
    c.get_tile(&other, 0);
    c.tick(0, vec![(other, Some(9))]);
    assert_eq!(c.get_tile(&tile(), 0), TileAnswer::Loading);
    assert_eq!(c.get_tile(&other, 0), TileAnswer::Ready);
    assert_eq!(c.texture(&other), Some(&9));
}

#[test]
fn clock_going_back_keeps_tiles() {
    let mut c: TileManager<u32> = TileManager::new();
    c.get_tile(&tile(), 0);
    c.tick(10_000, vec![(tile(), Some(7))]);
    c.tick(0, vec![]);
    assert_eq!(c.texture(&tile()), Some(&7));
}
