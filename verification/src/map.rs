//! Map tiles: tile identifiers, their neighbours, the tiles that cover the
//! visible part of the map, and the requests that fetch tile images.

use vstd::prelude::*;
use crate::text::{push_decimal, push_str, spec_decimal};

verus! {

/// The most tiles that are kept visible at once.
pub const MAX_TILES: usize = 128;

/// The number of tiles along either axis of the world map at `zoom`: 2^zoom.
pub open spec fn spec_max_tiles(zoom: nat) -> nat
    decreases zoom,
{
    if zoom == 0 {
        1
    } else {
        2 * spec_max_tiles((zoom - 1) as nat)
    }
}

/// `spec_max_tiles` grows with the zoom level.
proof fn lemma_max_tiles_monotone(a: nat, b: nat)
    requires
        a <= b,
    ensures
        1 <= spec_max_tiles(a) <= spec_max_tiles(b),
    decreases b,
{
    if b > a {
        lemma_max_tiles_monotone(a, (b - 1) as nat);
    } else {
        lemma_max_tiles_positive(a);
    }
}

proof fn lemma_max_tiles_positive(a: nat)
    ensures
        1 <= spec_max_tiles(a),
    decreases a,
{
    if a > 0 {
        lemma_max_tiles_positive((a - 1) as nat);
    }
}

/// At the zoom levels a `u32` can count, 2^zoom fits in 32 bits.
pub proof fn lemma_max_tiles_bound(zoom: nat)
    requires
        zoom <= 31,
    ensures
        1 <= spec_max_tiles(zoom) <= 0x8000_0000,
{
    lemma_max_tiles_monotone(zoom, 31);
    reveal_with_fuel(spec_max_tiles, 32);
}

/// Returns the number of tiles along either axis of the map at `zoom`.
///
/// The map is square, so the X and Y axes share this maximum.
pub fn max_tiles(zoom: u32) -> (n: u32)
    requires
        zoom < 32,
    ensures
        n == spec_max_tiles(zoom as nat),
{
    let mut n: u32 = 1;
    let mut i: u32 = 0;
    while i < zoom
        invariant
            i <= zoom < 32,
            n == spec_max_tiles(i as nat),
        decreases zoom - i,
    {
        proof {
            lemma_max_tiles_bound((i + 1) as nat);
        }
        n = n * 2;
        i = i + 1;
    }
    n
}

/// The identifier of a map tile: its column, row and zoom level.
#[derive(Debug, Default, PartialEq, Clone, Copy, Eq, Hash, Structural)]
pub struct TileId {
    pub x: u32,
    pub y: u32,
    pub zoom: u8,
}

/// Whether the tile lies on the world map at its zoom level.
pub open spec fn spec_in_range(t: TileId) -> bool {
    &&& t.x < spec_max_tiles(t.zoom as nat)
    &&& t.y < spec_max_tiles(t.zoom as nat)
}

/// The tile above `t`, if it lies on the map.
pub open spec fn spec_north(t: TileId) -> Option<TileId> {
    if t.y == 0 {
        None
    } else {
        let n = TileId { x: t.x, y: (t.y - 1) as u32, zoom: t.zoom };
        if spec_in_range(n) { Some(n) } else { None }
    }
}

/// The tile to the right of `t`, if it lies on the map.
pub open spec fn spec_east(t: TileId) -> Option<TileId> {
    let n = TileId { x: (t.x + 1) as u32, y: t.y, zoom: t.zoom };
    if spec_in_range(n) { Some(n) } else { None }
}

/// The tile below `t`, if it lies on the map.
pub open spec fn spec_south(t: TileId) -> Option<TileId> {
    let n = TileId { x: t.x, y: (t.y + 1) as u32, zoom: t.zoom };
    if spec_in_range(n) { Some(n) } else { None }
}

/// The tile to the left of `t`, if it lies on the map.
pub open spec fn spec_west(t: TileId) -> Option<TileId> {
    if t.x == 0 {
        None
    } else {
        let n = TileId { x: (t.x - 1) as u32, y: t.y, zoom: t.zoom };
        if spec_in_range(n) { Some(n) } else { None }
    }
}

impl TileId {
    /// Returns the coordinates of the top-left corner of the tile in pixels,
    /// for tiles `tile_size` pixels wide.
    pub fn pixels(&self, tile_size: u32) -> (r: (u32, u32))
        requires
            self.x * tile_size <= u32::MAX,
            self.y * tile_size <= u32::MAX,
        ensures
            r.0 == self.x * tile_size,
            r.1 == self.y * tile_size,
    {
        (self.x * tile_size, self.y * tile_size)
    }

    /// Does this tile correspond to an actual map tile, inside the world?
    pub fn is_in_range(&self) -> (r: bool)
        requires
            self.zoom < 32,
        ensures
            r == spec_in_range(*self),
    {
        let max_tiles = max_tiles(self.zoom as u32);
        !(self.x >= max_tiles || self.y >= max_tiles)
    }

    /// The tile above this one, if it is on the map.
    pub fn north(&self) -> (r: Option<TileId>)
        requires
            self.zoom < 32,
        ensures
            r == spec_north(*self),
    {
        if self.y == 0 {
            return None;
        }
        let s = TileId { x: self.x, y: self.y - 1, zoom: self.zoom };
        if s.is_in_range() { Some(s) } else { None }
    }

    /// The tile to the right of this one, if it is on the map.
    pub fn east(&self) -> (r: Option<TileId>)
        requires
            self.zoom < 32,
            self.x < u32::MAX,
        ensures
            r == spec_east(*self),
    {
        let s = TileId { x: self.x + 1, y: self.y, zoom: self.zoom };
        if s.is_in_range() { Some(s) } else { None }
    }

    /// The tile below this one, if it is on the map.
    pub fn south(&self) -> (r: Option<TileId>)
        requires
            self.zoom < 32,
            self.y < u32::MAX,
        ensures
            r == spec_south(*self),
    {
        let s = TileId { x: self.x, y: self.y + 1, zoom: self.zoom };
        if s.is_in_range() { Some(s) } else { None }
    }

    /// The tile to the left of this one, if it is on the map.
    pub fn west(&self) -> (r: Option<TileId>)
        requires
            self.zoom < 32,
        ensures
            r == spec_west(*self),
    {
        if self.x == 0 {
            return None;
        }
        let s = TileId { x: self.x - 1, y: self.y, zoom: self.zoom };
        if s.is_in_range() { Some(s) } else { None }
    }
}

/// Stepping to a neighbouring tile and back in the opposite direction
/// returns to the tile one started from: north and south undo each other,
/// and so do east and west.
pub proof fn law_neighbours_are_mutual(t: TileId)
    requires
        spec_in_range(t),
        t.zoom < 32,
    ensures
        spec_north(t) matches Some(n) ==> spec_south(n) == Some(t),
        spec_south(t) matches Some(n) ==> spec_north(n) == Some(t),
        spec_east(t) matches Some(n) ==> spec_west(n) == Some(t),
        spec_west(t) matches Some(n) ==> spec_east(n) == Some(t),
{
    lemma_max_tiles_bound(t.zoom as nat);
}

/// The columns and rows of tiles that intersect the visible part of the
/// map, both bounds included.
#[derive(Debug, Clone, Copy, PartialEq, Eq)]
pub struct TileWindow {
    pub x_min: i64,
    pub x_max: i64,
    pub y_min: i64,
    pub y_max: i64,
}

/// Whether the tile `t` intersects the visible part of the map.
pub open spec fn spec_visible(w: TileWindow, t: TileId) -> bool {
    &&& w.x_min <= t.x <= w.x_max
    &&& w.y_min <= t.y <= w.y_max
}

/// A tile that the visible map needs at zoom `zoom`: on the world map, at
/// that zoom, and visible.
pub open spec fn spec_coverable(w: TileWindow, zoom: u8, t: TileId) -> bool {
    &&& t.zoom == zoom
    &&& spec_in_range(t)
    &&& spec_visible(w, t)
}

/// Each visible neighbour of `c` occurs in `q`.
pub open spec fn spec_closed_at(q: Seq<TileId>, w: TileWindow, c: TileId) -> bool {
    &&& (spec_north(c) matches Some(n) ==> (spec_visible(w, n) ==> q.contains(n)))
    &&& (spec_east(c) matches Some(n) ==> (spec_visible(w, n) ==> q.contains(n)))
    &&& (spec_south(c) matches Some(n) ==> (spec_visible(w, n) ==> q.contains(n)))
    &&& (spec_west(c) matches Some(n) ==> (spec_visible(w, n) ==> q.contains(n)))
}

fn is_visible(w: &TileWindow, t: &TileId) -> (r: bool)
    ensures
        r == spec_visible(*w, *t),
{
    w.x_min <= t.x as i64 && t.x as i64 <= w.x_max && w.y_min <= t.y as i64 && t.y as i64 <= w.y_max
}

fn contains_tile(q: &Vec<TileId>, t: &TileId) -> (r: bool)
    ensures
        r == q@.contains(*t),
{
    let mut i: usize = 0;
    while i < q.len()
        invariant
            i <= q.len(),
            forall|j: int| 0 <= j < i ==> q@[j] != *t,
        decreases q.len() - i,
    {
        if q[i] == *t {
            assert(q@[i as int] == *t);
            return true;
        }
        i = i + 1;
    }
    false
}

/// Appends the neighbour `n` to the queue when it exists, is visible and is
/// not queued yet.
fn enqueue(queue: &mut Vec<TileId>, n: Option<TileId>, w: &TileWindow)
    ensures
        final(queue)@ == (match n {
            Some(t) => if spec_visible(*w, t) && !old(queue)@.contains(t) {
                old(queue)@.push(t)
            } else {
                old(queue)@
            },
            None => old(queue)@,
        }),
        final(queue)@.len() >= old(queue)@.len(),
        final(queue)@.subrange(0, old(queue)@.len() as int) =~= old(queue)@,
        n matches Some(t) ==> (spec_visible(*w, t) ==> final(queue)@.contains(t)),
{
    if let Some(t) = n {
        if is_visible(w, &t) && !contains_tile(queue, &t) {
            queue.push(t);
            assert(queue@[queue@.len() - 1] == t);
        }
    }
}

/// A sequence that extends `a` holds everything that `a` holds.
proof fn lemma_prefix_contains(a: Seq<TileId>, b: Seq<TileId>)
    requires
        a.len() <= b.len(),
        b.subrange(0, a.len() as int) =~= a,
    ensures
        forall|x: TileId| a.contains(x) ==> #[trigger] b.contains(x),
{
    assert forall|x: TileId| a.contains(x) implies #[trigger] b.contains(x) by {
        let k = choose|k: int| 0 <= k < a.len() && a[k] == x;
        assert(b[k] == b.subrange(0, a.len() as int)[k]);
    }
}

/// A set of tiles that holds `start` and every visible neighbour of each of
/// its tiles holds every tile that the visible map needs.
proof fn lemma_closed_covers(q: Seq<TileId>, w: TileWindow, start: TileId, t: TileId)
    requires
        start.zoom < 32,
        spec_coverable(w, start.zoom, start),
        q.contains(start),
        forall|i: int| 0 <= i < q.len() ==> spec_closed_at(q, w, #[trigger] q[i]),
        spec_coverable(w, start.zoom, t),
    ensures
        q.contains(t),
    decreases
        (if t.x >= start.x { t.x - start.x } else { start.x - t.x }) + (if t.y >= start.y { t.y
            - start.y } else { start.y - t.y }),
{
    lemma_max_tiles_bound(start.zoom as nat);
    if t == start {
    } else if t.x > start.x {
        let p = TileId { x: (t.x - 1) as u32, y: t.y, zoom: t.zoom };
        lemma_closed_covers(q, w, start, p);
        let i = choose|i: int| 0 <= i < q.len() && q[i] == p;
        assert(spec_closed_at(q, w, q[i]));
        assert(spec_east(p) == Some(t));
    } else if t.x < start.x {
        let p = TileId { x: (t.x + 1) as u32, y: t.y, zoom: t.zoom };
        lemma_closed_covers(q, w, start, p);
        let i = choose|i: int| 0 <= i < q.len() && q[i] == p;
        assert(spec_closed_at(q, w, q[i]));
        assert(spec_west(p) == Some(t));
    } else if t.y > start.y {
        let p = TileId { x: t.x, y: (t.y - 1) as u32, zoom: t.zoom };
        lemma_closed_covers(q, w, start, p);
        let i = choose|i: int| 0 <= i < q.len() && q[i] == p;
        assert(spec_closed_at(q, w, q[i]));
        assert(spec_south(p) == Some(t));
    } else {
        let p = TileId { x: t.x, y: (t.y + 1) as u32, zoom: t.zoom };
        lemma_closed_covers(q, w, start, p);
        let i = choose|i: int| 0 <= i < q.len() && q[i] == p;
        assert(spec_closed_at(q, w, q[i]));
        assert(spec_north(p) == Some(t));
    }
}

/// Breadth-first flood fill of the tiles that cover the visible map.
///
/// Starting from `start`, spreads out north, east, south and west through
/// the tiles that are on the world map and visible in `window`, and stops
/// once `MAX_TILES` tiles are collected. The result holds each tile once;
/// it is empty when `start` itself is not needed, begins with `start`
/// otherwise, and when it stops below the limit it holds every tile that
/// the visible map needs.
pub fn fill_tiles_breadth(window: &TileWindow, start: TileId) -> (tiles: Vec<TileId>)
    requires
        start.zoom < 32,
    ensures
        tiles@.no_duplicates(),
        tiles.len() <= MAX_TILES,
        forall|i: int| 0 <= i < tiles.len() ==> spec_coverable(*window, start.zoom, #[trigger] tiles@[i]),
        tiles.len() > 0 <==> spec_coverable(*window, start.zoom, start),
        tiles.len() > 0 ==> tiles@[0] == start,
        0 < tiles.len() < MAX_TILES ==> forall|t: TileId|
            spec_coverable(*window, start.zoom, t) ==> #[trigger] tiles@.contains(t),
{
    let mut queue: Vec<TileId> = Vec::new();
    if !(is_visible(window, &start) && start.is_in_range()) {
        return queue;
    }
    queue.push(start);
    proof {
        lemma_max_tiles_bound(start.zoom as nat);
    }
    let mut head: usize = 0;
    while head < queue.len() && head < MAX_TILES
        invariant
            start.zoom < 32,
            spec_max_tiles(start.zoom as nat) <= 0x8000_0000,
            spec_coverable(*window, start.zoom, start),
            queue.len() >= 1,
            queue@[0] == start,
            head <= queue.len(),
            head <= MAX_TILES,
            queue@.no_duplicates(),
            forall|i: int| 0 <= i < queue.len() ==> spec_coverable(*window, start.zoom, #[trigger] queue@[i]),
            forall|j: int| 0 <= j < head ==> spec_closed_at(queue@, *window, #[trigger] queue@[j]),
        decreases MAX_TILES - head,
    {
        let cur = queue[head];
        assert(spec_coverable(*window, start.zoom, queue@[head as int]));
        let ghost q0 = queue@;
        let nn = cur.north();
        enqueue(&mut queue, nn, window);
        let ghost q1 = queue@;
        let ne = cur.east();
        enqueue(&mut queue, ne, window);
        let ghost q2 = queue@;
        let ns = cur.south();
        enqueue(&mut queue, ns, window);
        let ghost q3 = queue@;
        let nw = cur.west();
        enqueue(&mut queue, nw, window);
        proof {
            lemma_prefix_contains(q0, q1);
            lemma_prefix_contains(q1, q2);
            lemma_prefix_contains(q2, q3);
            lemma_prefix_contains(q3, queue@);
            lemma_prefix_contains(q0, queue@);
            if let Some(t) = nn {
                if spec_visible(*window, t) {
                    assert(q1.contains(t));
                    assert(queue@.contains(t));
                }
            }
            if let Some(t) = ne {
                if spec_visible(*window, t) {
                    assert(q2.contains(t));
                    assert(queue@.contains(t));
                }
            }
            if let Some(t) = ns {
                if spec_visible(*window, t) {
                    assert(q3.contains(t));
                    assert(queue@.contains(t));
                }
            }
            if let Some(t) = nw {
                if spec_visible(*window, t) {
                    assert(queue@.contains(t));
                }
            }
            assert(spec_closed_at(queue@, *window, cur));
            assert forall|j: int| 0 <= j <= head implies spec_closed_at(queue@, *window, #[trigger] queue@[j]) by {
                assert(queue@[j] == q0[j]);
                if j < head {
                    assert(spec_closed_at(q0, *window, q0[j]));
                }
            }
        }
        head = head + 1;
    }
    proof {
        if head < MAX_TILES {
            assert(head == queue.len());
            assert(queue@.contains(start)) by {
                assert(queue@[0] == start);
            }
            assert forall|t: TileId| spec_coverable(*window, start.zoom, t) implies queue@.contains(t) by {
                lemma_closed_covers(queue@, *window, start, t);
            }
        }
    }
    let ghost full = queue@;
    queue.truncate(head);
    assert(queue@ =~= full.subrange(0, head as int));
    proof {
        if head == full.len() {
            assert(queue@ =~= full);
        }
    }
    queue
}

/// The supported tile providers: the APIs that tile images come from.
#[derive(Debug, Clone)]
pub enum TileProvider {
    /// The OpenStreetMap API.
    OpenStreetMap,
    /// The MapBox API. It needs an access token, and a style owner and
    /// style name that select the look of the tiles (e.g. `mapbox/dark-v11`).
    MapBox { access_token: String, style_owner: String, style: String },
    /// The CartoCDN API, with a basemap style name (e.g. `dark_all`).
    CartoCDN { access_token: String, style: String },
}

/// How a tile request carries the provider's access token.
#[derive(Debug, Clone)]
pub enum TileAuth {
    /// No token.
    NoToken,
    /// As the query parameter `access_token`.
    QueryAccessToken(String),
    /// As a bearer token in the `Authorization` header.
    Bearer(String),
}

/// A request for one tile image.
#[derive(Debug, Clone)]
pub struct TileRequest {
    pub url: String,
    pub auth: TileAuth,
}

/// `zoom/x/y` of a tile, as the providers spell it in their paths.
pub open spec fn spec_tile_path(t: TileId) -> Seq<char> {
    spec_decimal(t.zoom as nat) + seq!['/'] + spec_decimal(t.x as nat) + seq!['/'] + spec_decimal(t.y as nat)
}

/// The URL that fetches tile `t` from `p`.
pub open spec fn spec_tile_url(p: TileProvider, t: TileId) -> Seq<char> {
    match p {
        TileProvider::OpenStreetMap => "https://tile.openstreetmap.org/"@ + spec_tile_path(t) + ".png"@,
        TileProvider::MapBox { access_token, style_owner, style } => "https://api.mapbox.com/styles/v1/"@
            + style_owner@ + seq!['/'] + style@ + "/tiles/256/"@ + spec_tile_path(t),
        TileProvider::CartoCDN { access_token, style } => "https://basemaps.cartocdn.com/"@ + style@
            + seq!['/'] + spec_tile_path(t) + ".png"@,
    }
}

fn push_tile_path(s: &mut String, t: &TileId)
    ensures
        final(s)@ == old(s)@ + spec_tile_path(*t),
{
    push_decimal(s, t.zoom as u64);
    push_str(s, "/");
    push_decimal(s, t.x as u64);
    push_str(s, "/");
    push_decimal(s, t.y as u64);
    proof {
        reveal_strlit("/");
    }
    assert(final(s)@ =~= old(s)@ + spec_tile_path(*t));
}

impl TileProvider {
    /// The request that fetches the image of `tile_id` from this provider:
    /// its URL, and how the access token goes with it.
    pub fn get_tile_request(&self, tile_id: &TileId) -> (r: TileRequest)
        ensures
            r.url@ == spec_tile_url(*self, *tile_id),
            match *self {
                TileProvider::OpenStreetMap => r.auth is NoToken,
                TileProvider::MapBox { access_token, .. } => r.auth matches TileAuth::QueryAccessToken(
                    a,
                ) && a@ == access_token@,
                TileProvider::CartoCDN { access_token, .. } => r.auth matches TileAuth::Bearer(a) && a@
                    == access_token@,
            },
    {
        let mut url = String::new();
        match self {
            TileProvider::OpenStreetMap => {
                push_str(&mut url, "https://tile.openstreetmap.org/");
                push_tile_path(&mut url, tile_id);
                push_str(&mut url, ".png");
                assert(url@ =~= spec_tile_url(*self, *tile_id));
                TileRequest { url, auth: TileAuth::NoToken }
            },
            TileProvider::MapBox { access_token, style_owner, style } => {
                push_str(&mut url, "https://api.mapbox.com/styles/v1/");
                push_str(&mut url, style_owner.as_str());
                push_str(&mut url, "/");
                push_str(&mut url, style.as_str());
                push_str(&mut url, "/tiles/256/");
                push_tile_path(&mut url, tile_id);
                proof {
                    reveal_strlit("/");
                }
                assert(url@ =~= spec_tile_url(*self, *tile_id));
                TileRequest { url, auth: TileAuth::QueryAccessToken(access_token.clone()) }
            },
            TileProvider::CartoCDN { access_token, style } => {
                push_str(&mut url, "https://basemaps.cartocdn.com/");
                push_str(&mut url, style.as_str());
                push_str(&mut url, "/");
                push_tile_path(&mut url, tile_id);
                push_str(&mut url, ".png");
                proof {
                    reveal_strlit("/");
                }
                assert(url@ =~= spec_tile_url(*self, *tile_id));
                TileRequest { url, auth: TileAuth::Bearer(access_token.clone()) }
            },
        }
    }
}

} // verus!



