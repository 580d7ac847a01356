//! The cache of map tile images: the tiles that loaded and when they were
//! last drawn, the tiles that failed and when, and the tiles being fetched.
//! Times are milliseconds on a monotonic clock.

use vstd::prelude::*;
use vstd::arithmetic::div_mod::{lemma_fundamental_div_mod_converse_div, lemma_fundamental_div_mod_converse_mod};
use std::collections::{HashMap, HashSet};
use crate::map::TileId;

verus! {

broadcast use vstd::std_specs::hash::group_hash_axioms;

/// Seconds a loaded tile stays cached after it was last drawn.
pub const CACHE_LIFETIME: u64 = 5;

/// Seconds before a tile that failed to load may be fetched again.
pub const RETRY_TIME: u64 = 3;

/// A tile in the cache.
pub enum CachedTile<H> {
    /// The tile loaded into `handle`, and was last drawn at `last_used`.
    Cached { handle: H, last_used: u64 },
    /// Fetching the tile failed at `failed_at`.
    Failed { failed_at: u64 },
}

/// What to draw for a tile.
#[derive(Debug, Clone, Copy, PartialEq, Eq, Structural)]
pub enum TileAnswer {
    /// The tile's own image, which `TileManager::texture` gives.
    Ready,
    /// The loading image.
    Loading,
    /// The loading image; the tile must now be fetched.
    StartLoading,
}

/// Whole seconds from `then` to `now`, zero when `now` is not later.
pub open spec fn spec_whole_seconds(now: u64, then: u64) -> int {
    if now >= then {
        (now - then) / 1000
    } else {
        0
    }
}

/// Whether a cached tile is kept at `now`: a loaded tile until it has not
/// been drawn for `CACHE_LIFETIME` seconds, a failure for `RETRY_TIME`.
pub open spec fn spec_keeps<H>(c: CachedTile<H>, now: u64) -> bool {
    match c {
        CachedTile::Cached { last_used, .. } => spec_whole_seconds(now, last_used) < CACHE_LIFETIME,
        CachedTile::Failed { failed_at } => spec_whole_seconds(now, failed_at) < RETRY_TIME,
    }
}

/// The part of a cache that is kept at `now`.
pub open spec fn spec_fresh_part<H>(m: Map<TileId, CachedTile<H>>, now: u64) -> Map<TileId, CachedTile<H>> {
    Map::new(|k: TileId| m.dom().contains(k) && spec_keeps(m[k], now), |k: TileId| m[k])
}

/// The cache entry that a finished fetch leaves at `now`.
pub open spec fn spec_outcome<H>(result: Option<H>, now: u64) -> CachedTile<H> {
    match result {
        Some(handle) => CachedTile::Cached { handle, last_used: now },
        None => CachedTile::Failed { failed_at: now },
    }
}

/// A cache after the finished fetches `fin` were entered in order at `now`.
pub open spec fn spec_with_finished<H>(
    m: Map<TileId, CachedTile<H>>,
    fin: Seq<(TileId, Option<H>)>,
    now: u64,
) -> Map<TileId, CachedTile<H>>
    decreases fin.len(),
{
    if fin.len() == 0 {
        m
    } else {
        spec_with_finished(m, fin.drop_last(), now).insert(fin.last().0, spec_outcome(fin.last().1, now))
    }
}

/// The tiles whose fetches are in `fin`.
pub open spec fn spec_finished_ids<H>(fin: Seq<(TileId, Option<H>)>) -> Set<TileId>
    decreases fin.len(),
{
    if fin.len() == 0 {
        Set::empty()
    } else {
        spec_finished_ids(fin.drop_last()).insert(fin.last().0)
    }
}

/// What drawing tile `id` at `now` answers, and the cache and the set of
/// tiles being fetched after it: a loaded tile is drawn and its last use
/// moved to `now`; a failed tile and a tile being fetched draw the loading
/// image; any other tile draws it too, and is now being fetched.
pub open spec fn spec_get_tile<H>(m: Map<TileId, CachedTile<H>>, p: Set<TileId>, id: TileId, now: u64) -> (
    TileAnswer,
    Map<TileId, CachedTile<H>>,
    Set<TileId>,
) {
    if m.dom().contains(id) {
        match m[id] {
            CachedTile::Cached { handle, .. } => (
                TileAnswer::Ready,
                m.insert(id, CachedTile::Cached { handle, last_used: now }),
                p,
            ),
            CachedTile::Failed { .. } => (TileAnswer::Loading, m, p),
        }
    } else if p.contains(id) {
        (TileAnswer::Loading, m, p)
    } else {
        (TileAnswer::StartLoading, m, p.insert(id))
    }
}

/// A tile is fetched at most once at a time: right after a fetch of it
/// starts, drawing it again answers with the loading image, whenever that
/// happens, until the fetch is entered by `tick`.
pub proof fn law_tile_fetched_once<H>(m: Map<TileId, CachedTile<H>>, p: Set<TileId>, id: TileId, t1: u64, t2: u64)
    requires
        spec_get_tile(m, p, id, t1).0 == TileAnswer::StartLoading,
    ensures
        ({
            let after = spec_get_tile(m, p, id, t1);
            spec_get_tile(after.1, after.2, id, t2).0 == TileAnswer::Loading
        }),
{
}

/// A tile whose fetch failed is not fetched again while it is cached as
/// failed: drawing it answers with the loading image and changes nothing.
pub proof fn law_failed_tile_not_refetched<H>(m: Map<TileId, CachedTile<H>>, p: Set<TileId>, id: TileId, failed_at: u64, now: u64)
    requires
        m.dom().contains(id),
        m[id] == (CachedTile::<H>::Failed { failed_at }),
    ensures
        spec_get_tile(m, p, id, now) == (TileAnswer::Loading, m, p),
{
}

/// A tile whose fetch has just been entered is drawn from its image: when
/// the last finished fetch entered for `id` loaded `handle`, drawing `id`
/// answers `Ready`, and `texture` then gives `handle`.
pub proof fn law_loaded_tile_drawn<H>(
    m: Map<TileId, CachedTile<H>>,
    p: Set<TileId>,
    fin: Seq<(TileId, Option<H>)>,
    id: TileId,
    handle: H,
    now: u64,
    t: u64,
)
    requires
        fin.len() > 0,
        fin.last() == (id, Some(handle)),
    ensures
        ({
            let c = spec_with_finished(spec_fresh_part(m, now), fin, now);
            &&& c.dom().contains(id)
            &&& c[id] == (CachedTile::Cached { handle, last_used: now })
            &&& spec_get_tile(c, p, id, t).0 == TileAnswer::Ready
        }),
{
}

proof fn lemma_with_finished_other<H>(m: Map<TileId, CachedTile<H>>, fin: Seq<(TileId, Option<H>)>, now: u64, id: TileId)
    requires
        !spec_finished_ids(fin).contains(id),
    ensures
        spec_with_finished(m, fin, now).dom().contains(id) == m.dom().contains(id),
        spec_with_finished(m, fin, now)[id] == m[id],
    decreases fin.len(),
{
    if fin.len() > 0 {
        lemma_with_finished_other(m, fin.drop_last(), now, id);
    }
}

/// A tile whose fetch failed at `failed_at` stays in the cache as failed,
/// so that it is not fetched again, exactly while fewer than `RETRY_TIME`
/// whole seconds have passed, unless a fetch of it finishes meanwhile.
pub proof fn law_failed_tile_waits<H>(
    m: Map<TileId, CachedTile<H>>,
    fin: Seq<(TileId, Option<H>)>,
    id: TileId,
    failed_at: u64,
    now: u64,
)
    requires
        m.dom().contains(id),
        m[id] == (CachedTile::<H>::Failed { failed_at }),
        !spec_finished_ids(fin).contains(id),
    ensures
        spec_with_finished(spec_fresh_part(m, now), fin, now).dom().contains(id) <==> spec_whole_seconds(
            now,
            failed_at,
        ) < RETRY_TIME,
        spec_whole_seconds(now, failed_at) < RETRY_TIME ==> spec_with_finished(spec_fresh_part(m, now), fin, now)[id]
            == (CachedTile::<H>::Failed { failed_at }),
{
    lemma_with_finished_other(spec_fresh_part(m, now), fin, now, id);
}

/// A tile drawn at `last_used` stays cached exactly while fewer than
/// `CACHE_LIFETIME` whole seconds have passed, unless a fetch of it
/// finishes meanwhile.
pub proof fn law_drawn_tile_kept<H>(
    m: Map<TileId, CachedTile<H>>,
    fin: Seq<(TileId, Option<H>)>,
    id: TileId,
    handle: H,
    last_used: u64,
    now: u64,
)
    requires
        m.dom().contains(id),
        m[id] == (CachedTile::Cached { handle, last_used }),
        !spec_finished_ids(fin).contains(id),
    ensures
        spec_with_finished(spec_fresh_part(m, now), fin, now).dom().contains(id) <==> spec_whole_seconds(
            now,
            last_used,
        ) < CACHE_LIFETIME,
        spec_whole_seconds(now, last_used) < CACHE_LIFETIME ==> spec_with_finished(spec_fresh_part(m, now), fin, now)[id]
            == (CachedTile::Cached { handle, last_used }),
{
    lemma_with_finished_other(spec_fresh_part(m, now), fin, now, id);
}

/// The key under which the cache stores tile `t`: its column, row and zoom
/// level packed into one number.
pub open spec fn spec_tile_key(t: TileId) -> u128 {
    (t.x as int * 0x100_0000_0000 + t.y as int * 0x100 + t.zoom as int) as u128
}

proof fn lemma_tile_key_parts(t: TileId)
    ensures
        spec_tile_key(t) as int == t.x as int * 0x100_0000_0000 + t.y as int * 0x100 + t.zoom as int,
        spec_tile_key(t) as int / 0x100 == t.x as int * 0x1_0000_0000 + t.y as int,
        spec_tile_key(t) as int % 0x100 == t.zoom as int,
        (t.x as int * 0x1_0000_0000 + t.y as int) / 0x1_0000_0000 == t.x as int,
        (t.x as int * 0x1_0000_0000 + t.y as int) % 0x1_0000_0000 == t.y as int,
{
    let q = t.x as int * 0x1_0000_0000 + t.y as int;
    assert(t.x as int * 0x100_0000_0000 <= 0xFFFF_FFFF * 0x100_0000_0000) by (nonlinear_arith)
        requires t.x as int <= 0xFFFF_FFFF;
    assert(t.x as int * 0x100_0000_0000 + t.y as int * 0x100 + t.zoom as int == q * 0x100 + t.zoom as int) by (nonlinear_arith)
        requires q == t.x as int * 0x1_0000_0000 + t.y as int;
    lemma_fundamental_div_mod_converse_div(q * 0x100 + t.zoom as int, 0x100, q, t.zoom as int);
    lemma_fundamental_div_mod_converse_mod(q * 0x100 + t.zoom as int, 0x100, q, t.zoom as int);
    lemma_fundamental_div_mod_converse_div(q, 0x1_0000_0000, t.x as int, t.y as int);
    lemma_fundamental_div_mod_converse_mod(q, 0x1_0000_0000, t.x as int, t.y as int);
}

/// Different tiles have different keys.
proof fn lemma_tile_key_injective(a: TileId, b: TileId)
    ensures
        spec_tile_key(a) == spec_tile_key(b) <==> a == b,
{
    lemma_tile_key_parts(a);
    lemma_tile_key_parts(b);
}

fn tile_key(t: &TileId) -> (k: u128)
    ensures
        k == spec_tile_key(*t),
{
    proof {
        lemma_tile_key_parts(*t);
    }
    (t.x as u128) * 0x100_0000_0000 + (t.y as u128) * 0x100 + (t.zoom as u128)
}

fn whole_seconds(now: u64, then: u64) -> (r: u64)
    ensures
        r == spec_whole_seconds(now, then),
{
    if now >= then {
        (now - then) / 1000
    } else {
        0
    }
}

fn keeps<H>(c: &CachedTile<H>, now: u64) -> (r: bool)
    ensures
        r == spec_keeps(*c, now),
{
    match c {
        CachedTile::Cached { last_used, .. } => whole_seconds(now, *last_used) < CACHE_LIFETIME,
        CachedTile::Failed { failed_at } => whole_seconds(now, *failed_at) < RETRY_TIME,
    }
}

/// The cache of map tiles.
pub struct TileManager<H> {
    entries: HashMap<u128, CachedTile<H>>,
    loading: HashSet<u128>,
}

impl<H> TileManager<H> {
    /// The cached tiles.
    pub closed spec fn cached(&self) -> Map<TileId, CachedTile<H>> {
        Map::new(
            |t: TileId| self.entries@.contains_key(spec_tile_key(t)),
            |t: TileId| self.entries@[spec_tile_key(t)],
        )
    }

    /// The tiles being fetched.
    pub closed spec fn pending(&self) -> Set<TileId> {
        Set::new(|t: TileId| self.loading@.contains(spec_tile_key(t)))
    }

    /// The cache is well formed: no tile is both cached and being fetched.
    pub closed spec fn wf(&self) -> bool {
        forall|k: u128| #[trigger] self.entries@.contains_key(k) ==> !self.loading@.contains(k)
    }

    /// An empty cache.
    pub fn new() -> (c: Self)
        ensures
            c.wf(),
            c.cached() == Map::<TileId, CachedTile<H>>::empty(),
            c.pending() == Set::<TileId>::empty(),
    {
        let c = TileManager { entries: HashMap::new(), loading: HashSet::new() };
        assert(c.cached() =~= Map::<TileId, CachedTile<H>>::empty());
        assert(c.pending() =~= Set::<TileId>::empty());
        c
    }

    /// Answers what to draw for tile `id` at `now`. A loaded tile is drawn
    /// and its last use moved to `now`; a failed tile and a tile being
    /// fetched draw the loading image; any other tile draws it too, and is
    /// now being fetched.
    pub fn get_tile(&mut self, id: &TileId, now: u64) -> (r: TileAnswer)
        requires
            old(self).wf(),
        ensures
            final(self).wf(),
            (r, final(self).cached(), final(self).pending()) == spec_get_tile(
                old(self).cached(),
                old(self).pending(),
                *id,
                now,
            ),
    {
        let ghost m = self.entries@;
        let ghost m0 = self.cached();
        let ghost p0 = self.pending();
        let k = tile_key(id);
        assert(m0.dom().contains(*id) == m.contains_key(k));
        assert(p0.contains(*id) == self.loading@.contains(k));
        match self.entries.remove(&k) {
            Some(CachedTile::Cached { handle, last_used }) => {
                let ghost h = handle;
                assert(m[k] == CachedTile::Cached { handle: h, last_used });
                self.entries.insert(k, CachedTile::Cached { handle, last_used: now });
                proof {
                    assert(self.entries@ =~= m.insert(k, CachedTile::Cached { handle: h, last_used: now }));
                    assert forall|t: TileId| spec_tile_key(t) == k <==> t == *id by {
                        lemma_tile_key_injective(t, *id);
                    }
                    assert(self.cached() =~= m0.insert(*id, CachedTile::Cached { handle: h, last_used: now }));
                    assert(self.pending() =~= p0);
                }
                TileAnswer::Ready
            },
            Some(CachedTile::Failed { failed_at }) => {
                self.entries.insert(k, CachedTile::Failed { failed_at });
                assert(self.entries@ =~= m);
                assert(self.cached() =~= m0);
                TileAnswer::Loading
            },
            None => {
                if self.loading.contains(&k) {
                    TileAnswer::Loading
                } else {
                    let ghost l = self.loading@;
                    self.loading.insert(k);
                    proof {
                        assert forall|t: TileId| spec_tile_key(t) == k <==> t == *id by {
                            lemma_tile_key_injective(t, *id);
                        }
                        assert(self.pending() =~= p0.insert(*id));
                        assert(self.cached() =~= m0);
                    }
                    TileAnswer::StartLoading
                }
            },
        }
    }

    /// The image of tile `id`, when it is cached as loaded.
    pub fn texture(&self, id: &TileId) -> (r: Option<&H>)
        requires
            self.wf(),
        ensures
            r is Some <==> (self.cached().dom().contains(*id) && self.cached()[*id] is Cached),
            r is Some ==> *r->0 == self.cached()[*id]->handle,
    {
        let k = tile_key(id);
        assert(self.cached().dom().contains(*id) == self.entries@.contains_key(k));
        match self.entries.get(&k) {
            Some(CachedTile::Cached { handle, .. }) => Some(handle),
            _ => None,
        }
    }

    fn unmark(&mut self, id: &TileId)
        requires
            old(self).wf(),
        ensures
            final(self).wf(),
            final(self).cached() == old(self).cached(),
            final(self).pending() == old(self).pending().remove(*id),
            !final(self).loading@.contains(spec_tile_key(*id)),
            final(self).entries@ == old(self).entries@,
    {
        let ghost p0 = self.pending();
        let k = tile_key(id);
        self.loading.remove(&k);
        proof {
            assert forall|t: TileId| spec_tile_key(t) == k <==> t == *id by {
                lemma_tile_key_injective(t, *id);
            }
            assert(self.pending() =~= p0.remove(*id));
        }
    }

    fn put(&mut self, id: TileId, tile: CachedTile<H>)
        requires
            old(self).wf(),
            !old(self).loading@.contains(spec_tile_key(id)),
        ensures
            final(self).wf(),
            final(self).cached() == old(self).cached().insert(id, tile),
            final(self).loading@ == old(self).loading@,
    {
        let ghost m0 = self.cached();
        let k = tile_key(&id);
        self.entries.insert(k, tile);
        proof {
            assert forall|t: TileId| spec_tile_key(t) == k <==> t == id by {
                lemma_tile_key_injective(t, id);
            }
            assert(self.cached() =~= m0.insert(id, tile));
        }
    }

    /// Drops the tiles that are no longer kept at `now`.
    fn drop_stale(&mut self, now: u64)
        requires
            old(self).wf(),
        ensures
            final(self).wf(),
            final(self).cached() == spec_fresh_part(old(self).cached(), now),
            final(self).loading@ == old(self).loading@,
    {
        let ghost m0 = self.entries@;
        let ghost c0 = self.cached();
        let mut stale: Vec<u128> = Vec::new();
        for item in it: self.entries.iter()
            invariant
                forall|j: int| 0 <= j < stale.len() ==> m0.contains_key(#[trigger] stale@[j]) && !spec_keeps(
                    m0[stale@[j]],
                    now,
                ),
                forall|j: int|
                    0 <= j < it.index() && !spec_keeps(*(#[trigger] it.seq()[j]).1, now) ==> stale@.contains(
                        *it.seq()[j].0,
                    ),
                forall|j: int|
                    0 <= j < it.seq().len() ==> m0.contains_key(*(#[trigger] it.seq()[j]).0) && m0[*it.seq()[j].0]
                        == *it.seq()[j].1,
                forall|key: u128| #[trigger] m0.contains_key(key) ==> it.seq().contains((&key, &m0[key])),
        {
            let ghost s0 = stale@;
            let ghost idx = it.index();
            assert(item == it.seq()[idx]);
            let (key, tile) = item;
            if !keeps(tile, now) {
                stale.push(*key);
            }
            proof {
                assert forall|j: int|
                    0 <= j < idx + 1 && !spec_keeps(*(#[trigger] it.seq()[j]).1, now) implies stale@.contains(
                        *it.seq()[j].0,
                    ) by {
                    if j < idx {
                        assert(s0.contains(*it.seq()[j].0));
                        let a = choose|a: int| 0 <= a < s0.len() && s0[a] == *it.seq()[j].0;
                        assert(stale@[a] == s0[a]);
                    } else {
                        assert(stale@[stale@.len() - 1] == *key);
                    }
                }
            }
        }
        let n = stale.len();
        let mut i: usize = 0;
        let ghost mut removed: Set<u128> = Set::empty();
        assert(m0.remove_keys(removed) =~= m0);
        while i < n
            invariant
                n == stale.len(),
                i <= n,
                forall|j: int| 0 <= j < stale.len() ==> m0.contains_key(#[trigger] stale@[j]) && !spec_keeps(
                    m0[stale@[j]],
                    now,
                ),
                forall|key: u128| #[trigger] m0.contains_key(key) && !spec_keeps(m0[key], now) ==> stale@.contains(key),
                self.loading@ == old(self).loading@,
                self.entries@ == m0.remove_keys(removed),
                forall|key: u128| #[trigger] removed.contains(key) ==> stale@.contains(key),
                forall|j: int| 0 <= j < i ==> removed.contains(#[trigger] stale@[j]),
            decreases n - i,
        {
            let ghost before = self.entries@;
            let ghost k = stale@[i as int];
            self.entries.remove(&stale[i]);
            proof {
                assert(self.entries@ =~= m0.remove_keys(removed.insert(k)));
                removed = removed.insert(k);
            }
            i = i + 1;
        }
        proof {
            assert forall|key: u128| m0.contains_key(key) && removed.contains(key) <==> m0.contains_key(key) && !spec_keeps(m0[key], now) by {
                if m0.contains_key(key) && removed.contains(key) {
                    assert(stale@.contains(key));
                    let j = choose|j: int| 0 <= j < stale@.len() && stale@[j] == key;
                    assert(m0.contains_key(stale@[j]));
                }
                if m0.contains_key(key) && !spec_keeps(m0[key], now) {
                    assert(stale@.contains(key));
                    let j = choose|j: int| 0 <= j < stale@.len() && stale@[j] == key;
                    assert(removed.contains(stale@[j]));
                }
            }
            assert(self.cached() =~= spec_fresh_part(c0, now));
        }
    }

    /// Drops the tiles that are no longer kept at `now`, then enters the
    /// fetches that have finished, in order: a loaded image is cached as
    /// used at `now`, a failure as failed at `now`, and neither tile is
    /// being fetched any more. Call this each frame.
    pub fn tick(&mut self, now: u64, finished: Vec<(TileId, Option<H>)>)
        requires
            old(self).wf(),
        ensures
            final(self).wf(),
            final(self).cached() == spec_with_finished(spec_fresh_part(old(self).cached(), now), finished@, now),
            final(self).pending() == old(self).pending().difference(spec_finished_ids(finished@)),
    {
        let ghost m0 = self.cached();
        let ghost p0 = self.pending();
        self.drop_stale(now);
        assert(self.pending() =~= p0);
        let ghost m1 = self.cached();
        let ghost all = finished@;
        let mut fin = finished;
        assert(all.take(0) =~= Seq::<(TileId, Option<H>)>::empty());
        assert(p0.difference(spec_finished_ids(all.take(0))) =~= p0);
        while fin.len() > 0
            invariant
                self.wf(),
                fin@.len() <= all.len(),
                fin@ == all.skip(all.len() - fin@.len()),
                m1 == spec_fresh_part(m0, now),
                self.cached() == spec_with_finished(m1, all.take(all.len() - fin@.len()), now),
                self.pending() == p0.difference(spec_finished_ids(all.take(all.len() - fin@.len()))),
            decreases fin@.len(),
        {
            let ghost n = all.len() - fin@.len();
            let (id, result) = fin.remove(0);
            assert(fin@ =~= all.skip(all.len() - fin@.len()));
            assert(all[n] == (id, result));
            assert(all.take(n + 1).drop_last() =~= all.take(n));
            self.unmark(&id);
            let tile = match result {
                Some(handle) => CachedTile::Cached { handle, last_used: now },
                None => CachedTile::Failed { failed_at: now },
            };
            self.put(id, tile);
            assert(self.pending() =~= p0.difference(spec_finished_ids(all.take(n + 1))));
        }
        assert(all.take(all.len() as int) =~= all);
    }
}

} // verus!
