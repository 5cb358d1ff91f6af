//! Joining the band tiles of one tile position.
//!
//! The bands of a position are read independently and arrive in any order.
//! A `BlockReadState` collects them and hands the complete bundle out at the
//! moment the last band arrives: once, and not before.

use std::collections::HashMap;
use vstd::prelude::*;

verus! {

broadcast use vstd::std_specs::hash::group_hash_axioms;

/// What recording one band does to the collected tiles: the tile is stored
/// under its band index, and if the collection then holds `expected` tiles
/// it is handed out whole and the state is left empty.
pub open spec fn spec_record<T>(blocks: Map<usize, T>, expected: nat, band: usize, tile: T) -> (
    Map<usize, T>,
    Option<Map<usize, T>>,
) {
    let filled = blocks.insert(band, tile);
    if filled.len() == expected {
        (Map::empty(), Some(filled))
    } else {
        (filled, None)
    }
}

/// The tiles that are held after a sequence of arrivals, starting from nothing.
pub open spec fn spec_held<T>(expected: nat, arrivals: Seq<(usize, T)>) -> Map<usize, T>
    decreases arrivals.len(),
{
    if arrivals.len() == 0 {
        Map::empty()
    } else {
        spec_record(
            spec_held(expected, arrivals.drop_last()),
            expected,
            arrivals.last().0,
            arrivals.last().1,
        ).0
    }
}

/// The bundle that arrival number `at` of the sequence completes, if it completes one.
pub open spec fn spec_completed_by<T>(expected: nat, arrivals: Seq<(usize, T)>, at: int) -> Option<
    Map<usize, T>,
> {
    spec_record(spec_held(expected, arrivals.take(at)), expected, arrivals[at].0, arrivals[at].1).1
}

/// How many bundles a sequence of arrivals completes.
pub open spec fn spec_completions<T>(expected: nat, arrivals: Seq<(usize, T)>) -> nat
    decreases arrivals.len(),
{
    if arrivals.len() == 0 {
        0
    } else {
        let before = spec_completions(expected, arrivals.drop_last());
        if spec_completed_by(expected, arrivals, arrivals.len() - 1) is Some {
            before + 1
        } else {
            before
        }
    }
}

/// No band index occurs twice among the arrivals.
pub open spec fn distinct_bands<T>(arrivals: Seq<(usize, T)>) -> bool {
    forall|i: int, j: int|
        0 <= i < arrivals.len() && 0 <= j < arrivals.len() && i != j ==> arrivals[i].0 != arrivals[j].0
}

/// The map holds exactly the first `n` arrivals, each under its band index.
pub open spec fn holds_prefix<T>(held: Map<usize, T>, arrivals: Seq<(usize, T)>, n: int) -> bool {
    &&& held.dom().finite()
    &&& held.len() == n
    &&& forall|j: int| 0 <= j < n ==> held.contains_key(#[trigger] arrivals[j].0)
    &&& forall|j: int| 0 <= j < n ==> held[#[trigger] arrivals[j].0] == arrivals[j].1
    &&& forall|b: usize| #[trigger]
        held.contains_key(b) ==> exists|j: int| 0 <= j < n && arrivals[j].0 == b
}

proof fn lemma_record_new_band<T>(held: Map<usize, T>, arrivals: Seq<(usize, T)>, n: int)
    requires
        0 <= n < arrivals.len(),
        distinct_bands(arrivals),
        holds_prefix(held, arrivals, n),
    ensures
        holds_prefix(held.insert(arrivals[n].0, arrivals[n].1), arrivals, n + 1),
{
    let band = arrivals[n].0;
    let filled = held.insert(band, arrivals[n].1);
    if held.contains_key(band) {
        let j = choose|j: int| 0 <= j < n && arrivals[j].0 == band;
        assert(false);
    }
    assert(filled.dom() =~= held.dom().insert(band));
    assert forall|j: int| 0 <= j < n + 1 implies filled.contains_key(#[trigger] arrivals[j].0) by {
        if j < n {
            assert(held.contains_key(arrivals[j].0));
        }
    }
    assert forall|j: int| 0 <= j < n + 1 implies filled[#[trigger] arrivals[j].0] == arrivals[j].1 by {
        if j < n {
            assert(held.contains_key(arrivals[j].0));
            assert(arrivals[j].0 != band);
        }
    }
    assert forall|b: usize| #[trigger] filled.contains_key(b) implies exists|j: int|
        0 <= j < n + 1 && arrivals[j].0 == b by {
        if b == band {
            assert(arrivals[n].0 == b);
        } else {
            assert(held.contains_key(b));
            let j = choose|j: int| 0 <= j < n && arrivals[j].0 == b;
            assert(0 <= j < n + 1 && arrivals[j].0 == b);
        }
    }
}

/// While fewer than `expected` distinct bands have arrived, all of them are
/// held and nothing has been handed out.
proof fn lemma_partial<T>(expected: nat, arrivals: Seq<(usize, T)>, n: int)
    requires
        distinct_bands(arrivals),
        0 <= n <= arrivals.len(),
        n < expected,
    ensures
        holds_prefix(spec_held(expected, arrivals.take(n)), arrivals, n),
        spec_completions(expected, arrivals.take(n)) == 0,
        forall|i: int| 0 <= i < n ==> spec_completed_by(expected, arrivals, i) is None,
    decreases n,
{
    let prefix = arrivals.take(n);
    if n == 0 {
        assert(prefix.len() == 0);
        assert(spec_held(expected, prefix) =~= Map::<usize, T>::empty());
    } else {
        lemma_partial(expected, arrivals, n - 1);
        assert(prefix.drop_last() =~= arrivals.take(n - 1));
        assert(prefix.take(n - 1) =~= arrivals.take(n - 1));
        assert(prefix.last() == arrivals[n - 1]);
        let before = spec_held(expected, arrivals.take(n - 1));
        lemma_record_new_band(before, arrivals, n - 1);
        assert(spec_completed_by(expected, prefix, n - 1) is None);
        assert(spec_completed_by(expected, arrivals, n - 1) is None);
    }
}

/// The tile-join law: when the `expected` bands of a position arrive, each
/// once and in whatever order, no arrival but the last completes a bundle,
/// the last one completes the bundle of all the tiles that arrived, and the
/// state is empty again afterwards. So exactly one bundle is handed out.
pub proof fn lemma_bundle_completes_exactly_once<T>(arrivals: Seq<(usize, T)>)
    requires
        arrivals.len() >= 1,
        distinct_bands(arrivals),
    ensures
        forall|i: int|
            0 <= i < arrivals.len() - 1 ==> spec_completed_by(arrivals.len(), arrivals, i) is None,
        spec_completed_by(arrivals.len(), arrivals, arrivals.len() - 1) is Some,
        holds_prefix(
            spec_completed_by(arrivals.len(), arrivals, arrivals.len() - 1)->0,
            arrivals,
            arrivals.len() as int,
        ),
        spec_completions(arrivals.len(), arrivals) == 1,
        spec_held(arrivals.len(), arrivals) == Map::<usize, T>::empty(),
{
    let k = arrivals.len();
    lemma_partial(k, arrivals, k - 1);
    let before = spec_held(k, arrivals.take(k - 1));
    lemma_record_new_band(before, arrivals, k - 1);
    assert(arrivals.drop_last() =~= arrivals.take(k - 1));
    assert(arrivals.last() == arrivals[k - 1]);
}

/// Band `band` is among the arrivals.
pub open spec fn arrives<T>(arrivals: Seq<(usize, T)>, band: usize) -> bool {
    exists|j: int| 0 <= j < arrivals.len() && arrivals[j].0 == band
}

/// When the bands that arrive are numbered from zero without a gap, the
/// completed bundle holds a tile under every band number below its size, so
/// its tiles can be put in band order.
pub proof fn lemma_complete_bundle_has_every_band<T>(arrivals: Seq<(usize, T)>)
    requires
        arrivals.len() >= 1,
        distinct_bands(arrivals),
        forall|b: usize| b < arrivals.len() ==> #[trigger] arrives(arrivals, b),
    ensures
        spec_completed_by(arrivals.len(), arrivals, arrivals.len() - 1) matches Some(bundle) && (forall|
            b: usize,
        |
            b < bundle.len() ==> #[trigger] bundle.contains_key(b)),
{
    lemma_bundle_completes_exactly_once(arrivals);
    let bundle = spec_completed_by(arrivals.len(), arrivals, arrivals.len() - 1)->0;
    assert forall|b: usize| b < bundle.len() implies #[trigger] bundle.contains_key(b) by {
        assert(arrives(arrivals, b));
        let j = choose|j: int| 0 <= j < arrivals.len() && arrivals[j].0 == b;
        assert(bundle.contains_key(arrivals[j].0));
    }
}

/// A bundle is handed out only when it holds exactly `expected` tiles.
pub proof fn lemma_bundle_is_full<T>(blocks: Map<usize, T>, expected: nat, band: usize, tile: T)
    ensures
        spec_record(blocks, expected, band, tile).1 matches Some(bundle) ==> bundle.len() == expected
            && bundle.contains_key(band) && bundle[band] == tile,
{
}

/// The collected tiles of one tile position.
pub struct BlockReadState<T> {
    blocks: HashMap<usize, T>,
    expected: usize,
    region_size: (usize, usize),
}

impl<T> BlockReadState<T> {
    /// The tiles recorded so far, by band index.
    pub closed spec fn spec_blocks(self) -> Map<usize, T> {
        self.blocks@
    }

    /// The number of bands that make the bundle complete.
    pub closed spec fn spec_expected(self) -> usize {
        self.expected
    }

    /// The tile size of the run that the position belongs to.
    pub closed spec fn spec_region_size(self) -> (usize, usize) {
        self.region_size
    }

    /// A fresh state for a position of which `expected` bands will be read.
    pub fn new(expected: usize, region_size: (usize, usize)) -> (state: BlockReadState<T>)
        ensures
            state.spec_blocks() == Map::<usize, T>::empty(),
            state.spec_expected() == expected,
            state.spec_region_size() == region_size,
    {
        BlockReadState { blocks: HashMap::new(), expected, region_size }
    }

    pub fn expected(&self) -> (k: usize)
        ensures
            k == self.spec_expected(),
    {
        self.expected
    }

    pub fn region_size(&self) -> (size: (usize, usize))
        ensures
            size == self.spec_region_size(),
    {
        self.region_size
    }

    /// The number of bands recorded and not yet handed out.
    pub fn pending(&self) -> (n: usize)
        ensures
            n == self.spec_blocks().len(),
    {
        self.blocks.len()
    }

    /// Records the tile of one band. When this brings the collection to the
    /// expected size, the whole collection is handed out and the state is
    /// left empty; otherwise nothing is handed out.
    pub fn insert(&mut self, band: usize, tile: T) -> (bundle: Option<HashMap<usize, T>>)
        ensures
            final(self).spec_expected() == old(self).spec_expected(),
            final(self).spec_region_size() == old(self).spec_region_size(),
            final(self).spec_blocks() == spec_record(
                old(self).spec_blocks(),
                old(self).spec_expected() as nat,
                band,
                tile,
            ).0,
            match spec_record(old(self).spec_blocks(), old(self).spec_expected() as nat, band, tile).1 {
                Some(full) => bundle matches Some(b) && b@ == full,
                None => bundle is None,
            },
    {
        self.blocks.insert(band, tile);
        if self.blocks.len() == self.expected {
            let mut full: HashMap<usize, T> = HashMap::new();
            std::mem::swap(&mut self.blocks, &mut full);
            Some(full)
        } else {
            None
        }
    }
}

/// The tiles of a bundle in band order: tile `i` of the result is the tile
/// of band `i`. There is such an order only where the bundle's bands are
/// numbered from zero without a gap.
pub fn ordered_bands<T>(bundle: HashMap<usize, T>) -> (bands: Option<Vec<T>>)
    ensures
        bands is Some <==> (forall|b: usize| b < bundle@.len() ==> #[trigger] bundle@.contains_key(b)),
        bands matches Some(list) ==> list@.len() == bundle@.len() && (forall|i: int|
            0 <= i < list@.len() ==> #[trigger] list@[i] == bundle@[i as usize]),
{
    let mut rest = bundle;
    let count: usize = rest.len();
    let mut list: Vec<T> = Vec::new();
    let mut i: usize = 0;
    while i < count
        invariant
            count == bundle@.len(),
            i <= count,
            list@.len() == i,
            forall|b: usize| b < i ==> #[trigger] bundle@.contains_key(b),
            forall|j: int| 0 <= j < i ==> #[trigger] list@[j] == bundle@[j as usize],
            forall|b: usize|
                b >= i ==> (#[trigger] rest@.contains_key(b) <==> bundle@.contains_key(b)),
            forall|b: usize| b >= i && #[trigger] rest@.contains_key(b) ==> rest@[b] == bundle@[b],
        decreases count - i,
    {
        match rest.remove(&i) {
            Some(tile) => {
                list.push(tile);
            },
            None => {
                assert(!bundle@.contains_key(i));
                return None;
            },
        }
        i += 1;
    }
    Some(list)
}

} // verus!
