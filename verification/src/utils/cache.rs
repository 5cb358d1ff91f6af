//! A cache of opened raster sources, keyed by source identifier.
//!
//! The cache memoises successful opens: a source is opened on first request
//! and the same handle is served from then on. A failed open leaves no trace,
//! so a later request tries again. How a source is opened is the caller's
//! business; the cache only decides when to open and what to keep.

use vstd::prelude::*;

verus! {

/// What serving one request does to the cache and what it answers, given the
/// outcome `opened` that opening the source would have.
pub open spec fn spec_serve<H, E>(cache: Map<Seq<char>, H>, id: Seq<char>, opened: Result<H, E>) -> (
    Map<Seq<char>, H>,
    Result<H, E>,
) {
    if cache.contains_key(id) {
        (cache, Ok(cache[id]))
    } else {
        match opened {
            Ok(handle) => (cache.insert(id, handle), Ok(handle)),
            Err(e) => (cache, Err(e)),
        }
    }
}

/// What a request was answered with, as a value.
pub open spec fn spec_answer<H, E>(served: Result<&H, E>) -> Result<H, E> {
    match served {
        Ok(handle) => Ok(*handle),
        Err(e) => Err(e),
    }
}

/// The cache after serving a sequence of requests, each with the outcome that
/// opening its source would have, starting from `cache`.
pub open spec fn spec_serve_all<H, E>(
    cache: Map<Seq<char>, H>,
    requests: Seq<(Seq<char>, Result<H, E>)>,
) -> Map<Seq<char>, H>
    decreases requests.len(),
{
    if requests.len() == 0 {
        cache
    } else {
        spec_serve(spec_serve_all(cache, requests.drop_last()), requests.last().0, requests.last().1).0
    }
}

/// The identifiers of a sequence of requests.
pub open spec fn spec_requested<H, E>(requests: Seq<(Seq<char>, Result<H, E>)>) -> Set<Seq<char>> {
    Set::new(|id: Seq<char>| exists|i: int| 0 <= i < requests.len() && requests[i].0 == id)
}

/// Once a request for a source has succeeded, every further request for it
/// is answered with the same handle and leaves the cache as it is, whatever
/// opening the source again would give.
pub proof fn lemma_repeated_get_same_handle<H, E>(
    cache: Map<Seq<char>, H>,
    id: Seq<char>,
    first: Result<H, E>,
    again: Result<H, E>,
)
    requires
        spec_serve(cache, id, first).1 is Ok,
    ensures
        spec_serve(spec_serve(cache, id, first).0, id, again).1 == spec_serve(cache, id, first).1,
        spec_serve(spec_serve(cache, id, first).0, id, again).0 == spec_serve(cache, id, first).0,
{
}

/// A failed open is not remembered: the cache is unchanged, and the next
/// request for the source opens it again.
pub proof fn lemma_failure_not_cached<H, E>(cache: Map<Seq<char>, H>, id: Seq<char>, e: E, again: Result<H, E>)
    requires
        !cache.contains_key(id),
    ensures
        spec_serve(cache, id, Err::<H, E>(e)).0 == cache,
        spec_serve(cache, id, Err::<H, E>(e)).1 == Err::<H, E>(e),
        spec_serve(spec_serve(cache, id, Err::<H, E>(e)).0, id, again).1 == again,
{
}

/// Starting from an empty cache, as after `clear`, and as long as every
/// open succeeds, the cache holds exactly the identifiers that were
/// requested: its size is the number of distinct identifiers among them.
pub proof fn lemma_size_counts_distinct_ids<H, E>(requests: Seq<(Seq<char>, Result<H, E>)>)
    requires
        forall|i: int| 0 <= i < requests.len() ==> (#[trigger] requests[i]).1 is Ok,
    ensures
        spec_serve_all(Map::<Seq<char>, H>::empty(), requests).dom() == spec_requested(requests),
        spec_requested(requests).finite(),
        spec_serve_all(Map::<Seq<char>, H>::empty(), requests).len() == spec_requested(requests).len(),
    decreases requests.len(),
{
    let start = Map::<Seq<char>, H>::empty();
    if requests.len() == 0 {
        assert(start.dom() =~= spec_requested(requests));
    } else {
        let earlier = requests.drop_last();
        lemma_size_counts_distinct_ids(earlier);
        let before = spec_serve_all(start, earlier);
        let id = requests.last().0;
        let after = spec_serve_all(start, requests);
        assert(after.dom() =~= before.dom().insert(id));
        assert(spec_requested(requests) =~= spec_requested(earlier).insert(id)) by {
            assert forall|k: Seq<char>| spec_requested(requests).contains(k) implies spec_requested(
                earlier,
            ).insert(id).contains(k) by {
                let i = choose|i: int| 0 <= i < requests.len() && requests[i].0 == k;
                if i < requests.len() - 1 {
                    assert(earlier[i].0 == k);
                }
            }
            assert forall|k: Seq<char>| spec_requested(earlier).insert(id).contains(k) implies spec_requested(
                requests,
            ).contains(k) by {
                if k == id {
                    assert(requests[requests.len() - 1].0 == k);
                } else {
                    let i = choose|i: int| 0 <= i < earlier.len() && earlier[i].0 == k;
                    assert(requests[i].0 == k);
                }
            }
        }
    }
}

/// Position of the entry for `id` among the stored identifiers.
spec fn slot_of(ids: Seq<String>, id: Seq<char>) -> int {
    choose|i: int| 0 <= i < ids.len() && ids[i]@ == id
}

spec fn known(ids: Seq<String>, id: Seq<char>) -> bool {
    exists|i: int| 0 <= i < ids.len() && ids[i]@ == id
}

spec fn entries<H>(ids: Seq<String>, handles: Seq<H>) -> Map<Seq<char>, H> {
    Map::new(|id: Seq<char>| known(ids, id), |id: Seq<char>| handles[slot_of(ids, id)])
}

spec fn no_repeats(ids: Seq<String>) -> bool {
    forall|i: int, j: int| 0 <= i < ids.len() && 0 <= j < ids.len() && i != j ==> ids[i]@ != ids[j]@
}

/// The identifiers of the first `n` entries.
spec fn first_ids(ids: Seq<String>, n: int) -> Set<Seq<char>>
    decreases n,
{
    if n <= 0 {
        Set::empty()
    } else {
        first_ids(ids, n - 1).insert(ids[n - 1]@)
    }
}

proof fn lemma_first_ids(ids: Seq<String>, n: int)
    requires
        no_repeats(ids),
        0 <= n <= ids.len(),
    ensures
        first_ids(ids, n).finite(),
        first_ids(ids, n).len() == n,
        forall|id: Seq<char>|
            first_ids(ids, n).contains(id) <==> exists|i: int| 0 <= i < n && ids[i]@ == id,
    decreases n,
{
    if n > 0 {
        lemma_first_ids(ids, n - 1);
        let earlier = first_ids(ids, n - 1);
        let newest = ids[n - 1]@;
        if earlier.contains(newest) {
            let i = choose|i: int| 0 <= i < n - 1 && ids[i]@ == newest;
            assert(false);
        }
        assert forall|id: Seq<char>| first_ids(ids, n).contains(id) implies exists|i: int|
            0 <= i < n && ids[i]@ == id by {
            if id == ids[n - 1]@ {
                assert(ids[n - 1]@ == id);
            } else {
                let i = choose|i: int| 0 <= i < n - 1 && ids[i]@ == id;
                assert(0 <= i < n && ids[i]@ == id);
            }
        }
    }
}

proof fn lemma_entries_len<H>(ids: Seq<String>, handles: Seq<H>)
    requires
        no_repeats(ids),
        ids.len() == handles.len(),
    ensures
        entries(ids, handles).dom().finite(),
        entries(ids, handles).len() == ids.len(),
{
    lemma_first_ids(ids, ids.len() as int);
    assert(entries(ids, handles).dom() =~= first_ids(ids, ids.len() as int));
}

proof fn lemma_entries_push<H>(ids: Seq<String>, handles: Seq<H>, id: String, handle: H)
    requires
        no_repeats(ids),
        ids.len() == handles.len(),
        !known(ids, id@),
    ensures
        no_repeats(ids.push(id)),
        entries(ids.push(id), handles.push(handle)) == entries(ids, handles).insert(id@, handle),
{
    let ids2 = ids.push(id);
    let handles2 = handles.push(handle);
    assert forall|i: int, j: int| 0 <= i < ids2.len() && 0 <= j < ids2.len() && i != j implies ids2[i]@
        != ids2[j]@ by {
        if i < ids.len() && j < ids.len() {
        } else if i < ids.len() {
            assert(ids[i]@ != id@);
        } else {
            assert(ids[j]@ != id@);
        }
    }
    assert forall|k: Seq<char>| known(ids2, k) <==> (k == id@ || known(ids, k)) by {
        if known(ids2, k) {
            let i = choose|i: int| 0 <= i < ids2.len() && ids2[i]@ == k;
            if i < ids.len() {
                assert(ids[i]@ == k);
            }
        }
        if k == id@ {
            assert(ids2[ids.len() as int]@ == k);
        }
        if known(ids, k) {
            let i = choose|i: int| 0 <= i < ids.len() && ids[i]@ == k;
            assert(ids2[i]@ == k);
        }
    }
    assert forall|k: Seq<char>| known(ids2, k) implies #[trigger] entries(ids2, handles2)[k] == entries(
        ids,
        handles,
    ).insert(id@, handle)[k] by {
        let s2 = slot_of(ids2, k);
        if k == id@ {
            assert(ids2[ids.len() as int]@ == k);
            if s2 != ids.len() {
                assert(ids2[s2]@ == ids2[ids.len() as int]@);
            }
        } else {
            let s = slot_of(ids, k);
            assert(ids2[s]@ == k);
            if s2 != s {
                assert(ids2[s2]@ == ids2[s]@);
            }
        }
    }
    assert(entries(ids2, handles2) =~= entries(ids, handles).insert(id@, handle));
}

/// A cache of opened sources. `H` is whatever stands for an opened source.
pub struct RasterCache<H> {
    ids: Vec<String>,
    handles: Vec<H>,
}

impl<H> View for RasterCache<H> {
    type V = Map<Seq<char>, H>;

    /// The cached handles by source identifier.
    closed spec fn view(&self) -> Map<Seq<char>, H> {
        entries(self.ids@, self.handles@)
    }
}

impl<H> RasterCache<H> {
    /// Every identifier is stored once, beside its handle. Every cache that
    /// `new` hands out is well formed, and every method keeps it so.
    pub closed spec fn is_well_formed(self) -> bool {
        &&& self.ids@.len() == self.handles@.len()
        &&& no_repeats(self.ids@)
    }

    /// A cache with no entry.
    pub fn new() -> (cache: RasterCache<H>)
        ensures
            cache.is_well_formed(),
            cache@ == Map::<Seq<char>, H>::empty(),
    {
        let cache = RasterCache { ids: Vec::new(), handles: Vec::new() };
        assert(cache@ =~= Map::<Seq<char>, H>::empty());
        cache
    }

    /// The number of cached sources.
    pub fn len(&self) -> (n: usize)
        requires
            self.is_well_formed(),
        ensures
            self@.dom().finite(),
            n == self@.len(),
    {
        proof {
            lemma_entries_len(self.ids@, self.handles@);
        }
        self.ids.len()
    }

    /// Evicts every entry.
    pub fn clear(&mut self)
        ensures
            final(self).is_well_formed(),
            final(self)@ == Map::<Seq<char>, H>::empty(),
    {
        self.ids = Vec::new();
        self.handles = Vec::new();
        assert(self@ =~= Map::<Seq<char>, H>::empty());
    }

    /// Where the entry for `id` stands, if there is one.
    fn find(&self, id: &String) -> (slot: Option<usize>)
        requires
            self.is_well_formed(),
        ensures
            slot is Some <==> self@.contains_key(id@),
            slot matches Some(i) ==> i < self.ids@.len() && i < self.handles@.len() && self.ids@[i as int]@
                == id@ && self.handles@[i as int] == self@[id@],
    {
        let n: usize = self.ids.len();
        let mut i: usize = 0;
        while i < n
            invariant
                n == self.ids@.len(),
                n == self.handles@.len(),
                no_repeats(self.ids@),
                i <= n,
                forall|j: int| 0 <= j < i ==> self.ids@[j]@ != id@,
            decreases n - i,
        {
            if self.ids[i] == *id {
                proof {
                    let s = slot_of(self.ids@, id@);
                    assert(self.ids@[i as int]@ == id@);
                    if s != i {
                        assert(self.ids@[s]@ == self.ids@[i as int]@);
                    }
                }
                return Some(i);
            }
            i += 1;
        }
        proof {
            if known(self.ids@, id@) {
                let s = slot_of(self.ids@, id@);
                assert(self.ids@[s]@ != id@);
            }
        }
        None
    }

    /// Whether a source is cached.
    pub fn contains(&self, id: &str) -> (found: bool)
        requires
            self.is_well_formed(),
        ensures
            found == self@.contains_key(id@),
    {
        let key: String = id.to_owned();
        self.find(&key).is_some()
    }

    /// The cached handle of a source, if it has one. Nothing is opened.
    pub fn peek(&self, id: &str) -> (handle: Option<&H>)
        requires
            self.is_well_formed(),
        ensures
            handle is Some <==> self@.contains_key(id@),
            handle matches Some(h) ==> *h == self@[id@],
    {
        let key: String = id.to_owned();
        match self.find(&key) {
            Some(i) => Some(&self.handles[i]),
            None => None,
        }
    }

    /// Serves the handle of a source. A cached source is answered from the
    /// cache, whatever opening it again would give. Otherwise the source is
    /// opened with `open`: on success the new handle is cached and
    /// answered, on failure the error is answered and the cache stays as it
    /// was.
    pub fn get_dataset<E, F: FnOnce(&str) -> Result<H, E>>(&mut self, id: &str, open: F) -> (served: Result<
        &H,
        E,
    >)
        requires
            old(self).is_well_formed(),
            call_requires(open, (id,)),
        ensures
            final(self).is_well_formed(),
            old(self)@.contains_key(id@) ==> final(self)@ == old(self)@ && (served matches Ok(h) && *h == old(
                self,
            )@[id@]),
            !old(self)@.contains_key(id@) ==> match served {
                Ok(h) => call_ensures(open, (id,), Ok::<H, E>(*h)) && final(self)@ == old(self)@.insert(
                    id@,
                    *h,
                ),
                Err(e) => call_ensures(open, (id,), Err::<H, E>(e)) && final(self)@ == old(self)@,
            },
            served matches Ok(h) ==> final(self)@.contains_key(id@) && final(self)@[id@] == *h,
            exists|opened: Result<H, E>|
                (old(self)@.contains_key(id@) || call_ensures(open, (id,), opened)) && #[trigger] spec_serve(
                    old(self)@,
                    id@,
                    opened,
                ) == (final(self)@, spec_answer(served)),
    {
        let key: String = id.to_owned();
        let slot: usize = match self.find(&key) {
            Some(i) => {
                proof {
                    let again = Ok::<H, E>(self.handles@[i as int]);
                    assert(spec_serve(self@, id@, again) == (self@, again));
                }
                i
            },
            None => {
                match open(id) {
                    Ok(handle) => {
                        proof {
                            lemma_entries_push(self.ids@, self.handles@, key, handle);
                            let opened = Ok::<H, E>(handle);
                            assert(spec_serve(self@, id@, opened) == (self@.insert(id@, handle), opened));
                        }
                        self.ids.push(key);
                        self.handles.push(handle);
                        self.handles.len() - 1
                    },
                    Err(e) => {
                        proof {
                            let opened = Err::<H, E>(e);
                            assert(spec_serve(self@, id@, opened) == (self@, opened));
                        }
                        return Err(e);
                    },
                }
            },
        };
        Ok(&self.handles[slot])
    }
}

} // verus!
