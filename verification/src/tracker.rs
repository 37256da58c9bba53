//! Position tracker: per-entity incremental trail state.
//!
//! The tracker holds the last known position of every entity it has ever
//! seen. For each entity in a frame's snapshot it either emits one trail
//! segment from the cached position to the current one (and replaces the
//! cache entry), or — the first time the entity is seen — only records the
//! position, emitting nothing: a trail needs two consecutive samples.
//! Entries are never removed when an entity stops appearing.

use std::collections::HashMap;

use vstd::prelude::*;

use crate::vertex::{Observation, Point, Segment};

verus! {

broadcast use vstd::std_specs::hash::group_hash_axioms;

/// The cache after processing `observations` in order on top of `cache`:
/// every observed entity maps to its latest position in the frame, every
/// other entry is untouched.
pub open spec fn cache_after(cache: Map<u64, Point>, observations: Seq<Observation>) -> Map<
    u64,
    Point,
>
    decreases observations.len(),
{
    if observations.len() == 0 {
        cache
    } else {
        cache_after(cache, observations.drop_last()).insert(
            observations.last().handle,
            observations.last().position,
        )
    }
}

/// What one observation emits against a given cache: one segment from the
/// cached position to the current one when the entity was seen before,
/// nothing on a first sighting.
pub open spec fn segments_for(cache: Map<u64, Point>, observation: Observation) -> Seq<Segment> {
    if cache.contains_key(observation.handle) {
        seq![
            Segment {
                start: cache[observation.handle],
                end: observation.position,
                color: observation.color,
            },
        ]
    } else {
        Seq::empty()
    }
}

/// The segments a frame emits: each observation contributes against the
/// cache as updated by the observations before it, in snapshot order, with
/// no sorting or deduplication.
pub open spec fn emitted_segments(cache: Map<u64, Point>, observations: Seq<Observation>) -> Seq<
    Segment,
>
    decreases observations.len(),
{
    if observations.len() == 0 {
        Seq::empty()
    } else {
        emitted_segments(cache, observations.drop_last()) + segments_for(
            cache_after(cache, observations.drop_last()),
            observations.last(),
        )
    }
}

/// Law: an entity's first observed frame contributes no segment, and its
/// second consecutive observed frame contributes exactly one two-point
/// segment connecting the two samples.
pub proof fn lemma_first_sighting_then_segment(
    cache: Map<u64, Point>,
    first: Observation,
    second: Observation,
)
    requires
        !cache.contains_key(first.handle),
        second.handle == first.handle,
    ensures
        emitted_segments(cache, seq![first]) =~= Seq::<Segment>::empty(),
        cache_after(cache, seq![first]) == cache.insert(first.handle, first.position),
        emitted_segments(cache_after(cache, seq![first]), seq![second]) =~= seq![
            Segment { start: first.position, end: second.position, color: second.color },
        ],
{
    let nothing = Seq::<Observation>::empty();
    let one = seq![first];
    assert(one.drop_last() =~= nothing);
    assert(one.last() == first);
    assert(emitted_segments(cache, nothing) =~= Seq::<Segment>::empty());
    assert(cache_after(cache, nothing) == cache);
    assert(emitted_segments(cache, one) =~= segments_for(cache, first));
    let once = cache_after(cache, one);
    assert(once == cache.insert(first.handle, first.position));
    let two = seq![second];
    assert(two.drop_last() =~= nothing);
    assert(two.last() == second);
    assert(emitted_segments(once, nothing) =~= Seq::<Segment>::empty());
    assert(cache_after(once, nothing) == once);
    assert(emitted_segments(once, two) =~= segments_for(once, second));
    assert(once.contains_key(second.handle) && once[second.handle] == first.position);
}

/// Law: an entity absent from a snapshot keeps its cache entry unchanged —
/// entries are never evicted, only replaced.
pub proof fn lemma_cache_after_unobserved(
    cache: Map<u64, Point>,
    observations: Seq<Observation>,
    handle: u64,
)
    requires
        forall|j: int| 0 <= j < observations.len() ==> observations[j].handle != handle,
    ensures
        cache_after(cache, observations).contains_key(handle) == cache.contains_key(handle),
        cache.contains_key(handle) ==> cache_after(cache, observations)[handle] == cache[handle],
    decreases observations.len(),
{
    if observations.len() > 0 {
        assert(observations.last() == observations[observations.len() - 1]);
        lemma_cache_after_unobserved(cache, observations.drop_last(), handle);
    }
}

/// Law: an entity observed in a snapshot ends the frame cached at the
/// position of its last observation in it.
pub proof fn lemma_cache_after_observed(
    cache: Map<u64, Point>,
    observations: Seq<Observation>,
    j: int,
)
    requires
        0 <= j < observations.len(),
        forall|k: int|
            j < k < observations.len() ==> observations[k].handle != observations[j].handle,
    ensures
        cache_after(cache, observations).contains_key(observations[j].handle),
        cache_after(cache, observations)[observations[j].handle] == observations[j].position,
    decreases observations.len(),
{
    if j == observations.len() - 1 {
        assert(observations.last() == observations[j]);
    } else {
        assert(observations.last() == observations[observations.len() - 1]);
        assert(observations.drop_last()[j] == observations[j]);
        lemma_cache_after_observed(cache, observations.drop_last(), j);
    }
}

/// Maps each previously seen entity to its last known position.
pub struct PositionTracker {
    last_positions: HashMap<u64, Point>,
}

impl View for PositionTracker {
    type V = Map<u64, Point>;

    closed spec fn view(&self) -> Map<u64, Point> {
        self.last_positions@
    }
}

impl PositionTracker {
    /// A tracker that has seen no entity yet.
    pub fn new() -> (tracker: PositionTracker)
        ensures
            tracker@ == Map::<u64, Point>::empty(),
    {
        PositionTracker { last_positions: HashMap::new() }
    }

    /// The cached last known position of one entity, if it has been seen.
    pub fn last_position(&self, handle: u64) -> (position: Option<Point>)
        ensures
            match position {
                Some(p) => self@.contains_key(handle) && p == self@[handle],
                None => !self@.contains_key(handle),
            },
    {
        match self.last_positions.get(&handle) {
            Some(p) => Some(*p),
            None => None,
        }
    }

    /// Process one frame's snapshot: emit a segment for every entity with a
    /// cached position, record first sightings, and leave entities absent
    /// from the snapshot untouched.
    pub fn update(&mut self, observations: &Vec<Observation>) -> (segments: Vec<Segment>)
        ensures
            final(self)@ == cache_after(old(self)@, observations@),
            segments@ == emitted_segments(old(self)@, observations@),
    {
        let mut segments: Vec<Segment> = Vec::new();
        let mut i: usize = 0;
        while i < observations.len()
            invariant
                i <= observations@.len(),
                self@ == cache_after(old(self)@, observations@.take(i as int)),
                segments@ == emitted_segments(old(self)@, observations@.take(i as int)),
            decreases observations@.len() - i,
        {
            let observation = observations[i];
            match self.last_positions.get(&observation.handle) {
                Some(last) => {
                    segments.push(
                        Segment {
                            start: *last,
                            end: observation.position,
                            color: observation.color,
                        },
                    );
                },
                None => {},
            }
            self.last_positions.insert(observation.handle, observation.position);
            proof {
                let taken = observations@.take(i + 1 as int);
                assert(taken.drop_last() =~= observations@.take(i as int));
                assert(taken.last() == observations@[i as int]);
                assert(segments@ =~= emitted_segments(old(self)@, taken));
            }
            i = i + 1;
        }
        proof {
            assert(observations@.take(observations@.len() as int) =~= observations@);
        }
        segments
    }
}

} // verus!
