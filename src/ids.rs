use vstd::prelude::*;
use rand::Rng;

verus! {

/// Why a release was refused.
#[derive(Debug, Clone, Copy, PartialEq, Eq, Structural)]
pub enum IdError {
    /// The identifier is not in the live set.
    NotLive,
}

/// Issues and reclaims unique identifiers drawn from `0..bound`.
pub struct IdentityAllocator {
    live: Vec<u32>,
    bound: u32,
}

/// How many random draws `allocate` makes before it scans for a free value.
pub const MAX_DRAWS: u32 = 64;

/// Relies on rand's `thread_rng().gen_range(0..bound)`: a value below `bound`.
/// `gen_range` panics on an empty range, which `bound > 0` excludes.
#[verifier::external_body]
fn draw_below(bound: u32) -> (r: u32)
    requires
        bound > 0,
    ensures
        r < bound,
{
    rand::thread_rng().gen_range(0..bound)
}

impl IdentityAllocator {
    /// The set of live identifiers.
    pub closed spec fn view(&self) -> Set<u32> {
        self.live@.to_set()
    }

    /// Identifiers are drawn from `0..space()`.
    pub closed spec fn space(&self) -> u32 {
        self.bound
    }

    /// The live identifiers are held once each, and all lie in the space.
    pub closed spec fn wf(&self) -> bool {
        &&& self.live@.no_duplicates()
        &&& self.bound > 0
        &&& forall|i: int| 0 <= i < self.live@.len() ==> self.live@[i] < self.bound
    }

    /// An allocator over the full range `0..u32::MAX`, with nothing live.
    pub fn new() -> (r: Self)
        ensures
            r.wf(),
            r@ == Set::<u32>::empty(),
            r.space() == u32::MAX,
    {
        Self::with_space(u32::MAX)
    }

    /// An allocator over `0..bound`, with nothing live.
    pub fn with_space(bound: u32) -> (r: Self)
        requires
            bound > 0,
        ensures
            r.wf(),
            r@ == Set::<u32>::empty(),
            r.space() == bound,
    {
        let r = IdentityAllocator { live: Vec::new(), bound };
        assert(r.live@ =~= Seq::<u32>::empty());
        r
    }

    /// The upper end (exclusive) of the identifier space.
    pub fn bound(&self) -> (r: u32)
        ensures
            r == self.space(),
    {
        self.bound
    }

    /// How many identifiers are live.
    pub fn len(&self) -> (r: usize)
        requires
            self.wf(),
        ensures
            r == self@.len(),
    {
        proof {
            self.live@.unique_seq_to_set();
        }
        self.live.len()
    }

    /// Whether `id` is live.
    pub fn is_live(&self, id: u32) -> (r: bool)
        ensures
            r == self@.contains(id),
    {
        let mut i: usize = 0;
        while i < self.live.len()
            invariant
                0 <= i <= self.live@.len(),
                forall|j: int| 0 <= j < i ==> self.live@[j] != id,
            decreases self.live@.len() - i,
        {
            if self.live[i] == id {
                assert(self.live@.contains(id));
                return true;
            }
            i = i + 1;
        }
        false
    }

    /// Adds `id`, which is free and in the space, to the live set.
    fn insert(&mut self, id: u32)
        requires
            old(self).wf(),
            !old(self)@.contains(id),
            id < old(self).space(),
        ensures
            final(self).wf(),
            final(self)@ == old(self)@.insert(id),
            final(self).space() == old(self).space(),
    {
        let ghost before = self.live@;
        self.live.push(id);
        proof {
            assert(self.live@ == before.push(id));
            assert forall|i: int, j: int|
                0 <= i < self.live@.len() && 0 <= j < self.live@.len() && i != j
                implies self.live@[i] != self.live@[j] by {
                if i == before.len() as int {
                    assert(before.contains(self.live@[j]));
                } else if j == before.len() as int {
                    assert(before.contains(self.live@[i]));
                }
            }
            assert forall|v: u32| self.live@.contains(v) <==> (before.contains(v) || v == id) by {
                if self.live@.contains(v) && v != id {
                    let k = choose|k: int| 0 <= k < self.live@.len() && self.live@[k] == v;
                    assert(before[k] == v);
                }
                if before.contains(v) {
                    let k = choose|k: int| 0 <= k < before.len() && before[k] == v;
                    assert(self.live@[k] == v);
                }
                if v == id {
                    assert(self.live@[before.len() as int] == v);
                }
            }
            assert(self.live@.to_set() =~= before.to_set().insert(id));
        }
    }

    /// Takes a fresh identifier, marks it live and returns it.
    ///
    /// Candidates are drawn at random from the space and redrawn while they
    /// collide with a live identifier; after `MAX_DRAWS` collisions the space is
    /// scanned from zero for a free value. `None` comes back exactly when every
    /// identifier of the space is live, and then nothing changes.
    pub fn allocate(&mut self) -> (r: Option<u32>)
        requires
            old(self).wf(),
        ensures
            final(self).wf(),
            final(self).space() == old(self).space(),
            r is None <==> forall|v: u32| v < old(self).space() ==> old(self)@.contains(v),
            match r {
                Some(id) => {
                    &&& !old(self)@.contains(id)
                    &&& id < old(self).space()
                    &&& final(self)@ == old(self)@.insert(id)
                },
                None => {
                    &&& final(self)@ == old(self)@
                    &&& forall|v: u32| v < old(self).space() ==> old(self)@.contains(v)
                },
            },
    {
        let mut draws: u32 = 0;
        while draws < MAX_DRAWS
            invariant
                self.wf(),
                *self == *old(self),
            decreases MAX_DRAWS - draws,
        {
            let candidate = draw_below(self.bound);
            if !self.is_live(candidate) {
                self.insert(candidate);
                return Some(candidate);
            }
            draws = draws + 1;
        }
        let mut c: u32 = 0;
        while c < self.bound
            invariant
                self.wf(),
                *self == *old(self),
                forall|v: u32| v < c ==> self@.contains(v),
            decreases self.bound - c,
        {
            if !self.is_live(c) {
                self.insert(c);
                return Some(c);
            }
            c = c + 1;
        }
        None
    }

    /// Removes `id` from the live set. Fails with `NotLive`, changing nothing,
    /// exactly when `id` is not live.
    pub fn release(&mut self, id: u32) -> (r: Result<(), IdError>)
        requires
            old(self).wf(),
        ensures
            final(self).wf(),
            final(self).space() == old(self).space(),
            r is Ok <==> old(self)@.contains(id),
            r is Ok ==> final(self)@ == old(self)@.remove(id),
            r is Err ==> final(self)@ == old(self)@ && r == Err::<(), IdError>(IdError::NotLive),
    {
        let mut i: usize = 0;
        while i < self.live.len()
            invariant
                0 <= i <= self.live@.len(),
                *self == *old(self),
                self.wf(),
                forall|j: int| 0 <= j < i ==> self.live@[j] != id,
            decreases self.live@.len() - i,
        {
            if self.live[i] == id {
                let ghost before = self.live@;
                self.live.remove(i);
                proof {
                    assert(self.live@ == before.remove(i as int));
                    assert forall|a: int, b: int|
                        0 <= a < self.live@.len() && 0 <= b < self.live@.len() && a != b
                        implies self.live@[a] != self.live@[b] by {
                        let a2 = if a < i { a } else { a + 1 };
                        let b2 = if b < i { b } else { b + 1 };
                        assert(self.live@[a] == before[a2]);
                        assert(self.live@[b] == before[b2]);
                    }
                    assert forall|a: int| 0 <= a < self.live@.len() implies self.live@[a]
                        < self.bound by {
                        let a2 = if a < i { a } else { a + 1 };
                        assert(self.live@[a] == before[a2]);
                    }
                    assert forall|v: u32| self.live@.to_set().contains(v)
                        <==> before.to_set().remove(id).contains(v) by {
                        if self.live@.contains(v) {
                            let k = choose|k: int| 0 <= k < self.live@.len() && self.live@[k] == v;
                            let k2 = if k < i { k } else { k + 1 };
                            assert(before[k2] == v);
                            assert(k2 != i as int);
                        }
                        if before.contains(v) && v != id {
                            let k = choose|k: int| 0 <= k < before.len() && before[k] == v;
                            assert(k != i as int);
                            let k2 = if k < i { k } else { k - 1 };
                            assert(self.live@[k2] == v);
                        }
                    }
                    assert(self.live@.to_set() =~= before.to_set().remove(id));
                }
                return Ok(());
            }
            i = i + 1;
        }
        Err(IdError::NotLive)
    }
}

/// A successful allocation or release of an identifier.
#[derive(Debug, Clone, Copy, PartialEq, Eq, Structural)]
pub enum IdEvent {
    Allocated(u32),
    Released(u32),
}

/// The live set after a history of successful allocations and releases,
/// starting from nothing live, as `allocate` and `release` state it step by step.
pub open spec fn live_after(events: Seq<IdEvent>) -> Set<u32>
    decreases events.len(),
{
    if events.len() == 0 {
        Set::empty()
    } else {
        let before = live_after(events.drop_last());
        match events.last() {
            IdEvent::Allocated(id) => before.insert(id),
            IdEvent::Released(id) => before.remove(id),
        }
    }
}

/// `v` was allocated at some point of the history and not released after it.
pub open spec fn allocated_not_released(events: Seq<IdEvent>, v: u32) -> bool {
    exists|i: int|
        0 <= i < events.len() && #[trigger] events[i] == IdEvent::Allocated(v)
            && forall|j: int| i < j < events.len() ==> #[trigger] events[j] != IdEvent::Released(v)
}

/// At every point of a history the live set holds exactly the identifiers
/// that were allocated and not released since.
pub proof fn lemma_live_is_unreleased(events: Seq<IdEvent>)
    ensures
        forall|v: u32| live_after(events).contains(v) <==> allocated_not_released(events, v),
    decreases events.len(),
{
    if events.len() > 0 {
        let prev = events.drop_last();
        lemma_live_is_unreleased(prev);
        let n = events.len() - 1;
        assert forall|v: u32| live_after(events).contains(v) <==> allocated_not_released(events, v) by {
            match events.last() {
                IdEvent::Allocated(w) => {
                    if v == w {
                        assert(events[n] == IdEvent::Allocated(v));
                    } else {
                        if allocated_not_released(prev, v) {
                            let i = choose|i: int|
                                0 <= i < prev.len() && #[trigger] prev[i] == IdEvent::Allocated(v)
                                    && forall|j: int| i < j < prev.len() ==> #[trigger] prev[j] != IdEvent::Released(v);
                            assert(events[i] == prev[i]);
                            assert forall|j: int| i < j < events.len() implies #[trigger] events[j] != IdEvent::Released(v) by {
                                if j < n {
                                    assert(events[j] == prev[j]);
                                }
                            }
                        }
                        if allocated_not_released(events, v) {
                            let i = choose|i: int|
                                0 <= i < events.len() && #[trigger] events[i] == IdEvent::Allocated(v)
                                    && forall|j: int| i < j < events.len() ==> #[trigger] events[j] != IdEvent::Released(v);
                            assert(i != n);
                            assert(prev[i] == events[i]);
                            assert forall|j: int| i < j < prev.len() implies #[trigger] prev[j] != IdEvent::Released(v) by {
                                assert(events[j] == prev[j]);
                            }
                        }
                    }
                },
                IdEvent::Released(w) => {
                    if v == w {
                        if allocated_not_released(events, v) {
                            let i = choose|i: int|
                                0 <= i < events.len() && #[trigger] events[i] == IdEvent::Allocated(v)
                                    && forall|j: int| i < j < events.len() ==> #[trigger] events[j] != IdEvent::Released(v);
                            assert(i != n);
                            assert(events[n] != IdEvent::Released(v));
                        }
                    } else {
                        if allocated_not_released(prev, v) {
                            let i = choose|i: int|
                                0 <= i < prev.len() && #[trigger] prev[i] == IdEvent::Allocated(v)
                                    && forall|j: int| i < j < prev.len() ==> #[trigger] prev[j] != IdEvent::Released(v);
                            assert(events[i] == prev[i]);
                            assert forall|j: int| i < j < events.len() implies #[trigger] events[j] != IdEvent::Released(v) by {
                                if j < n {
                                    assert(events[j] == prev[j]);
                                }
                            }
                        }
                        if allocated_not_released(events, v) {
                            let i = choose|i: int|
                                0 <= i < events.len() && #[trigger] events[i] == IdEvent::Allocated(v)
                                    && forall|j: int| i < j < events.len() ==> #[trigger] events[j] != IdEvent::Released(v);
                            assert(i != n);
                            assert(prev[i] == events[i]);
                            assert forall|j: int| i < j < prev.len() implies #[trigger] prev[j] != IdEvent::Released(v) by {
                                assert(events[j] == prev[j]);
                            }
                        }
                    }
                },
            }
        }
    }
}

/// Once an identifier has been released, releasing it again fails: it is no
/// longer live, and `release` refuses exactly the identifiers that are not.
pub proof fn lemma_second_release_fails(live: Set<u32>, id: u32)
    ensures
        !live.remove(id).contains(id),
{
}

} // verus!
