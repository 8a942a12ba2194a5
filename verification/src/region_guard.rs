//! Regions: one buffer cut into contiguous parts, each behind a lock of its
//! own, so that many workers can read and write disjoint parts at once.

use vstd::prelude::*;
use std::sync::Arc;
use parking_lot::lock_api::{ArcRwLockUpgradableReadGuard, ArcRwLockWriteGuard, RwLock};
use parking_lot::RawRwLock;

verus! {

/// The regions of a buffer, in the order of their starts. Each entry holds
/// the first index of a region and the first index after it; the last region
/// has no end.
#[derive(Debug, PartialEq, Eq)]
pub struct RegionArray {
    pub regions: Vec<(usize, usize)>,
    /// How many regions there are.
    pub len: usize,
    /// The mean extent of a region, where the last one counts up to the
    /// largest index.
    pub avg: usize,
}

/// Whether the numbers stand in ascending order.
pub open spec fn ascending(starts: Seq<usize>) -> bool {
    forall|i: int, j: int| 0 <= i <= j < starts.len() ==> starts[i] <= starts[j]
}

/// The starts of the regions.
pub open spec fn starts_of(regions: Seq<(usize, usize)>) -> Seq<usize> {
    regions.map_values(|r: (usize, usize)| r.0)
}

/// The numbers in ascending order.
pub fn sort_starts(starts: &Vec<usize>) -> (r: Vec<usize>)
    ensures
        ascending(r@),
        r@.to_multiset() == starts@.to_multiset(),
        r.len() == starts.len(),
        ascending(starts@) ==> r@ == starts@,
{
    let mut out: Vec<usize> = Vec::new();
    let mut i: usize = 0;
    assert(starts@.take(0) =~= out@);
    while i < starts.len()
        invariant
            i <= starts.len(),
            out.len() == i,
            ascending(out@),
            out@.to_multiset() == starts@.take(i as int).to_multiset(),
            ascending(starts@) ==> out@ == starts@.take(i as int),
        decreases starts.len() - i,
    {
        let x = starts[i];
        let mut p: usize = 0;
        while p < out.len() && out[p] <= x
            invariant
                p <= out.len(),
                forall|k: int| 0 <= k < p ==> out[k] <= x,
            decreases out.len() - p,
        {
            p += 1;
        }
        let ghost before = out@;
        out.insert(p, x);
        proof {
            if ascending(starts@) {
                if p < before.len() {
                    assert(before[p as int] == starts@[p as int]);
                    assert(starts@[p as int] <= starts@[i as int]);
                }
                assert(out@ =~= starts@.take(i + 1));
            }
            vstd::seq_lib::to_multiset_insert(before, p as int, x);
            vstd::seq_lib::to_multiset_build(starts@.take(i as int), x);
            assert(starts@.take(i + 1) =~= starts@.take(i as int).push(x));
            assert forall|a: int, b: int| 0 <= a <= b < out@.len() implies out@[a] <= out@[b] by {
                if a < p && b > p {
                    assert(out@[b] == before[b - 1]);
                    assert(before[p as int] > x);
                    assert(before[p as int] <= before[b - 1]);
                } else if a < p && b == p {
                } else if a < p {
                    assert(out@[a] == before[a] && out@[b] == before[b]);
                } else if a == p && b > p {
                    assert(out@[b] == before[b - 1]);
                    assert(before[p as int] <= before[b - 1]);
                } else if a > p {
                    assert(out@[a] == before[a - 1] && out@[b] == before[b - 1]);
                }
            }
        }
        i += 1;
    }
    assert(starts@.take(i as int) =~= starts@);
    out
}

impl RegionArray {
    /// The regions lie one after the other: each ends where the next starts,
    /// and the last has no end.
    pub open spec fn wf(self) -> bool {
        &&& self.len == self.regions.len()
        &&& self.len > 0
        &&& ascending(starts_of(self.regions@))
        &&& forall|i: int|
            0 <= i < self.len - 1 ==> (#[trigger] self.regions[i]).1 == self.regions[i + 1].0
        &&& self.regions[self.len - 1].1 == usize::MAX
    }

    /// Whether region `i` holds the index `key`.
    pub open spec fn holds(self, i: int, key: usize) -> bool {
        0 <= i < self.len && self.regions[i].0 <= key < self.regions[i].1
    }

    /// Whether some region holds the index `key`.
    pub open spec fn covers(self, key: usize) -> bool {
        self.regions[0].0 <= key < usize::MAX
    }

    /// The regions that start where the given entries say. What else an
    /// entry holds plays no part.
    pub fn from_regions(regions: Vec<(usize, usize)>) -> (r: RegionArray)
        requires
            regions.len() > 0,
        ensures
            r.wf(),
            r.len == regions.len(),
            starts_of(r.regions@).to_multiset() == starts_of(regions@).to_multiset(),
            ascending(starts_of(regions@)) ==> starts_of(r.regions@) == starts_of(regions@),
            r.avg == (usize::MAX - r.regions[0].0) / (r.len as int),
    {
        let mut starts: Vec<usize> = Vec::new();
        let mut i: usize = 0;
        while i < regions.len()
            invariant
                i <= regions.len(),
                starts@ == starts_of(regions@).take(i as int),
            decreases regions.len() - i,
        {
            starts.push(regions[i].0);
            assert(starts@ =~= starts_of(regions@).take(i + 1));
            i += 1;
        }
        assert(starts_of(regions@).take(i as int) =~= starts_of(regions@));
        let sorted = sort_starts(&starts);
        let len = sorted.len();
        let mut t: Vec<(usize, usize)> = Vec::new();
        let mut k: usize = 0;
        while k < len
            invariant
                k <= len,
                len == sorted.len(),
                t.len() == k,
                forall|j: int| 0 <= j < k ==> (#[trigger] t[j]).0 == sorted[j],
                forall|j: int|
                    0 <= j < k ==> (#[trigger] t[j]).1 == if j == len - 1 {
                        usize::MAX
                    } else {
                        sorted[j + 1]
                    },
            decreases len - k,
        {
            let upper = if k == len - 1 {
                usize::MAX
            } else {
                sorted[k + 1]
            };
            t.push((sorted[k], upper));
            k += 1;
        }
        assert(starts_of(t@) =~= sorted@);
        let avg = (usize::MAX - t[0].0) / len;
        RegionArray { regions: t, len, avg }
    }

    /// The first index after region `region`.
    pub fn upper_bound(&self, region: usize) -> (r: usize)
        requires
            region < self.regions.len(),
        ensures
            r == self.regions[region as int].1,
    {
        self.regions[region].1
    }

    /// The region that holds `key`: its first index and its place.
    pub fn find(&self, key: usize) -> (r: (usize, usize))
        requires
            self.wf(),
            self.covers(key),
        ensures
            self.holds(r.1 as int, key),
            r.0 == self.regions[r.1 as int].0,
    {
        let guess = if self.avg == 0 {
            0
        } else {
            key / self.avg
        };
        let mut current: usize = if guess < self.len {
            guess
        } else {
            self.len - 1
        };
        let mut last: usize = self.len;
        loop
            invariant
                self.wf(),
                self.covers(key),
                current < last <= self.len,
                last < self.len ==> self.regions[last as int].0 > key,
            decreases last, last - current,
        {
            let t = self.regions[current];
            if t.0 > key {
                assert(current > 0);
                last = current;
                current = current / 2;
            } else if t.1 <= key {
                assert(last - current >= 2) by {
                    if current + 1 == last {
                        if last < self.len {
                            assert(self.regions[current as int].1 == self.regions[current + 1].0);
                        }
                    }
                }
                current += (last - current) / 2;
            } else {
                return (t.0, current);
            }
        }
    }

    /// The region that holds `key`, where there is one.
    pub fn locate(&self, key: usize) -> (r: Option<(usize, usize)>)
        requires
            self.wf(),
        ensures
            match r {
                Some(found) => self.holds(found.1 as int, key) && found.0
                    == self.regions[found.1 as int].0,
                None => !self.covers(key),
            },
    {
        if self.regions[0].0 <= key && key < usize::MAX {
            Some(self.find(key))
        } else {
            None
        }
    }
}

/// No index lies in two regions that are not empty: the region that holds an
/// index is the only one.
pub proof fn law_one_region_holds(regions: RegionArray, i: int, j: int, key: usize)
    requires
        regions.wf(),
        regions.holds(i, key),
        regions.holds(j, key),
    ensures
        i == j,
{
    if i < j {
        lemma_upper_below_later_start(regions, i, j);
    }
    if j < i {
        lemma_upper_below_later_start(regions, j, i);
    }
}

/// A region ends at or before the start of every later region.
pub proof fn lemma_upper_below_later_start(regions: RegionArray, i: int, j: int)
    requires
        regions.wf(),
        0 <= i < j < regions.len,
    ensures
        regions.regions[i].1 <= regions.regions[j].0,
{
    assert(regions.regions[i].1 == regions.regions[i + 1].0);
    assert(starts_of(regions.regions@)[i + 1] == regions.regions[i + 1].0);
    assert(starts_of(regions.regions@)[j] == regions.regions[j].0);
}

/// How a region is held.
#[derive(Clone, Copy, Debug, PartialEq, Eq, Structural)]
pub enum LockState {
    /// For reading, with the right to go on to writing.
    Read,
    /// For writing, alone.
    Write,
}

/// A region that is held, and how.
#[derive(Clone, Copy, Debug, PartialEq, Eq, Structural)]
pub struct Held {
    pub region: usize,
    pub state: LockState,
}

/// What an access does to the locks.
#[derive(Clone, Copy, Debug, PartialEq, Eq, Structural)]
pub enum Transition {
    /// The region is held as needed: nothing is released or acquired.
    Keep,
    /// The region is held for reading and goes on to writing in place.
    Upgrade,
    /// What is held, if anything, is released as it was acquired; then the
    /// region is acquired.
    Acquire { release: Option<Held>, region: usize, state: LockState },
}

/// What reading from `region` does to the locks when `lock` is held.
pub open spec fn read_transition(lock: Option<Held>, region: usize) -> Transition {
    match lock {
        Some(held) if held.region == region => Transition::Keep,
        _ => Transition::Acquire { release: lock, region, state: LockState::Read },
    }
}

/// What writing to `region` does to the locks when `lock` is held.
pub open spec fn write_transition(lock: Option<Held>, region: usize) -> Transition {
    match lock {
        Some(Held { region: held, state: LockState::Write }) if held == region => Transition::Keep,
        Some(Held { region: held, state: LockState::Read }) if held == region => Transition::Upgrade,
        _ => Transition::Acquire { release: lock, region, state: LockState::Write },
    }
}

/// What is held after a transition.
pub open spec fn lock_after(lock: Option<Held>, t: Transition) -> Option<Held> {
    match t {
        Transition::Keep => lock,
        Transition::Upgrade => match lock {
            Some(held) => Some(Held { region: held.region, state: LockState::Write }),
            None => None,
        },
        Transition::Acquire { region, state, .. } => Some(Held { region, state }),
    }
}

/// The bounds that an accessor remembers after a transition: those of the
/// region that it acquired, or else those it remembered before.
pub open spec fn bounds_after(
    regions: RegionArray,
    bounds: Option<(usize, usize, usize)>,
    t: Transition,
) -> Option<(usize, usize, usize)> {
    match t {
        Transition::Acquire { region, .. } => Some(
            (region, regions.regions[region as int].0, regions.regions[region as int].1),
        ),
        _ => bounds,
    }
}

/// Whether one region holds all of `start..end`: the index `start` and the
/// last index before `end`. An empty range lies in one region where `start`
/// and the index before it do.
pub open spec fn in_one_region(regions: RegionArray, start: usize, end: usize) -> bool {
    0 < end && start <= end && exists|i: int|
        regions.holds(i, start) && #[trigger] regions.holds(i, (end - 1) as usize)
}

/// The locks as one accessor sees them: the region it holds, if any, and the
/// bounds of the region it used last.
#[derive(Debug, PartialEq, Eq)]
pub struct RegionLock {
    /// The region that is held, and how.
    pub lock: Option<Held>,
    pub regions: RegionArray,
    /// The region used last: its place, its first index and the first
    /// index after it.
    pub current_bounds: Option<(usize, usize, usize)>,
}

impl RegionLock {
    pub open spec fn wf(self) -> bool {
        &&& self.regions.wf()
        &&& self.lock matches Some(held) ==> held.region < self.regions.len
        &&& self.current_bounds matches Some((place, lower, upper)) ==> place < self.regions.len
            && self.regions.regions[place as int] == (lower, upper)
    }

    /// An accessor that holds nothing.
    pub fn new(regions: RegionArray) -> (r: RegionLock)
        requires
            regions.wf(),
        ensures
            r.wf(),
            r.lock is None,
            r.current_bounds is None,
            r.regions == regions,
    {
        RegionLock { lock: None, regions, current_bounds: None }
    }

    /// Releases what is held. The result says what that was.
    pub fn free(&mut self) -> (r: Option<Held>)
        requires
            old(self).wf(),
        ensures
            final(self).wf(),
            r == old(self).lock,
            final(self).lock is None,
            final(self).regions == old(self).regions,
            final(self).current_bounds == old(self).current_bounds,
    {
        let held = self.lock;
        self.lock = None;
        held
    }

    /// The region that holds `index`: its first index and its place. The
    /// region used last is tried first.
    pub fn get_region(&self, index: usize) -> (r: (usize, usize))
        requires
            self.wf(),
            self.regions.covers(index),
        ensures
            self.regions.holds(r.1 as int, index),
            r.0 == self.regions.regions[r.1 as int].0,
    {
        match self.current_bounds {
            Some((place, lower, upper)) => {
                if lower <= index && upper > index {
                    (lower, place)
                } else {
                    self.regions.find(index)
                }
            },
            None => self.regions.find(index),
        }
    }

    /// Takes the region that holds `index` for reading. The result is the
    /// place of the region, its first index, and what has to be done to the
    /// locks.
    pub fn read(&mut self, index: usize) -> (r: ((usize, usize), Transition))
        requires
            old(self).wf(),
            old(self).regions.covers(index),
        ensures
            final(self).wf(),
            final(self).regions == old(self).regions,
            old(self).regions.holds(r.0.0 as int, index),
            r.0.1 == old(self).regions.regions[r.0.0 as int].0,
            r.1 == read_transition(old(self).lock, r.0.0),
            final(self).lock == lock_after(old(self).lock, r.1),
            final(self).current_bounds == bounds_after(
                old(self).regions,
                old(self).current_bounds,
                r.1,
            ),
    {
        let (lower, place) = self.get_region(index);
        match self.lock {
            Some(held) => {
                if held.region == place {
                    return ((place, lower), Transition::Keep);
                }
            },
            None => {},
        }
        let release = self.lock;
        self.lock = Some(Held { region: place, state: LockState::Read });
        self.current_bounds = Some((place, lower, self.regions.upper_bound(place)));
        ((place, lower), Transition::Acquire { release, region: place, state: LockState::Read })
    }

    /// Takes the region that holds `index` for writing. A region that is
    /// held for reading goes on to writing in place.
    pub fn write(&mut self, index: usize) -> (r: ((usize, usize), Transition))
        requires
            old(self).wf(),
            old(self).regions.covers(index),
        ensures
            final(self).wf(),
            final(self).regions == old(self).regions,
            old(self).regions.holds(r.0.0 as int, index),
            r.0.1 == old(self).regions.regions[r.0.0 as int].0,
            r.1 == write_transition(old(self).lock, r.0.0),
            final(self).lock == lock_after(old(self).lock, r.1),
            final(self).current_bounds == bounds_after(
                old(self).regions,
                old(self).current_bounds,
                r.1,
            ),
    {
        let (lower, place) = self.get_region(index);
        match self.lock {
            Some(held) => {
                if held.region == place {
                    match held.state {
                        LockState::Write => {
                            return ((place, lower), Transition::Keep);
                        },
                        LockState::Read => {
                            self.lock = Some(Held { region: place, state: LockState::Write });
                            return ((place, lower), Transition::Upgrade);
                        },
                    }
                }
            },
            None => {},
        }
        let release = self.lock;
        self.lock = Some(Held { region: place, state: LockState::Write });
        self.current_bounds = Some((place, lower, self.regions.upper_bound(place)));
        ((place, lower), Transition::Acquire { release, region: place, state: LockState::Write })
    }

    /// Takes the region at `place` for reading.
    pub fn read_region(&mut self, place: usize) -> (r: Transition)
        requires
            old(self).wf(),
            place < old(self).regions.len,
        ensures
            final(self).wf(),
            final(self).regions == old(self).regions,
            r == read_transition(old(self).lock, place),
            final(self).lock == lock_after(old(self).lock, r),
            final(self).current_bounds == bounds_after(
                old(self).regions,
                old(self).current_bounds,
                r,
            ),
    {
        match self.lock {
            Some(held) => {
                if held.region == place {
                    return Transition::Keep;
                }
            },
            None => {},
        }
        let release = self.lock;
        let bounds = self.regions.regions[place];
        self.lock = Some(Held { region: place, state: LockState::Read });
        self.current_bounds = Some((place, bounds.0, bounds.1));
        Transition::Acquire { release, region: place, state: LockState::Read }
    }

    /// Takes the region at `place` for writing.
    pub fn write_region(&mut self, place: usize) -> (r: Transition)
        requires
            old(self).wf(),
            place < old(self).regions.len,
        ensures
            final(self).wf(),
            final(self).regions == old(self).regions,
            r == write_transition(old(self).lock, place),
            final(self).lock == lock_after(old(self).lock, r),
            final(self).current_bounds == bounds_after(
                old(self).regions,
                old(self).current_bounds,
                r,
            ),
    {
        match self.lock {
            Some(held) => {
                if held.region == place {
                    match held.state {
                        LockState::Write => {
                            return Transition::Keep;
                        },
                        LockState::Read => {
                            self.lock = Some(Held { region: place, state: LockState::Write });
                            return Transition::Upgrade;
                        },
                    }
                }
            },
            None => {},
        }
        let release = self.lock;
        let bounds = self.regions.regions[place];
        self.lock = Some(Held { region: place, state: LockState::Write });
        self.current_bounds = Some((place, bounds.0, bounds.1));
        Transition::Acquire { release, region: place, state: LockState::Write }
    }

    /// Whether one region holds all of `start..end`.
    pub fn same_region(&self, start: usize, end: usize) -> (r: bool)
        requires
            self.wf(),
        ensures
            r == in_one_region(self.regions, start, end),
    {
        if start > end || end == 0 {
            return false;
        }
        match (self.regions.locate(start), self.regions.locate(end - 1)) {
            (Some(a), Some(b)) => {
                proof {
                    if a.1 != b.1 {
                        assert forall|i: int|
                            !(self.regions.holds(i, start) && #[trigger] self.regions.holds(
                                i,
                                (end - 1) as usize,
                            )) by {
                            if self.regions.holds(i, start) && self.regions.holds(
                                i,
                                (end - 1) as usize,
                            ) {
                                law_one_region_holds(self.regions, i, a.1 as int, start);
                                law_one_region_holds(
                                    self.regions,
                                    i,
                                    b.1 as int,
                                    (end - 1) as usize,
                                );
                            }
                        }
                    } else {
                        assert(self.regions.holds(a.1 as int, (end - 1) as usize));
                    }
                }
                a.1 == b.1
            },
            (None, _) => {
                proof {
                    lemma_held_is_covered(self.regions, start);
                }
                false
            },
            (_, None) => {
                proof {
                    lemma_held_is_covered(self.regions, (end - 1) as usize);
                }
                false
            },
        }
    }
}

/// An index that a region holds lies at or after the first start and below
/// the largest index.
pub proof fn lemma_held_is_covered(regions: RegionArray, key: usize)
    requires
        regions.wf(),
    ensures
        forall|i: int| #[trigger] regions.holds(i, key) ==> regions.covers(key),
{
    assert forall|i: int| #[trigger] regions.holds(i, key) implies regions.covers(key) by {
        assert(starts_of(regions.regions@)[0] == regions.regions[0].0);
        assert(starts_of(regions.regions@)[i] == regions.regions[i].0);
        if i < regions.len - 1 {
            lemma_upper_below_later_start(regions, i, regions.len - 1);
        }
    }
}

/// One accessor that comes back to the region it holds does nothing to the
/// locks: reading keeps a lock of either kind, writing keeps a write lock,
/// and writing to a region that is held for reading goes on in place without
/// a release.
pub proof fn law_same_region_keeps_lock(region: usize, state: LockState)
    ensures
        read_transition(Some(Held { region, state }), region) == Transition::Keep,
        write_transition(Some(Held { region, state: LockState::Write }), region)
            == Transition::Keep,
        write_transition(Some(Held { region, state: LockState::Read }), region)
            == Transition::Upgrade,
        lock_after(
            Some(Held { region, state }),
            read_transition(Some(Held { region, state }), region),
        ) == Some(Held { region, state }),
{
}

/// An accessor that moves to another region releases the one it holds, as
/// it was acquired, before it acquires the other: it never holds two.
pub proof fn law_other_region_releases(held: usize, state: LockState, region: usize)
    requires
        held != region,
    ensures
        read_transition(Some(Held { region: held, state }), region) == (Transition::Acquire {
            release: Some(Held { region: held, state }),
            region,
            state: LockState::Read,
        }),
        write_transition(Some(Held { region: held, state }), region) == (Transition::Acquire {
            release: Some(Held { region: held, state }),
            region,
            state: LockState::Write,
        }),
{
}

/// An accessor remembers the bounds of the region it acquired last: one
/// that moves to a region it does not hold remembers that region's bounds
/// afterwards, and one that comes back to the region it holds remembers what
/// it remembered before.
pub proof fn law_acquired_region_is_remembered(
    regions: RegionArray,
    bounds: Option<(usize, usize, usize)>,
    lock: Option<Held>,
    region: usize,
)
    ensures
        !(lock matches Some(held) && held.region == region) ==> {
            let remembered = Some(
                (region, regions.regions[region as int].0, regions.regions[region as int].1),
            );
            &&& bounds_after(regions, bounds, read_transition(lock, region)) == remembered
            &&& bounds_after(regions, bounds, write_transition(lock, region)) == remembered
        },
        lock matches Some(held) && held.region == region ==> {
            &&& bounds_after(regions, bounds, read_transition(lock, region)) == bounds
            &&& bounds_after(regions, bounds, write_transition(lock, region)) == bounds
        },
{
}

/// The raw lock of `parking_lot`.
#[verifier::external_type_specification]
#[verifier::external_body]
pub struct ExRawRwLock(RawRwLock);

/// The reader-writer lock of `lock_api`, around the data it guards.
#[verifier::external_type_specification]
#[verifier::external_body]
#[verifier::reject_recursive_types(R)]
#[verifier::reject_recursive_types(T)]
pub struct ExRwLock<R, T: ?Sized>(RwLock<R, T>);

/// An upgradable read guard of `lock_api` on the items of a region.
#[verifier::external_body]
#[verifier::reject_recursive_types(T)]
struct ReadGuard<T> {
    guard: ArcRwLockUpgradableReadGuard<RawRwLock, Vec<T>>,
}

/// A write guard of `lock_api` on the items of a region.
#[verifier::external_body]
#[verifier::reject_recursive_types(T)]
struct WriteGuard<T> {
    guard: ArcRwLockWriteGuard<RawRwLock, Vec<T>>,
}

/// One region: the lock around its items, and the items that it was made
/// with. The number of its items never changes: items are read and replaced,
/// never added or taken away.
#[verifier::reject_recursive_types(T)]
struct Region<T> {
    lock: Arc<RwLock<RawRwLock, Vec<T>>>,
    made: Ghost<Seq<T>>,
}

/// A region that is held for reading, with the right to go on to writing:
/// the guard, and the items of the region. While the guard is held, nobody
/// writes to the region.
#[verifier::reject_recursive_types(T)]
struct ReadHold<T> {
    guard: ReadGuard<T>,
    items: Ghost<Seq<T>>,
}

/// A region that is held for writing: the guard, and the items of the
/// region. While the guard is held, nobody else reads or writes the region.
#[verifier::reject_recursive_types(T)]
struct WriteHold<T> {
    guard: WriteGuard<T>,
    items: Ghost<Seq<T>>,
}

/// What reading at offset `at` gives: the item that stands there, or nothing
/// past the last item.
pub open spec fn read_at<T>(items: Seq<T>, at: int) -> Option<T> {
    if 0 <= at < items.len() {
        Some(items[at])
    } else {
        None
    }
}

/// The items after `item` is written at offset `at`: past the last item
/// nothing is written.
pub open spec fn write_at<T>(items: Seq<T>, at: int, item: T) -> Seq<T> {
    if 0 <= at < items.len() {
        items.update(at, item)
    } else {
        items
    }
}

/// What reading the offsets `from..to` gives: the items that stand there,
/// up to the last item.
pub open spec fn read_run<T>(items: Seq<T>, from: int, to: int) -> Seq<T> {
    if 0 <= from < to && from < items.len() {
        items.subrange(
            from,
            if to < items.len() {
                to
            } else {
                items.len() as int
            },
        )
    } else {
        Seq::empty()
    }
}

/// The items after those of `val` are written at `from` and after it, one
/// after the other: those that fall past the last item are not written.
pub open spec fn write_run<T>(items: Seq<T>, from: int, val: Seq<T>) -> Seq<T> {
    Seq::new(
        items.len(),
        |j: int|
            if from <= j < from + val.len() {
                val[j - from]
            } else {
                items[j]
            },
    )
}

/// What is written inside a region is read back from there, and every other
/// item is what it was. What is written past the last item changes nothing.
pub proof fn law_what_is_written_is_read_back<T>(items: Seq<T>, at: int, item: T, other: int)
    ensures
        0 <= at < items.len() ==> read_at(write_at(items, at, item), at) == Some(item),
        other != at ==> read_at(write_at(items, at, item), other) == read_at(items, other),
        !(0 <= at < items.len()) ==> write_at(items, at, item) == items,
        write_at(items, at, item).len() == items.len(),
{
}

/// `RwLock::new` and `Arc::new`: a region that is made with `items`,
/// behind a lock of its own.
#[verifier::external_body]
fn new_region<T>(items: Vec<T>) -> (r: Region<T>)
    ensures
        r.made@ == items@,
{
    Region { made: Ghost(items@), lock: Arc::new(RwLock::new(items)) }
}

/// `Arc::clone`: one more handle to the same region, which was made with
/// the same items.
#[verifier::external_body]
fn share_region<T>(region: &Region<T>) -> (r: Region<T>)
    ensures
        r.made@ == region.made@,
{
    Region { made: Ghost(region.made@), lock: Arc::clone(&region.lock) }
}

/// `RwLock::upgradable_read_arc`: waits until the region can be read, then
/// holds it. What the region holds then is open, but for the number of its
/// items.
#[verifier::external_body]
fn acquire_upgradable<T>(region: &Region<T>) -> (r: ReadHold<T>)
    ensures
        r.items@.len() == region.made@.len(),
{
    ReadHold {
        items: Ghost(arbitrary()),
        guard: ReadGuard { guard: region.lock.upgradable_read_arc() },
    }
}

/// `RwLock::write_arc`: waits until the region can be written, then holds
/// it alone. What the region holds then is open, but for the number of its
/// items.
#[verifier::external_body]
fn acquire_exclusive<T>(region: &Region<T>) -> (r: WriteHold<T>)
    ensures
        r.items@.len() == region.made@.len(),
{
    WriteHold { items: Ghost(arbitrary()), guard: WriteGuard { guard: region.lock.write_arc() } }
}

/// `ArcRwLockUpgradableReadGuard::upgrade`: goes on from reading to writing
/// without a release, so the region holds what it held.
#[verifier::external_body]
fn upgrade<T>(hold: ReadHold<T>) -> (r: WriteHold<T>)
    ensures
        r.items@ == hold.items@,
{
    WriteHold {
        items: Ghost(hold.items@),
        guard: WriteGuard { guard: ArcRwLockUpgradableReadGuard::upgrade(hold.guard.guard) },
    }
}

/// Reads through the guard with `slice::get`: the item at `at`, or `None`
/// past the last item of the region.
#[verifier::external_body]
fn read_shared<T: Copy>(hold: &ReadHold<T>, at: usize) -> (r: Option<T>)
    ensures
        r == read_at(hold.items@, at as int),
{
    hold.guard.guard.get(at).copied()
}

/// Reads through the guard with `slice::get`: the item at `at`, or `None`
/// past the last item of the region.
#[verifier::external_body]
fn read_exclusive<T: Copy>(hold: &WriteHold<T>, at: usize) -> (r: Option<T>)
    ensures
        r == read_at(hold.items@, at as int),
{
    hold.guard.guard.get(at).copied()
}

/// Writes through the guard with `slice::get_mut`: puts `item` at `at` and
/// says `true`, or changes nothing and says `false` past the last item of the
/// region.
#[verifier::external_body]
fn write_exclusive<T>(hold: &mut WriteHold<T>, at: usize, item: T) -> (r: bool)
    ensures
        r == (at < old(hold).items@.len()),
        final(hold).items@ == write_at(old(hold).items@, at as int, item),
{
    match hold.guard.guard.get_mut(at) {
        Some(slot) => {
            *slot = item;
            true
        },
        None => false,
    }
}

/// Whether the bounds cut a buffer of `n` items into regions: there is at
/// least one, each lies in the buffer, and each ends at or before the start
/// of the next.
pub open spec fn valid_split(bounds: Seq<(usize, usize)>, n: nat) -> bool {
    &&& bounds.len() > 0
    &&& forall|i: int| 0 <= i < bounds.len() ==> (#[trigger] bounds[i]).0 <= bounds[i].1 <= n
    &&& forall|i: int| 0 <= i < bounds.len() - 1 ==> (#[trigger] bounds[i]).1 <= bounds[i + 1].0
}

/// The starts of a valid split stand in ascending order.
pub proof fn lemma_valid_split_ascends(bounds: Seq<(usize, usize)>, n: nat, i: int, j: int)
    requires
        valid_split(bounds, n),
        0 <= i <= j < bounds.len(),
    ensures
        bounds[i].0 <= bounds[j].0,
    decreases j - i,
{
    if i < j {
        lemma_valid_split_ascends(bounds, n, i + 1, j);
    }
}

/// Decides [`valid_split`].
pub fn is_valid_split(bounds: &Vec<(usize, usize)>, n: usize) -> (r: bool)
    ensures
        r == valid_split(bounds@, n as nat),
{
    if bounds.len() == 0 {
        return false;
    }
    let mut i: usize = 0;
    while i < bounds.len()
        invariant
            i <= bounds.len(),
            forall|k: int| 0 <= k < i ==> (#[trigger] bounds[k]).0 <= bounds[k].1 <= n,
            forall|k: int| 0 <= k < i && k < bounds.len() - 1 ==> (#[trigger] bounds[k]).1
                <= bounds[k + 1].0,
        decreases bounds.len() - i,
    {
        let b = bounds[i];
        if b.0 > b.1 || b.1 > n {
            return false;
        }
        if i + 1 < bounds.len() {
            if b.1 > bounds[i + 1].0 {
                return false;
            }
        }
        i += 1;
    }
    true
}

/// The items of `data` from `from` up to, and without, `to`.
pub fn cut<T: Copy>(data: &Vec<T>, from: usize, to: usize) -> (r: Vec<T>)
    requires
        from <= to <= data.len(),
    ensures
        r@ == data@.subrange(from as int, to as int),
{
    let mut items: Vec<T> = Vec::new();
    let mut j: usize = from;
    while j < to
        invariant
            from <= j <= to <= data.len(),
            items@ == data@.subrange(from as int, j as int),
        decreases to - j,
    {
        items.push(data[j]);
        assert(items@ =~= data@.subrange(from as int, j + 1));
        j += 1;
    }
    items
}

/// The offsets of `count` items in a row, the first at `first`.
pub fn offsets(first: usize, count: usize) -> (r: Vec<usize>)
    requires
        first + count <= usize::MAX,
    ensures
        r.len() == count,
        forall|k: int| 0 <= k < count ==> r[k] == first + k,
{
    let mut r: Vec<usize> = Vec::new();
    let mut k: usize = 0;
    while k < count
        invariant
            k <= count,
            first + count <= usize::MAX,
            r.len() == k,
            forall|j: int| 0 <= j < k ==> r[j] == first + j,
        decreases count - k,
    {
        r.push(first + k);
        k += 1;
    }
    r
}

/// The items that were read, in their order, up to the first place where
/// nothing was read.
pub fn gather<T: Copy>(read: &Vec<Option<T>>) -> (r: Vec<T>)
    ensures
        r.len() <= read.len(),
        forall|i: int| 0 <= i < r.len() ==> read[i] == Some(r[i]),
        r.len() < read.len() ==> read[r.len() as int] is None,
{
    let mut r: Vec<T> = Vec::new();
    let mut i: usize = 0;
    while i < read.len()
        invariant
            i == r.len(),
            i <= read.len(),
            forall|j: int| 0 <= j < i ==> read[j] == Some(r[j]),
        decreases read.len() - i,
    {
        match read[i] {
            Some(item) => {
                r.push(item);
            },
            None => {
                return r;
            },
        }
        i += 1;
    }
    r
}

/// Whether every write was done.
pub fn all_written(done: &Vec<bool>) -> (r: bool)
    ensures
        r == forall|i: int| 0 <= i < done.len() ==> done[i],
{
    let mut i: usize = 0;
    while i < done.len()
        invariant
            i <= done.len(),
            forall|j: int| 0 <= j < i ==> done[j],
        decreases done.len() - i,
    {
        if !done[i] {
            return false;
        }
        i += 1;
    }
    true
}

/// Writing the first `n` items of `val` one by one, each at the offset that
/// follows the one before, is writing them as a run.
pub proof fn lemma_writes_make_a_run<T>(items: Seq<T>, first: int, val: Seq<T>, n: int)
    requires
        0 <= first,
        0 <= n < val.len(),
    ensures
        write_at(write_run(items, first, val.take(n)), first + n, val[n]) == write_run(
            items,
            first,
            val.take(n + 1),
        ),
{
    let before = write_run(items, first, val.take(n));
    let after = write_run(items, first, val.take(n + 1));
    assert(write_at(before, first + n, val[n]) =~= after);
}

/// One accessor to a buffer that is cut into regions. It holds at most one
/// region at a time; several accessors share the regions.
#[verifier::reject_recursive_types(T)]
pub struct RegionGuard<T> {
    locks: RegionLock,
    regions: Vec<Region<T>>,
    reading: Option<ReadHold<T>>,
    writing: Option<WriteHold<T>>,
}

impl<T: Copy> RegionGuard<T> {
    /// The guards that the accessor holds are those that `lock` tells of.
    pub closed spec fn holds_as(self, lock: Option<Held>) -> bool {
        match lock {
            None => self.reading is None && self.writing is None,
            Some(Held { state: LockState::Read, .. }) => self.reading is Some && self.writing
                is None,
            Some(Held { state: LockState::Write, .. }) => self.reading is None && self.writing
                is Some,
        }
    }

    /// The locks as the accessor sees them.
    pub closed spec fn state(self) -> RegionLock {
        self.locks
    }

    /// The items of the region that the accessor holds, in their order;
    /// none where it holds no region. They stay what they are until the
    /// accessor writes to the region or lets it go.
    pub closed spec fn held(self) -> Seq<T> {
        match self.reading {
            Some(hold) => hold.items@,
            None => match self.writing {
                Some(hold) => hold.items@,
                None => Seq::empty(),
            },
        }
    }

    /// The items that each region was made with, by the place of the
    /// region. What a region holds later is what accessors have written to it
    /// since.
    pub closed spec fn made(self) -> Seq<Seq<T>> {
        Seq::new(self.regions.len() as nat, |i: int| self.regions[i].made@)
    }

    /// How many items each region has, by the place of the region: as many
    /// as it was made with.
    pub open spec fn sizes(self) -> Seq<nat> {
        Seq::new(self.made().len(), |i: int| self.made()[i].len())
    }

    /// The offset of `index` in the region that the accessor holds.
    pub open spec fn offset(self, index: usize) -> int {
        index - self.state().regions.regions[self.state().lock->0.region as int].0
    }

    /// Whether the accessor holds, as `self`, the region that it held as
    /// `before`.
    pub open spec fn kept(self, before: Self) -> bool {
        before.state().lock matches Some(held) && self.state().lock matches Some(now)
            && held.region == now.region
    }

    /// The locks as the accessor sees them.
    pub fn locks(&self) -> (r: &RegionLock)
        ensures
            *r == self.state(),
    {
        &self.locks
    }

    pub closed spec fn wf(self) -> bool {
        &&& self.locks.wf()
        &&& self.regions.len() == self.locks.regions.len
        &&& self.holds_as(self.locks.lock)
        &&& self.sized(self.locks.lock)
    }

    /// The region that `lock` tells of has as many items as are held, and
    /// no region has more items than can be counted.
    closed spec fn sized(self, lock: Option<Held>) -> bool {
        &&& lock matches Some(held) ==> held.region < self.regions.len() && self.held().len()
            == self.regions[held.region as int].made@.len()
        &&& forall|i: int| 0 <= i < self.regions.len() ==> (#[trigger] self.regions[i]).made@.len() <= usize::MAX
    }

    /// An accessor in good order sees its locks in good order, knows the
    /// size of every region, and holds as many items as the region it holds
    /// has.
    pub proof fn lemma_state_is_in_order(self)
        requires
            self.wf(),
        ensures
            self.state().wf(),
            self.sizes().len() == self.state().regions.len,
            forall|i: int| 0 <= i < self.sizes().len() ==> #[trigger] self.sizes()[i] <= usize::MAX,
            self.state().lock matches Some(held) ==> self.held().len() == self.sizes()[held.region as int],
            self.state().lock is None ==> self.held().len() == 0,
    {
    }

    /// Cuts `data` into the regions that `region_bounds` gives, each from
    /// its first index up to, and without, its second. `None` where the
    /// bounds are no valid split of the data.
    pub fn new(data: Vec<T>, region_bounds: Vec<(usize, usize)>) -> (r: Option<RegionGuard<T>>)
        ensures
            r is Some == valid_split(region_bounds@, data.len() as nat),
            r matches Some(guard) ==> guard.wf() && guard.state().lock is None && starts_of(
                guard.state().regions.regions@,
            ) == starts_of(region_bounds@) && guard.state().regions.len == region_bounds.len()
                && guard.made().len() == region_bounds.len() && forall|i: int|
                0 <= i < region_bounds.len() ==> #[trigger] guard.made()[i] == data@.subrange(
                    region_bounds[i].0 as int,
                    region_bounds[i].1 as int,
                ),
    {
        if !is_valid_split(&region_bounds, data.len()) {
            return None;
        }
        let mut starts: Vec<(usize, usize)> = Vec::new();
        let mut regions: Vec<Region<T>> = Vec::new();
        let mut i: usize = 0;
        while i < region_bounds.len()
            invariant
                i <= region_bounds.len(),
                valid_split(region_bounds@, data.len() as nat),
                regions.len() == i,
                starts.len() == i,
                starts_of(starts@) == starts_of(region_bounds@).take(i as int),
                forall|k: int|
                    0 <= k < i ==> (#[trigger] regions[k]).made@ == data@.subrange(
                        region_bounds[k].0 as int,
                        region_bounds[k].1 as int,
                    ),
            decreases region_bounds.len() - i,
        {
            let (from, to) = region_bounds[i];
            regions.push(new_region(cut(&data, from, to)));
            starts.push((from, i));
            assert(starts_of(starts@) =~= starts_of(region_bounds@).take(i + 1));
            i += 1;
        }
        assert(starts_of(region_bounds@).take(i as int) =~= starts_of(region_bounds@));
        proof {
            assert forall|a: int, b: int| 0 <= a <= b < starts_of(starts@).len() implies starts_of(
                starts@,
            )[a] <= starts_of(starts@)[b] by {
                lemma_valid_split_ascends(region_bounds@, data.len() as nat, a, b);
            }
        }
        let array = RegionArray::from_regions(starts);
        Some(RegionGuard { locks: RegionLock::new(array), regions, reading: None, writing: None })
    }

    /// One more accessor to the same regions. It holds nothing.
    pub fn share(&self) -> (r: RegionGuard<T>)
        requires
            self.wf(),
        ensures
            r.wf(),
            r.state().lock is None,
            r.state().regions.regions@ == self.state().regions.regions@,
            r.made() == self.made(),
    {
        let mut regions: Vec<Region<T>> = Vec::new();
        let mut bounds: Vec<(usize, usize)> = Vec::new();
        let mut i: usize = 0;
        while i < self.regions.len()
            invariant
                i <= self.regions.len(),
                self.regions.len() == self.locks.regions.regions.len(),
                regions.len() == i,
                bounds@ == self.locks.regions.regions@.take(i as int),
                forall|k: int| 0 <= k < i ==> (#[trigger] regions[k]).made@ == self.regions[k].made@,
            decreases self.regions.len() - i,
        {
            regions.push(share_region(&self.regions[i]));
            bounds.push(self.locks.regions.regions[i]);
            assert(bounds@ =~= self.locks.regions.regions@.take(i + 1));
            i += 1;
        }
        assert(self.locks.regions.regions@.take(i as int) =~= self.locks.regions.regions@);
        let array = RegionArray {
            regions: bounds,
            len: self.locks.regions.len,
            avg: self.locks.regions.avg,
        };
        assert(starts_of(array.regions@) =~= starts_of(self.locks.regions.regions@));
        let r = RegionGuard { locks: RegionLock::new(array), regions, reading: None, writing: None };
        assert(r.made() =~= self.made());
        r
    }

    /// Does to the guards what a transition asks for. A region that stays
    /// held holds what it held.
    fn apply(&mut self, before: Option<Held>, t: Transition)
        requires
            old(self).state().wf(),
            old(self).regions.len() == old(self).state().regions.len,
            old(self).holds_as(before),
            old(self).sized(before),
            old(self).state().lock == lock_after(before, t),
            t is Upgrade ==> before matches Some(Held { state: LockState::Read, .. }),
            t is Keep ==> before is Some,
            t matches Transition::Acquire { region, .. } ==> region < old(self).regions.len(),
        ensures
            final(self).wf(),
            final(self).state() == old(self).state(),
            final(self).regions == old(self).regions,
            final(self).state().lock is Some,
            !(t is Acquire) ==> final(self).held() == old(self).held(),
    {
        match t {
            Transition::Keep => {},
            Transition::Upgrade => {
                match self.reading.take() {
                    Some(hold) => {
                        self.writing = Some(upgrade(hold));
                    },
                    None => {},
                }
            },
            Transition::Acquire { release: _, region, state } => {
                self.reading = None;
                self.writing = None;
                match state {
                    LockState::Read => {
                        self.reading = Some(acquire_upgradable(&self.regions[region]));
                    },
                    LockState::Write => {
                        self.writing = Some(acquire_exclusive(&self.regions[region]));
                    },
                }
            },
        }
    }

    /// Reads the item at offset `at` of the region that is held: through
    /// the guard for reading where there is one, else through the guard for
    /// writing. Where no region is held, there is nothing to read.
    fn peek(&self, at: usize) -> (r: Option<T>)
        ensures
            r == read_at(self.held(), at as int),
    {
        match &self.reading {
            Some(hold) => read_shared(hold, at),
            None => match &self.writing {
                Some(hold) => read_exclusive(hold, at),
                None => None,
            },
        }
    }

    /// Writes the item at offset `at` of the region that is held for
    /// writing. Nothing is written, and the result is false, where no region
    /// is held for writing. The accessor holds afterwards what it held
    /// before.
    fn poke(&mut self, at: usize, item: T) -> (r: bool)
        ensures
            final(self).state() == old(self).state(),
            final(self).regions == old(self).regions,
            final(self).reading == old(self).reading,
            final(self).writing is Some == old(self).writing is Some,
            old(self).writing is None ==> !r && final(self).held() == old(self).held(),
            old(self).reading is None && old(self).writing is Some ==> r == (at < old(self).held().len())
                && final(self).held() == write_at(old(self).held(), at as int, item),
    {
        match self.writing.take() {
            Some(hold) => {
                let mut hold = hold;
                let done = write_exclusive(&mut hold, at, item);
                self.writing = Some(hold);
                done
            },
            None => false,
        }
    }

    /// Reads at each of the offsets `at`, in their order, in the region that
    /// is held.
    fn peek_each(&self, at: &Vec<usize>) -> (r: Vec<Option<T>>)
        ensures
            r.len() == at.len(),
            forall|i: int| 0 <= i < r.len() ==> #[trigger] r[i] == read_at(self.held(), at[i] as int),
    {
        let mut r: Vec<Option<T>> = Vec::new();
        let mut i: usize = 0;
        while i < at.len()
            invariant
                i <= at.len(),
                r.len() == i,
                forall|j: int| 0 <= j < i ==> #[trigger] r[j] == read_at(self.held(), at[j] as int),
            decreases at.len() - i,
        {
            r.push(self.peek(at[i]));
            i += 1;
        }
        r
    }

    /// Writes the first items of `val`, one for each offset of `at`, which
    /// follow one another from `first`, in the region that is held for
    /// writing. The result says of each write whether it was done.
    fn poke_each(&mut self, first: usize, at: &Vec<usize>, val: &Vec<T>) -> (r: Vec<bool>)
        requires
            at.len() <= val.len(),
            forall|k: int| 0 <= k < at.len() ==> at[k] == first + k,
            old(self).reading is None,
            old(self).writing is Some,
        ensures
            r.len() == at.len(),
            final(self).state() == old(self).state(),
            final(self).regions == old(self).regions,
            final(self).reading is None,
            final(self).writing is Some,
            forall|i: int| 0 <= i < r.len() ==> #[trigger] r[i] == (first + i < old(self).held().len()),
            final(self).held() == write_run(
                old(self).held(),
                first as int,
                val@.take(at.len() as int),
            ),
    {
        let mut r: Vec<bool> = Vec::new();
        let mut i: usize = 0;
        assert(self.held() =~= write_run(self.held(), first as int, val@.take(0)));
        while i < at.len()
            invariant
                i <= at.len() <= val.len(),
                forall|k: int| 0 <= k < at.len() ==> at[k] == first + k,
                r.len() == i,
                self.state() == old(self).state(),
                self.regions == old(self).regions,
                self.reading is None,
                self.writing is Some,
                forall|j: int| 0 <= j < i ==> #[trigger] r[j] == (first + j < old(self).held().len()),
                self.held() == write_run(old(self).held(), first as int, val@.take(i as int)),
            decreases at.len() - i,
        {
            proof {
                lemma_writes_make_a_run(old(self).held(), first as int, val@, i as int);
            }
            r.push(self.poke(at[i], val[i]));
            i += 1;
        }
        r
    }

    /// The item at `index`, or `None` where the region that holds the index
    /// has no item there. The accessor takes the region for reading, unless it
    /// holds it already; a region that it held already holds what it held.
    pub fn index(&mut self, index: usize) -> (r: Option<T>)
        requires
            old(self).wf(),
            old(self).state().regions.covers(index),
        ensures
            final(self).wf(),
            final(self).state().regions == old(self).state().regions,
            final(self).made() == old(self).made(),
            final(self).held().len() == final(self).sizes()[final(self).state().lock->0.region as int],
            final(self).state().lock matches Some(held) && old(self).state().regions.holds(
                held.region as int,
                index,
            ),
            final(self).state().lock == lock_after(
                old(self).state().lock,
                read_transition(old(self).state().lock, final(self).state().lock->0.region),
            ),
            r == read_at(final(self).held(), final(self).offset(index)),
            final(self).kept(*old(self)) ==> final(self).held() == old(self).held(),
    {
        let before = self.locks.lock;
        let ((_, key), t) = self.locks.read(index);
        self.apply(before, t);
        self.peek(index - key)
    }

    /// The item at offset `place.1` of the region at `place.0`, or `None`
    /// where the region has no item there.
    pub fn index_2(&mut self, place: (usize, usize)) -> (r: Option<T>)
        requires
            old(self).wf(),
            place.0 < old(self).state().regions.len,
        ensures
            final(self).wf(),
            final(self).state().regions == old(self).state().regions,
            final(self).made() == old(self).made(),
            final(self).held().len() == final(self).sizes()[final(self).state().lock->0.region as int],
            final(self).state().lock == lock_after(
                old(self).state().lock,
                read_transition(old(self).state().lock, place.0),
            ),
            r == read_at(final(self).held(), place.1 as int),
            final(self).kept(*old(self)) ==> final(self).held() == old(self).held(),
    {
        let before = self.locks.lock;
        let t = self.locks.read_region(place.0);
        self.apply(before, t);
        self.peek(place.1)
    }

    /// Puts `val` at `index`. The result is false, and nothing is put, where
    /// the region that holds the index has no item there. The accessor takes
    /// the region for writing, unless it holds it so already; in a region that
    /// it held already nothing else changes.
    pub fn set(&mut self, index: usize, val: T) -> (r: bool)
        requires
            old(self).wf(),
            old(self).state().regions.covers(index),
        ensures
            final(self).wf(),
            final(self).state().regions == old(self).state().regions,
            final(self).made() == old(self).made(),
            final(self).held().len() == final(self).sizes()[final(self).state().lock->0.region as int],
            final(self).state().lock matches Some(held) && held.state == LockState::Write
                && old(self).state().regions.holds(held.region as int, index),
            final(self).state().lock == lock_after(
                old(self).state().lock,
                write_transition(old(self).state().lock, final(self).state().lock->0.region),
            ),
            r == (final(self).offset(index) < final(self).held().len()),
            r ==> final(self).held()[final(self).offset(index)] == val,
            final(self).kept(*old(self)) ==> final(self).held() == write_at(
                old(self).held(),
                final(self).offset(index),
                val,
            ),
    {
        let before = self.locks.lock;
        let ((_, key), t) = self.locks.write(index);
        self.apply(before, t);
        self.poke(index - key, val)
    }

    /// Puts `val` at offset `place.1` of the region at `place.0`. The result
    /// is false, and nothing is put, where the region has no item there.
    pub fn set_2(&mut self, place: (usize, usize), val: T) -> (r: bool)
        requires
            old(self).wf(),
            place.0 < old(self).state().regions.len,
        ensures
            final(self).wf(),
            final(self).state().regions == old(self).state().regions,
            final(self).made() == old(self).made(),
            final(self).held().len() == final(self).sizes()[final(self).state().lock->0.region as int],
            final(self).state().lock == Some(Held { region: place.0, state: LockState::Write }),
            r == (place.1 < final(self).held().len()),
            r ==> final(self).held()[place.1 as int] == val,
            final(self).kept(*old(self)) ==> final(self).held() == write_at(
                old(self).held(),
                place.1 as int,
                val,
            ),
    {
        let before = self.locks.lock;
        let t = self.locks.write_region(place.0);
        self.apply(before, t);
        self.poke(place.1, val)
    }

    /// Puts the items of `val` at `index` and after it, all in the region
    /// that holds `index`: the first at the offset of `index` in that region,
    /// each of the others one after the one before. Those that fall past the
    /// last item of the region are not put, and the result says whether all
    /// were put.
    pub fn set_range(&mut self, index: usize, val: Vec<T>) -> (r: bool)
        requires
            old(self).wf(),
            old(self).state().regions.covers(index),
        ensures
            final(self).wf(),
            final(self).state().regions == old(self).state().regions,
            final(self).made() == old(self).made(),
            final(self).held().len() == final(self).sizes()[final(self).state().lock->0.region as int],
            final(self).state().lock matches Some(held) && held.state == LockState::Write
                && old(self).state().regions.holds(held.region as int, index),
            final(self).state().lock == lock_after(
                old(self).state().lock,
                write_transition(old(self).state().lock, final(self).state().lock->0.region),
            ),
            r == (val.len() == 0 || final(self).offset(index) + val.len() <= final(self).held().len()),
            forall|k: int|
                0 <= k < val.len() && final(self).offset(index) + k < final(self).held().len()
                    ==> final(self).held()[final(self).offset(index) + k] == #[trigger] val[k],
            final(self).kept(*old(self)) ==> final(self).held() == write_run(
                old(self).held(),
                final(self).offset(index),
                val@,
            ),
    {
        let before = self.locks.lock;
        let ((_, key), t) = self.locks.write(index);
        self.apply(before, t);
        let first = index - key;
        let count = if val.len() > usize::MAX - first {
            usize::MAX - first
        } else {
            val.len()
        };
        let at = offsets(first, count);
        let ghost taken = self.held();
        assert(taken.len() <= usize::MAX);
        let done = self.poke_each(first, &at, &val);
        proof {
            assert(write_run(taken, first as int, val@.take(count as int)) =~= write_run(
                taken,
                first as int,
                val@,
            ));
            if count > 0 {
                assert(done[count - 1] == (first + (count - 1) < taken.len()));
            }
            assert forall|k: int| 0 <= k < count && first + count <= taken.len() implies done[k] by {
                assert(done[k] == (first + k < taken.len()));
            }
        }
        count == val.len() && all_written(&done)
    }

    /// The items of `start..end`, which one region must hold: those that
    /// the region holds at the offset of `start` and after it, one for each
    /// index, up to the last item of the region. The accessor takes the region
    /// for reading, unless it holds it already.
    pub fn index_range(&mut self, start: usize, end: usize) -> (r: Vec<T>)
        requires
            old(self).wf(),
            in_one_region(old(self).state().regions, start, end),
        ensures
            final(self).wf(),
            final(self).state().regions == old(self).state().regions,
            final(self).made() == old(self).made(),
            final(self).held().len() == final(self).sizes()[final(self).state().lock->0.region as int],
            final(self).state().lock matches Some(held) && old(self).state().regions.holds(
                held.region as int,
                start,
            ),
            final(self).state().lock == lock_after(
                old(self).state().lock,
                read_transition(old(self).state().lock, final(self).state().lock->0.region),
            ),
            r@ == read_run(
                final(self).held(),
                final(self).offset(start),
                final(self).offset(start) + (end - start),
            ),
            final(self).kept(*old(self)) ==> final(self).held() == old(self).held(),
    {
        proof {
            lemma_held_is_covered(self.locks.regions, start);
        }
        let before = self.locks.lock;
        let ((_, key), t) = self.locks.read(start);
        self.apply(before, t);
        let first = start - key;
        let at = offsets(first, end - start);
        let read = self.peek_each(&at);
        let items = gather(&read);
        proof {
            let held = self.held();
            let wanted = read_run(held, first as int, first + (end - start));
            assert forall|k: int| 0 <= k < read.len() implies read[k] == read_at(
                held,
                first + k,
            ) by {
                assert(at[k] == first + k);
            }
            if items.len() < read.len() {
                assert(read[items.len() as int] is None);
            }
            if items.len() > 0 {
                assert(read[items.len() - 1] == Some(items[items.len() - 1]));
            }
            assert(items.len() == wanted.len());
            assert forall|k: int| 0 <= k < items.len() implies items[k] == wanted[k] by {
                assert(read[k] == Some(items[k]));
            }
            assert(items@ =~= wanted);
        }
        items
    }

    /// The items of `start..end`, or `None` where no single region holds
    /// them all.
    pub fn try_index_range(&mut self, start: usize, end: usize) -> (r: Option<Vec<T>>)
        requires
            old(self).wf(),
        ensures
            final(self).wf(),
            final(self).state().regions == old(self).state().regions,
            final(self).made() == old(self).made(),
            r is Some == in_one_region(old(self).state().regions, start, end),
            r is None ==> final(self).state() == old(self).state() && final(self).held() == old(
                self,
            ).held(),
            r matches Some(items) ==> {
                &&& final(self).state().lock matches Some(held) && old(self).state().regions.holds(
                    held.region as int,
                    start,
                )
                &&& final(self).state().lock == lock_after(
                    old(self).state().lock,
                    read_transition(old(self).state().lock, final(self).state().lock->0.region),
                )
                &&& items@ == read_run(
                    final(self).held(),
                    final(self).offset(start),
                    final(self).offset(start) + (end - start),
                )
                &&& final(self).kept(*old(self)) ==> final(self).held() == old(self).held()
            },
    {
        if self.locks.same_region(start, end) {
            Some(self.index_range(start, end))
        } else {
            None
        }
    }

    /// Releases the region that is held.
    pub fn free(&mut self)
        requires
            old(self).wf(),
        ensures
            final(self).wf(),
            final(self).state().lock is None,
            final(self).state().regions == old(self).state().regions,
            final(self).made() == old(self).made(),
    {
        self.locks.free();
        self.reading = None;
        self.writing = None;
    }
}

} // verus!
