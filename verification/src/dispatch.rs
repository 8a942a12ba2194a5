//! Partition of a three-dimensional grid among workers.
//!
//! The extent in `x` is cut into as many contiguous chunks as there are
//! workers. Each worker goes through its chunk in `x`, then `y`, then `z`.
//! What runs for each cell, and on which thread, is up to the caller.

use vstd::prelude::*;
use crate::types::Pos;

verus! {

/// How many columns a chunk holds before the extent runs out: the extent
/// divided by the number of workers, rounded up.
pub open spec fn iterations(x: nat, cores: nat) -> nat {
    if x % cores > 0 {
        x / cores + 1
    } else {
        x / cores
    }
}

/// The smaller of two numbers.
pub open spec fn least(a: nat, b: nat) -> nat {
    if a <= b {
        a
    } else {
        b
    }
}

/// Where the chunk of worker `i` starts.
pub open spec fn chunk_start(x: nat, cores: nat, i: nat) -> nat {
    least(i * iterations(x, cores), x)
}

/// Where the chunk of worker `i` ends: the last chunks hold what is left.
pub open spec fn chunk_end(x: nat, cores: nat, i: nat) -> nat {
    least((i + 1) * iterations(x, cores), x)
}

/// Whether column `a` lies in the chunk of worker `i`.
pub open spec fn in_chunk(x: nat, cores: nat, i: nat, a: nat) -> bool {
    chunk_start(x, cores, i) <= a < chunk_end(x, cores, i)
}

/// The chunks of all workers together hold at least the extent.
pub proof fn lemma_iterations_cover(x: nat, cores: nat)
    requires
        cores > 0,
    ensures
        cores * iterations(x, cores) >= x,
        x > 0 ==> iterations(x, cores) > 0,
        iterations(x, cores) <= x,
{
    vstd::arithmetic::div_mod::lemma_fundamental_div_mod(x as int, cores as int);
    let q = x / cores;
    let r = x % cores;
    assert(x == cores * q + r);
    if r > 0 {
        assert(cores * (q + 1) == cores * q + cores) by (nonlinear_arith);
        assert(q + 1 <= x) by (nonlinear_arith)
            requires
                x == cores * q + r,
                r > 0,
                cores > 0,
                q >= 0,
        ;
    } else {
        assert(q <= x) by (nonlinear_arith)
            requires
                x == cores * q,
                cores > 0,
                q >= 0,
        ;
        if x > 0 {
            assert(q > 0) by (nonlinear_arith)
                requires
                    x == cores * q,
                    x > 0,
                    cores > 0,
                    q >= 0,
            ;
        }
    }
}

/// The chunks lie one after the other: the first starts at zero, each ends
/// where the next starts, and the last ends with the extent.
pub proof fn law_chunks_are_contiguous(x: nat, cores: nat, i: nat)
    requires
        cores > 0,
        i < cores,
    ensures
        chunk_start(x, cores, 0) == 0,
        chunk_start(x, cores, i) <= chunk_end(x, cores, i),
        chunk_end(x, cores, i) == chunk_start(x, cores, i + 1),
        chunk_end(x, cores, (cores - 1) as nat) == x,
{
    lemma_iterations_cover(x, cores);
    let it = iterations(x, cores);
    assert(i * it <= (i + 1) * it) by (nonlinear_arith)
        requires
            it >= 0,
            i >= 0,
    ;
    assert(0 * it == 0) by (nonlinear_arith);
    assert(((cores - 1) as nat + 1) * it == cores * it);
}

/// Every column of the extent lies in the chunk of exactly one worker.
pub proof fn law_every_column_has_one_worker(x: nat, cores: nat, a: nat)
    requires
        cores > 0,
        a < x,
    ensures
        exists|i: nat| i < cores && in_chunk(x, cores, i, a),
        forall|i: nat, j: nat|
            i < cores && j < cores && in_chunk(x, cores, i, a) && in_chunk(x, cores, j, a) ==> i
                == j,
{
    lemma_iterations_cover(x, cores);
    let it = iterations(x, cores);
    let i = a / it;
    vstd::arithmetic::div_mod::lemma_fundamental_div_mod(a as int, it as int);
    let r = a % it;
    assert(a == it * i + r);
    assert(0 <= r < it);
    assert(i * it <= a) by (nonlinear_arith)
        requires
            a == it * i + r,
            r >= 0,
    ;
    assert((i + 1) * it > a) by (nonlinear_arith)
        requires
            a == it * i + r,
            r < it,
    ;
    assert(i < cores) by (nonlinear_arith)
        requires
            i * it <= a,
            a < x,
            cores * it >= x,
            it > 0,
            i >= 0,
            cores > 0,
    ;
    assert(in_chunk(x, cores, i, a));
    assert forall|p: nat, q: nat|
        p < cores && q < cores && in_chunk(x, cores, p, a) && in_chunk(x, cores, q, a) implies p
        == q by {
        if p < q {
            assert((p + 1) * it <= q * it) by (nonlinear_arith)
                requires
                    p + 1 <= q,
                    it >= 0,
            ;
        }
        if q < p {
            assert((q + 1) * it <= p * it) by (nonlinear_arith)
                requires
                    q + 1 <= p,
                    it >= 0,
            ;
        }
    }
}

/// One worker: its chunk in `x`, the extents in `y` and `z`, and the cell it
/// visits next. Once `next.x` has reached `end`, the worker is done.
#[derive(Clone, Copy, Debug, PartialEq, Eq, Structural)]
pub struct Worker {
    pub start: u32,
    pub end: u32,
    pub y: u32,
    pub z: u32,
    pub next: Pos,
}

impl Worker {
    /// The cell lies in the part of the grid that the worker goes through.
    pub open spec fn holds(self, p: Pos) -> bool {
        self.start <= p.x < self.end && p.y < self.y && p.z < self.z
    }

    /// The worker is at a cell of its part of the grid, or done.
    pub open spec fn wf(self) -> bool {
        self.start <= self.end && (self.holds(self.next) || self.next == (Pos {
            x: self.end,
            y: 0,
            z: 0,
        }))
    }

    /// How many cells the worker goes through.
    pub open spec fn count(self) -> nat {
        ((self.end - self.start) * self.y * self.z) as nat
    }

    /// The place of a cell in the order of the visit.
    pub open spec fn rank(self, p: Pos) -> int {
        ((p.x - self.start) * self.y + p.y) * self.z + p.z
    }

    /// The worker at the start of its visit.
    pub open spec fn fresh(start: u32, end: u32, y: u32, z: u32) -> Worker {
        Worker {
            start,
            end,
            y,
            z,
            next: if y == 0 || z == 0 {
                Pos { x: end, y: 0, z: 0 }
            } else {
                Pos { x: start, y: 0, z: 0 }
            },
        }
    }

    /// The worker after the visit of its next cell: `z` runs fastest, then
    /// `y`, then `x`.
    pub open spec fn step(self) -> Worker {
        if self.next.x >= self.end {
            self
        } else if self.next.z + 1 < self.z {
            Worker { next: Pos { z: (self.next.z + 1) as u32, ..self.next }, ..self }
        } else if self.next.y + 1 < self.y {
            Worker { next: Pos { x: self.next.x, y: (self.next.y + 1) as u32, z: 0 }, ..self }
        } else {
            Worker { next: Pos { x: (self.next.x + 1) as u32, y: 0, z: 0 }, ..self }
        }
    }

    /// The worker after `k` visits.
    pub open spec fn after(self, k: nat) -> Worker
        decreases k,
    {
        if k == 0 {
            self
        } else {
            self.after((k - 1) as nat).step()
        }
    }

    pub fn new(start: u32, end: u32, y: u32, z: u32) -> (r: Worker)
        requires
            start <= end,
        ensures
            r == Worker::fresh(start, end, y, z),
            r.wf(),
    {
        let next = if y == 0 || z == 0 {
            Pos { x: end, y: 0, z: 0 }
        } else {
            Pos { x: start, y: 0, z: 0 }
        };
        Worker { start, end, y, z, next }
    }

    /// The cell to visit next, or `None` once every cell was visited.
    pub fn next_cell(&mut self) -> (r: Option<Pos>)
        requires
            old(self).wf(),
        ensures
            final(self).wf(),
            *final(self) == old(self).step(),
            match r {
                Some(p) => p == old(self).next && old(self).holds(p),
                None => old(self).next.x == old(self).end,
            },
    {
        if self.next.x >= self.end {
            return None;
        }
        let p = self.next;
        if self.z - p.z > 1 {
            self.next = Pos { x: p.x, y: p.y, z: p.z + 1 };
        } else if self.y - p.y > 1 {
            self.next = Pos { x: p.x, y: p.y + 1, z: 0 };
        } else {
            self.next = Pos { x: p.x + 1, y: 0, z: 0 };
        }
        Some(p)
    }
}

/// A visit moves the worker on by one place in the order.
pub proof fn lemma_step_rank(w: Worker)
    requires
        w.wf(),
        w.next.x < w.end,
    ensures
        w.step().wf(),
        w.step().rank(w.step().next) == w.rank(w.next) + 1,
        w.rank(w.next) < w.count(),
        w.step().count() == w.count(),
{
    let dx = w.next.x - w.start;
    let y = w.y as int;
    let z = w.z as int;
    let py = w.next.y as int;
    let pz = w.next.z as int;
    let n = (w.end - w.start) as int;
    assert((dx * y + py) * z + pz < n * y * z) by (nonlinear_arith)
        requires
            0 <= dx < n,
            0 <= py < y,
            0 <= pz < z,
    ;
    assert(n * y * z >= 0) by (nonlinear_arith)
        requires
            n >= 0,
            y >= 0,
            z >= 0,
    ;
    if w.next.z + 1 < w.z {
    } else if w.next.y + 1 < w.y {
        assert((dx * y + (py + 1)) * z + 0 == (dx * y + py) * z + pz + 1) by (nonlinear_arith)
            requires
                pz + 1 == z,
        ;
    } else {
        assert(((dx + 1) * y + 0) * z + 0 == (dx * y + py) * z + pz + 1) by (nonlinear_arith)
            requires
                pz + 1 == z,
                py + 1 == y,
        ;
    }
}

/// After `k` visits the worker is at the cell of place `k`.
pub proof fn lemma_after_rank(w: Worker, k: nat)
    requires
        w.wf(),
        w.rank(w.next) == 0,
        k <= w.count(),
    ensures
        w.after(k).wf(),
        w.after(k).start == w.start,
        w.after(k).end == w.end,
        w.after(k).y == w.y,
        w.after(k).z == w.z,
        w.after(k).rank(w.after(k).next) == k,
        k < w.count() ==> w.holds(w.after(k).next),
    decreases k,
{
    if k > 0 {
        lemma_after_rank(w, (k - 1) as nat);
        let before = w.after((k - 1) as nat);
        assert(before.count() == w.count());
        lemma_exhausted_rank(before);
        lemma_step_rank(before);
    }
    lemma_exhausted_rank(w.after(k));
    assert(w.after(k).count() == w.count());
}

/// A worker that is done stands at the place that is the number of its
/// cells.
pub proof fn lemma_exhausted_rank(w: Worker)
    requires
        w.wf(),
    ensures
        w.next.x >= w.end ==> w.rank(w.next) == w.count(),
        w.next.x < w.end ==> w.holds(w.next),
{
    let n = (w.end - w.start) as int;
    let y = w.y as int;
    let z = w.z as int;
    assert(n * y * z >= 0) by (nonlinear_arith)
        requires
            n >= 0,
            y >= 0,
            z >= 0,
    ;
    assert((n * y + 0) * z + 0 == n * y * z) by (nonlinear_arith);
}

/// Two cells of the part of the grid that have the same place in the order
/// are the same cell.
pub proof fn lemma_rank_injective(w: Worker, p: Pos, q: Pos)
    requires
        w.holds(p),
        w.holds(q),
        w.rank(p) == w.rank(q),
    ensures
        p == q,
{
    let y = w.y as int;
    let z = w.z as int;
    let a = (p.x - w.start) * y + p.y;
    let b = (q.x - w.start) * y + q.y;
    assert(a == b) by (nonlinear_arith)
        requires
            a * z + p.z == b * z + q.z,
            0 <= p.z < z,
            0 <= q.z < z,
    ;
    let dp = (p.x - w.start) as int;
    let dq = (q.x - w.start) as int;
    assert(dp == dq) by (nonlinear_arith)
        requires
            dp * y + p.y == dq * y + q.y,
            0 <= p.y < y,
            0 <= q.y < y,
    ;
}

/// A worker visits every cell of its part of the grid exactly once: the
/// cell `p` is the next cell after `rank(p)` visits and after no other number
/// of visits below the number of cells.
pub proof fn law_worker_visits_each_cell_once(start: u32, end: u32, y: u32, z: u32, p: Pos)
    requires
        start <= end,
        Worker::fresh(start, end, y, z).holds(p),
    ensures
        ({
            let w = Worker::fresh(start, end, y, z);
            &&& 0 <= w.rank(p) < w.count()
            &&& w.after(w.rank(p) as nat).next == p
            &&& forall|k: nat| k < w.count() && w.after(k).next == p ==> k == w.rank(p)
        }),
{
    let w = Worker::fresh(start, end, y, z);
    assert(w.rank(w.next) == 0) by (nonlinear_arith)
        requires
            w.next == (Pos { x: start, y: 0, z: 0 }),
            w.start == start,
    ;
    let at_cell = Worker { next: p, ..w };
    lemma_step_rank(at_cell);
    assert(at_cell.rank(p) == w.rank(p));
    assert(at_cell.count() == w.count());
    let k = w.rank(p);
    assert(k >= 0) by (nonlinear_arith)
        requires
            k == ((p.x - w.start) * w.y + p.y) * w.z + p.z,
            p.x >= w.start,
    ;
    lemma_after_rank(w, k as nat);
    lemma_rank_injective(w, w.after(k as nat).next, p);
    assert forall|j: nat| j < w.count() && w.after(j).next == p implies j == w.rank(p) by {
        lemma_after_rank(w, j);
    }
}

/// The worker `i` of a dispatch at the start of its visit.
pub open spec fn worker(x: u32, y: u32, z: u32, cores: u32, i: nat) -> Worker {
    Worker::fresh(
        chunk_start(x as nat, cores as nat, i) as u32,
        chunk_end(x as nat, cores as nat, i) as u32,
        y,
        z,
    )
}

/// Every cell of the grid is visited exactly once across all workers: one
/// worker visits it, after as many visits as the place of the cell in its
/// order says, and no worker visits it at any other time.
pub proof fn law_every_cell_is_visited_once(x: u32, y: u32, z: u32, cores: u32, p: Pos)
    requires
        cores > 0,
        p.x < x,
        p.y < y,
        p.z < z,
    ensures
        exists|i: nat|
            i < cores && (#[trigger] worker(x, y, z, cores, i)).holds(p) && worker(
                x,
                y,
                z,
                cores,
                i,
            ).after(worker(x, y, z, cores, i).rank(p) as nat).next == p,
        forall|i: nat, j: nat, k: nat, l: nat|
            i < cores && j < cores && k < worker(x, y, z, cores, i).count() && l < worker(
                x,
                y,
                z,
                cores,
                j,
            ).count() && (#[trigger] worker(x, y, z, cores, i).after(k)).next == p && (
            #[trigger] worker(x, y, z, cores, j).after(l)).next == p ==> i == j && k == l,
{
    law_every_column_has_one_worker(x as nat, cores as nat, p.x as nat);
    let i = choose|i: nat| i < cores && in_chunk(x as nat, cores as nat, i, p.x as nat);
    lemma_chunk_fits(x, cores, i);
    let w = worker(x, y, z, cores, i);
    assert(w.holds(p));
    law_worker_visits_each_cell_once(w.start, w.end, y, z, p);
    assert forall|a: nat, b: nat, k: nat, l: nat|
        a < cores && b < cores && k < worker(x, y, z, cores, a).count() && l < worker(
            x,
            y,
            z,
            cores,
            b,
        ).count() && (#[trigger] worker(x, y, z, cores, a).after(k)).next == p && (
        #[trigger] worker(x, y, z, cores, b).after(l)).next == p implies a == b && k == l by {
        lemma_visited_is_held(x, y, z, cores, a, k);
        lemma_visited_is_held(x, y, z, cores, b, l);
        lemma_chunk_fits(x, cores, a);
        lemma_chunk_fits(x, cores, b);
        assert(in_chunk(x as nat, cores as nat, a, p.x as nat));
        assert(in_chunk(x as nat, cores as nat, b, p.x as nat));
        let wa = worker(x, y, z, cores, a);
        law_worker_visits_each_cell_once(wa.start, wa.end, y, z, p);
    }
}

/// The bounds of a chunk fit the machine as the extent does.
pub proof fn lemma_chunk_fits(x: u32, cores: u32, i: nat)
    requires
        cores > 0,
        i < cores,
    ensures
        chunk_start(x as nat, cores as nat, i) <= chunk_end(x as nat, cores as nat, i) <= x,
        worker(x, 0, 0, cores, i).start == chunk_start(x as nat, cores as nat, i),
        worker(x, 0, 0, cores, i).end == chunk_end(x as nat, cores as nat, i),
{
    law_chunks_are_contiguous(x as nat, cores as nat, i);
}

/// What a worker visits lies in its part of the grid.
pub proof fn lemma_visited_is_held(x: u32, y: u32, z: u32, cores: u32, i: nat, k: nat)
    requires
        cores > 0,
        i < cores,
        k < worker(x, y, z, cores, i).count(),
    ensures
        worker(x, y, z, cores, i).holds(worker(x, y, z, cores, i).after(k).next),
{
    lemma_chunk_fits(x, cores, i);
    let w = worker(x, y, z, cores, i);
    assert(w.count() > 0);
    assert(w.y > 0 && w.z > 0) by (nonlinear_arith)
        requires
            ((w.end - w.start) * w.y * w.z) > 0,
            w.y >= 0,
            w.z >= 0,
            w.end - w.start >= 0,
    ;
    assert(w.rank(w.next) == 0) by (nonlinear_arith)
        requires
            w.next == (Pos { x: w.start, y: 0, z: 0 }),
    ;
    lemma_after_rank(w, k);
}

/// How many columns a chunk holds.
pub fn chunk_size(x: u32, cores: u32) -> (r: u32)
    requires
        cores > 0,
    ensures
        r == iterations(x as nat, cores as nat),
{
    if x % cores > 0 {
        proof {
            lemma_iterations_cover(x as nat, cores as nat);
        }
        x / cores + 1
    } else {
        x / cores
    }
}

/// The chunk of worker `i`.
pub fn chunk(x: u32, cores: u32, i: u32) -> (r: (u32, u32))
    requires
        cores > 0,
        i < cores,
    ensures
        r.0 == chunk_start(x as nat, cores as nat, i as nat),
        r.1 == chunk_end(x as nat, cores as nat, i as nat),
        r.0 <= r.1,
{
    let size = chunk_size(x, cores) as u64;
    proof {
        law_chunks_are_contiguous(x as nat, cores as nat, i as nat);
        assert(i as u64 * size <= 0xffff_ffff * 0xffff_ffff) by (nonlinear_arith)
            requires
                0 <= i <= 0xffff_ffff,
                0 <= size <= 0xffff_ffff,
        ;
        assert((i as u64 + 1) * size <= 0x1_0000_0000 * 0xffff_ffff) by (nonlinear_arith)
            requires
                0 <= i <= 0xffff_ffff,
                0 <= size <= 0xffff_ffff,
        ;
    }
    let from = i as u64 * size;
    let to = (i as u64 + 1) * size;
    let start = if from <= x as u64 {
        from as u32
    } else {
        x
    };
    let end = if to <= x as u64 {
        to as u32
    } else {
        x
    };
    (start, end)
}

/// The workers of a dispatch over `x`, `y` and `z`: worker `i` goes
/// through the chunk `i` of the extent in `x`, and through all of `y` and
/// `z`.
pub fn workers(x: u32, y: u32, z: u32, cores: u32) -> (r: Vec<Worker>)
    requires
        cores > 0,
    ensures
        r.len() == cores,
        forall|i: int|
            0 <= i < cores ==> #[trigger] r[i] == Worker::fresh(
                chunk_start(x as nat, cores as nat, i as nat) as u32,
                chunk_end(x as nat, cores as nat, i as nat) as u32,
                y,
                z,
            ),
        forall|i: int| 0 <= i < cores ==> (#[trigger] r[i]).wf(),
{
    let mut workers: Vec<Worker> = Vec::new();
    let mut i: u32 = 0;
    while i < cores
        invariant
            i <= cores,
            cores > 0,
            workers.len() == i,
            forall|j: int|
                0 <= j < i ==> #[trigger] workers[j] == Worker::fresh(
                    chunk_start(x as nat, cores as nat, j as nat) as u32,
                    chunk_end(x as nat, cores as nat, j as nat) as u32,
                    y,
                    z,
                ),
            forall|j: int| 0 <= j < i ==> (#[trigger] workers[j]).wf(),
        decreases cores - i,
    {
        let (start, end) = chunk(x, cores, i);
        workers.push(Worker::new(start, end, y, z));
        i += 1;
    }
    workers
}

} // verus!
