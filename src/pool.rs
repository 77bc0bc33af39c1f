use vstd::prelude::*;

verus! {

/// A worker as its pool keeps it: its id and, while it runs, the handle of
/// its thread.
pub struct Worker<H> {
    id: usize,
    thread: Option<H>,
}

impl<H> Worker<H> {
    pub closed spec fn spec_id(&self) -> usize {
        self.id
    }

    pub closed spec fn spec_thread(&self) -> Option<H> {
        self.thread
    }

    pub fn new(id: usize, thread: H) -> (r: Worker<H>)
        ensures
            r.spec_id() == id,
            r.spec_thread() == Some(thread),
    {
        Worker { id, thread: Some(thread) }
    }

    pub fn get_id(&self) -> (r: usize)
        ensures
            r == self.spec_id(),
    {
        self.id
    }

    pub fn thread(&self) -> (r: &Option<H>)
        ensures
            *r == self.spec_thread(),
    {
        &self.thread
    }

    /// Hands out the thread handle, so that the caller can join it; a second
    /// call gives nothing.
    pub fn retire(&mut self) -> (r: Option<H>)
        ensures
            r == old(self).spec_thread(),
            final(self).spec_thread().is_none(),
            final(self).spec_id() == old(self).spec_id(),
    {
        self.thread.take()
    }
}

/// Reading the ids of a pool's workers.
pub trait PoolState {
    /// The ids of the live workers, in the order they were added.
    spec fn worker_ids(&self) -> Seq<usize>;

    fn get_first_worker_id(&self) -> (r: Option<usize>)
        ensures
            r == (if self.worker_ids().len() == 0 {
                None::<usize>
            } else {
                Some(self.worker_ids()[0])
            }),
    ;

    fn get_last_worker_id(&self) -> (r: Option<usize>)
        ensures
            r == (if self.worker_ids().len() == 0 {
                None::<usize>
            } else {
                Some(self.worker_ids().last())
            }),
    ;

    /// The id that follows `id` among the live workers; none when `id` is not
    /// a live worker's or is the last one.
    fn get_next_worker_id(&self, id: usize) -> (r: Option<usize>)
        ensures
            r == next_after(self.worker_ids(), id),
    ;
}

/// The element that follows the first `id` in `s`, if any.
pub open spec fn next_after(s: Seq<usize>, id: usize) -> Option<usize>
    decreases s.len(),
{
    if s.len() < 2 {
        None
    } else if s[0] == id {
        Some(s[1])
    } else {
        next_after(s.drop_first(), id)
    }
}

/// Ids in strictly increasing order.
pub open spec fn increasing(s: Seq<usize>) -> bool {
    forall|i: int, j: int| 0 <= i < j < s.len() ==> s[i] < s[j]
}

/// The ids `first..first + n`.
pub open spec fn id_range(first: int, n: int) -> Seq<usize> {
    Seq::new(n as nat, |k: int| (first + k) as usize)
}

/// How a pool reaches a requested size.
pub enum Resize {
    /// Spawn this many more workers.
    Extend(usize),
    /// Ask the workers with these ids to leave.
    Shrink(Vec<usize>),
    /// Nothing to do.
    Keep,
}

/// The size a pool is created with: at least one worker.
pub open spec fn clamp_size(size: usize) -> usize {
    if size < 1 {
        1
    } else {
        size
    }
}

pub fn pool_size(size: usize) -> (r: usize)
    ensures
        r == clamp_size(size),
{
    if size < 1 {
        1
    } else {
        size
    }
}

/// Observations of queue pressure in a row after which the size adjustment
/// adds a worker.
pub const PRESSURE_ROUNDS: u8 = 2;

/// Whether a queue holds more jobs than the pool has workers.
pub open spec fn overloaded(pri_depth: usize, norm_depth: usize, size: usize) -> bool {
    pri_depth > size || norm_depth > size
}

/// One observation of the size adjustment: the new count of pressured
/// observations in a row, and whether to add one worker now. A worker is
/// added at the second pressured observation in a row, and the count starts
/// over; an observation without pressure resets it.
pub open spec fn adjust_step(streak: u8, pri_depth: usize, norm_depth: usize, size: usize) -> (
    u8,
    bool,
) {
    if !overloaded(pri_depth, norm_depth, size) {
        (0, false)
    } else if streak + 1 >= PRESSURE_ROUNDS {
        (0, true)
    } else {
        ((streak + 1) as u8, false)
    }
}

pub fn auto_adjust_step(streak: u8, pri_depth: usize, norm_depth: usize, size: usize) -> (r: (
    u8,
    bool,
))
    ensures
        r == adjust_step(streak, pri_depth, norm_depth, size),
{
    if !(pri_depth > size || norm_depth > size) {
        (0, false)
    } else if streak >= PRESSURE_ROUNDS - 1 {
        (0, true)
    } else {
        (streak + 1, false)
    }
}

/// The workers of a pool, in id order, and the last id handed out. Ids start
/// at 1 (0 names every worker) and are never reused.
pub struct Roster<H> {
    workers: Vec<Worker<H>>,
    last_id: usize,
}

impl<H> Roster<H> {
    pub closed spec fn ids(&self) -> Seq<usize> {
        self.workers@.map_values(|w: Worker<H>| w.id)
    }

    pub closed spec fn spec_last_id(&self) -> usize {
        self.last_id
    }

    /// Ids increase, start at 1 and do not pass the last id handed out.
    pub open spec fn wf(&self) -> bool {
        &&& increasing(self.ids())
        &&& forall|i: int|
            0 <= i < self.ids().len() ==> 1 <= #[trigger] self.ids()[i] <= self.spec_last_id()
    }

    pub fn new() -> (r: Roster<H>)
        ensures
            r.wf(),
            r.ids().len() == 0,
            r.spec_last_id() == 0,
    {
        let r = Roster { workers: Vec::new(), last_id: 0 };
        assert(r.ids().len() == 0);
        r
    }

    pub fn get_size(&self) -> (r: usize)
        ensures
            r == self.ids().len(),
    {
        self.workers.len()
    }

    pub closed spec fn worker_spec(&self, i: int) -> Worker<H> {
        self.workers@[i]
    }

    /// The worker at position `i`, in id order.
    pub fn worker_at(&self, i: usize) -> (r: &Worker<H>)
        requires
            i < self.ids().len(),
        ensures
            *r == self.worker_spec(i as int),
            r.spec_id() == self.ids()[i as int],
    {
        &self.workers[i]
    }

    pub fn last_id(&self) -> (r: usize)
        ensures
            r == self.spec_last_id(),
    {
        self.last_id
    }

    /// Whether a live worker has id `id`.
    pub fn contains(&self, id: usize) -> (r: bool)
        ensures
            r == self.ids().contains(id),
    {
        let mut i: usize = 0;
        while i < self.workers.len()
            invariant
                i <= self.workers@.len(),
                forall|k: int| 0 <= k < i ==> self.ids()[k] != id,
            decreases self.workers@.len() - i,
        {
            if self.workers[i].id == id {
                assert(self.ids()[i as int] == id);
                return true;
            }
            i += 1;
        }
        false
    }

    /// Spawns `n` workers through `spawn`, which receives each new id and
    /// returns the thread handle. The ids follow the last one handed out.
    pub fn extend<F: Fn(usize) -> H>(&mut self, n: usize, spawn: &F)
        requires
            old(self).wf(),
            old(self).spec_last_id() + n <= usize::MAX,
            forall|id: usize| spawn.requires((id,)),
        ensures
            final(self).wf(),
            final(self).ids() == old(self).ids() + id_range(old(self).spec_last_id() + 1, n as int),
            final(self).spec_last_id() == old(self).spec_last_id() + n,
            forall|k: int|
                0 <= k < old(self).ids().len() ==> #[trigger] final(self).worker_spec(k)
                    == old(self).worker_spec(k),
            forall|k: int|
                old(self).ids().len() <= k < final(self).ids().len() ==> (#[trigger] final(self).worker_spec(k).spec_thread()) is Some && spawn.ensures(
                    (final(self).ids()[k],),
                    final(self).worker_spec(k).spec_thread()->Some_0,
                ),
    {
        let ghost start = self.ids();
        let ghost start_workers = self.workers@;
        let ghost first = self.last_id + 1;
        let mut i: usize = 0;
        while i < n
            invariant
                i <= n,
                self.wf(),
                first == old(self).spec_last_id() + 1,
                old(self).spec_last_id() + n <= usize::MAX,
                self.last_id == old(self).spec_last_id() + i,
                start == old(self).ids(),
                self.ids() == start + id_range(first, i as int),
                forall|id: usize| spawn.requires((id,)),
                start_workers == old(self).workers@,
                self.workers@.len() >= start_workers.len(),
                forall|k: int| 0 <= k < start_workers.len() ==> self.workers@[k] == start_workers[k],
                forall|k: int|
                    start_workers.len() <= k < self.workers@.len() ==> (
                    #[trigger] self.workers@[k]).thread is Some && spawn.ensures(
                        (self.workers@[k].id,),
                        self.workers@[k].thread->Some_0,
                    ),
            decreases n - i,
        {
            let id = self.last_id + 1;
            let thread = spawn(id);
            let ghost prev = self.ids();
            let ghost prev_workers = self.workers@;
            self.workers.push(Worker { id, thread: Some(thread) });
            assert(self.workers@ =~= prev_workers.push(Worker { id, thread: Some(thread) }));
            assert(self.ids() =~= prev.push(id));
            self.last_id = id;
            i += 1;
            assert(self.ids() =~= start + id_range(first, i as int));
            assert forall|a: int, b: int| 0 <= a < b < self.ids().len() implies self.ids()[a]
                < self.ids()[b] by {
                if b == prev.len() {
                    assert(1 <= prev[a] <= self.last_id - 1);
                }
            }
        }
        assert forall|k: int|
            old(self).ids().len() <= k < self.ids().len() implies (#[trigger] self.worker_spec(k).spec_thread()) is Some && spawn.ensures(
            (self.ids()[k],),
            self.worker_spec(k).spec_thread()->Some_0,
        ) by {
            assert(self.ids()[k] == self.workers@[k].id);
            assert(start_workers.len() == old(self).ids().len());
        }
    }

    /// Takes the worker with id `id` out of the roster, if it is there.
    pub fn remove_worker(&mut self, id: usize) -> (r: Option<Worker<H>>)
        requires
            old(self).wf(),
        ensures
            final(self).wf(),
            final(self).spec_last_id() == old(self).spec_last_id(),
            old(self).ids().contains(id) ==> r.is_some() && r.unwrap().spec_id() == id && exists|
                k: int,
            |
                0 <= k < old(self).ids().len() && old(self).ids()[k] == id && final(self).ids()
                    == old(self).ids().remove(k),
            !old(self).ids().contains(id) ==> r.is_none() && final(self).ids() == old(self).ids(),
    {
        let mut i: usize = 0;
        while i < self.workers.len()
            invariant
                i <= self.workers@.len(),
                self == old(self),
                self.wf(),
                forall|k: int| 0 <= k < i ==> self.ids()[k] != id,
            decreases self.workers@.len() - i,
        {
            if self.workers[i].id == id {
                let ghost before = self.ids();
                assert(before[i as int] == id);
                let w = self.workers.remove(i);
                assert(self.ids() =~= before.remove(i as int));
                assert forall|a: int, b: int| 0 <= a < b < self.ids().len() implies self.ids()[a]
                    < self.ids()[b] by {
                    if a >= i {
                        assert(before[a + 1] < before[b + 1]);
                    } else if b >= i {
                        assert(before[a] < before[b + 1]);
                    }
                }
                assert forall|k: int| 0 <= k < self.ids().len() implies 1 <= #[trigger] self.ids()[k]
                    <= self.last_id by {
                    if k >= i {
                        assert(before[k + 1] == self.ids()[k]);
                    } else {
                        assert(before[k] == self.ids()[k]);
                    }
                }
                return Some(w);
            }
            i += 1;
        }
        assert(!self.ids().contains(id));
        None
    }

    /// Takes every worker out of the roster, in id order. Ids stay used.
    pub fn remove_all(&mut self) -> (r: Vec<Worker<H>>)
        requires
            old(self).wf(),
        ensures
            final(self).wf(),
            final(self).ids().len() == 0,
            final(self).spec_last_id() == old(self).spec_last_id(),
            r@.map_values(|w: Worker<H>| w.spec_id()) == old(self).ids(),
    {
        let mut r: Vec<Worker<H>> = Vec::new();
        std::mem::swap(&mut r, &mut self.workers);
        assert(self.ids().len() == 0);
        assert(r@.map_values(|w: Worker<H>| w.spec_id()) =~= old(self).ids());
        r
    }

    /// How to bring the pool to `n` workers: spawn the missing ones, or ask
    /// the ones with the highest ids to leave.
    pub fn resize_plan(&self, n: usize) -> (r: Resize)
        ensures
            n > self.ids().len() ==> r == Resize::Extend((n - self.ids().len()) as usize),
            n == self.ids().len() ==> r is Keep,
            n < self.ids().len() ==> r is Shrink && r->Shrink_0@ == self.ids().subrange(
                n as int,
                self.ids().len() as int,
            ),
    {
        let size = self.workers.len();
        if n > size {
            Resize::Extend(n - size)
        } else if n == size {
            Resize::Keep
        } else {
            let mut targets: Vec<usize> = Vec::new();
            let mut i: usize = n;
            while i < size
                invariant
                    n <= i <= size,
                    size == self.ids().len(),
                    targets@ == self.ids().subrange(n as int, i as int),
                decreases size - i,
            {
                targets.push(self.workers[i].id);
                i += 1;
                assert(targets@ =~= self.ids().subrange(n as int, i as int));
            }
            Resize::Shrink(targets)
        }
    }
}

/// Growing a roster by `n` adds `n` workers: `extend(n)` then `get_size()`
/// gives the old size plus `n`.
pub proof fn lemma_extend_grows<H>(before: Roster<H>, after: Roster<H>, n: usize)
    requires
        after.ids() == before.ids() + id_range(before.spec_last_id() + 1, n as int),
    ensures
        after.ids().len() == before.ids().len() + n,
{
}

/// Shrinking a roster of `ids` to `n` targets `ids.len() - n` distinct live
/// workers, so that once each has been removed `n` remain.
pub proof fn lemma_shrink_targets(ids: Seq<usize>, n: int)
    requires
        increasing(ids),
        0 <= n <= ids.len(),
    ensures
        ids.subrange(n, ids.len() as int).len() == ids.len() - n,
        ids.subrange(n, ids.len() as int).no_duplicates(),
        forall|x: usize| #[trigger]
            ids.subrange(n, ids.len() as int).contains(x) ==> ids.contains(x),
        ids.subrange(0, n) + ids.subrange(n, ids.len() as int) == ids,
{
    let t = ids.subrange(n, ids.len() as int);
    assert forall|i: int, j: int| 0 <= i < t.len() && 0 <= j < t.len() && i != j implies t[i]
        != t[j] by {
        if i < j {
            assert(ids[n + i] < ids[n + j]);
        } else {
            assert(ids[n + j] < ids[n + i]);
        }
    }
    assert forall|x: usize| #[trigger] t.contains(x) implies ids.contains(x) by {
        let k = choose|k: int| 0 <= k < t.len() && t[k] == x;
        assert(ids[n + k] == x);
    }
    assert(ids.subrange(0, n) + t =~= ids);
}

impl<H> PoolState for Roster<H> {
    open spec fn worker_ids(&self) -> Seq<usize> {
        self.ids()
    }

    fn get_first_worker_id(&self) -> (r: Option<usize>) {
        if self.workers.len() == 0 {
            None
        } else {
            Some(self.workers[0].id)
        }
    }

    fn get_last_worker_id(&self) -> (r: Option<usize>) {
        let n = self.workers.len();
        if n == 0 {
            None
        } else {
            Some(self.workers[n - 1].id)
        }
    }

    fn get_next_worker_id(&self, id: usize) -> (r: Option<usize>) {
        let n = self.workers.len();
        let mut i: usize = 0;
        assert(self.ids().subrange(0, n as int) =~= self.ids());
        while n > 0 && i < n - 1
            invariant
                n == self.ids().len(),
                i <= n,
                next_after(self.ids(), id) == next_after(self.ids().subrange(i as int, n as int), id),
            decreases n - i,
        {
            let ghost rest = self.ids().subrange(i as int, n as int);
            if self.workers[i].id == id {
                assert(rest[0] == id);
                return Some(self.workers[i + 1].id);
            }
            assert(rest.drop_first() =~= self.ids().subrange(i + 1, n as int));
            i += 1;
        }
        assert(self.ids().subrange(i as int, n as int).len() < 2);
        None
    }
}

} // verus!
