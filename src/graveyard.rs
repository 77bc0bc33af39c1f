use vstd::prelude::*;

verus! {

/// Slot value that tells a worker (or, at index 0, every worker) to exit.
pub const DEAD: i8 = -1;

/// Slot value of a worker that should keep running.
pub const ALIVE: i8 = 0;

/// Index of the global slot: `DEAD` there means that the pool is closing.
pub const GLOBAL_SLOT: usize = 0;

/// The shared liveness table, indexed by worker id. Index 0 is the global
/// slot: when it holds `DEAD`, the pool is shutting down. Any value other
/// than `DEAD` means "keep running".
pub struct Graveyard {
    slots: Vec<i8>,
}

impl View for Graveyard {
    type V = Seq<i8>;

    closed spec fn view(&self) -> Seq<i8> {
        self.slots@
    }
}

/// Slot `i` of table `g` marks its owner as retired.
pub open spec fn is_dead(g: Seq<i8>, i: int) -> bool {
    0 <= i < g.len() && g[i] == DEAD
}

/// Table `g` says that the pool as a whole is shutting down.
pub open spec fn is_closing(g: Seq<i8>) -> bool {
    is_dead(g, GLOBAL_SLOT as int)
}

/// Every slot that was dead in `a` is still dead in `b`, and no slot went away.
pub open spec fn deaths_kept(a: Seq<i8>, b: Seq<i8>) -> bool {
    &&& a.len() <= b.len()
    &&& forall|i: int| #[trigger] is_dead(a, i) ==> is_dead(b, i)
}

/// What a worker decides when it inspects the table before polling: whether
/// it leaves now. A worker leaves when its id has no slot, when its own slot
/// is dead, or when the pool is closing and either the close is forced or
/// both queues are empty (a plain close lets it drain the queues first).
pub open spec fn retire_on_check(
    g: Seq<i8>,
    my_id: int,
    forced_close: bool,
    queues_empty: bool,
) -> bool {
    ||| my_id >= g.len()
    ||| is_dead(g, my_id)
    ||| (is_closing(g) && (forced_close || queues_empty))
}

/// The table after a termination message aimed at `target` has been read:
/// the target's slot is dead, if it has one.
pub open spec fn mark_target(g: Seq<i8>, target: int) -> Seq<i8> {
    if 0 <= target < g.len() {
        g.update(target, DEAD)
    } else {
        g
    }
}

/// Whether the worker that read a termination message aimed at `target`
/// leaves at once: when the message is its own, or when it is aimed at
/// everyone while the close is forced.
pub open spec fn retire_on_terminate(target: int, my_id: int, forced_close: bool) -> bool {
    (target == GLOBAL_SLOT && forced_close) || target == my_id
}

/// Once a worker's slot is dead, it stays dead through every later change of
/// the table (each change keeps deaths), and the worker leaves at its next
/// check, whatever the close mode and the queues.
pub proof fn lemma_dead_worker_leaves(
    marked: Seq<i8>,
    later: Seq<i8>,
    my_id: int,
    forced_close: bool,
    queues_empty: bool,
)
    requires
        is_dead(marked, my_id),
        deaths_kept(marked, later),
    ensures
        retire_on_check(later, my_id, forced_close, queues_empty),
{
    assert(is_dead(later, my_id));
}

/// Changes that keep deaths compose.
pub proof fn lemma_deaths_kept_chain(a: Seq<i8>, b: Seq<i8>, c: Seq<i8>)
    requires
        deaths_kept(a, b),
        deaths_kept(b, c),
    ensures
        deaths_kept(a, c),
{
    assert forall|i: int| #[trigger] is_dead(a, i) implies is_dead(c, i) by {
        assert(is_dead(b, i));
    }
}

/// A plain close drains: a live worker that reads the close message does not
/// leave on it, and at its checks it stays while either queue holds work.
pub proof fn lemma_plain_close_drains(g: Seq<i8>, my_id: int)
    requires
        0 < my_id < g.len(),
        !is_dead(g, my_id),
    ensures
        !retire_on_terminate(GLOBAL_SLOT as int, my_id, false),
        !retire_on_check(g, my_id, false, false),
        !retire_on_check(mark_target(g, GLOBAL_SLOT as int), my_id, false, false),
        retire_on_check(mark_target(g, GLOBAL_SLOT as int), my_id, false, true),
{
    let m = mark_target(g, GLOBAL_SLOT as int);
    assert(m[my_id] == g[my_id]);
}

/// A forced close ends every worker: the one that reads the close message
/// leaves at once, and every other leaves at its next check, whatever work is
/// still queued.
pub proof fn lemma_forced_close_ends(g: Seq<i8>, reader: int, my_id: int, queues_empty: bool)
    requires
        g.len() > 0,
    ensures
        retire_on_terminate(GLOBAL_SLOT as int, reader, true),
        retire_on_check(mark_target(g, GLOBAL_SLOT as int), my_id, true, queues_empty),
{
}

impl Graveyard {
    /// A table for a pool whose workers have ids `1..=size`: one global slot
    /// and one slot per worker, all alive.
    pub fn new(size: usize) -> (r: Graveyard)
        requires
            size < usize::MAX,
        ensures
            r@.len() == size + 1,
            forall|i: int| 0 <= i < r@.len() ==> r@[i] == ALIVE,
    {
        let mut slots: Vec<i8> = Vec::new();
        let mut i: usize = 0;
        while i <= size
            invariant
                i <= size + 1,
                size < usize::MAX,
                slots@.len() == i,
                forall|k: int| 0 <= k < slots@.len() ==> slots@[k] == ALIVE,
            decreases size + 1 - i,
        {
            slots.push(ALIVE);
            i += 1;
        }
        Graveyard { slots }
    }

    pub fn len(&self) -> (r: usize)
        ensures
            r == self@.len(),
    {
        self.slots.len()
    }

    /// Adds `n` alive slots at the end, for `n` newly spawned workers.
    pub fn extend(&mut self, n: usize)
        requires
            old(self)@.len() + n <= usize::MAX,
        ensures
            final(self)@.len() == old(self)@.len() + n,
            forall|i: int| 0 <= i < old(self)@.len() ==> final(self)@[i] == old(self)@[i],
            forall|i: int| old(self)@.len() <= i < final(self)@.len() ==> final(self)@[i] == ALIVE,
            deaths_kept(old(self)@, final(self)@),
    {
        let ghost start = self.slots@;
        let mut i: usize = 0;
        while i < n
            invariant
                i <= n,
                start.len() + n <= usize::MAX,
                self.slots@.len() == start.len() + i,
                forall|k: int| 0 <= k < start.len() ==> self.slots@[k] == start[k],
                forall|k: int| start.len() <= k < self.slots@.len() ==> self.slots@[k] == ALIVE,
            decreases n - i,
        {
            self.slots.push(ALIVE);
            i += 1;
        }
        assert forall|k: int| #[trigger] is_dead(start, k) implies is_dead(self@, k) by {}
    }

    /// Makes sure that every id up to `max_id` has a slot, adding alive ones.
    pub fn cover(&mut self, max_id: usize)
        requires
            max_id < usize::MAX,
        ensures
            final(self)@.len() == (if old(self)@.len() > max_id + 1 {
                old(self)@.len() as int
            } else {
                max_id as int + 1
            }),
            forall|i: int| 0 <= i < old(self)@.len() ==> final(self)@[i] == old(self)@[i],
            forall|i: int| old(self)@.len() <= i < final(self)@.len() ==> final(self)@[i] == ALIVE,
            deaths_kept(old(self)@, final(self)@),
    {
        let len = self.slots.len();
        if len < max_id + 1 {
            self.extend(max_id + 1 - len);
        }
    }

    /// Whether slot `id` is dead; an id without a slot is not.
    pub fn is_dead(&self, id: usize) -> (r: bool)
        ensures
            r == is_dead(self@, id as int),
    {
        id < self.slots.len() && self.slots[id] == DEAD
    }

    /// Whether the pool is shutting down.
    pub fn is_closing(&self) -> (r: bool)
        ensures
            r == is_closing(self@),
    {
        self.is_dead(GLOBAL_SLOT)
    }

    /// The check a worker makes before each poll: `true` when worker `my_id`
    /// must leave now.
    pub fn check_retire(&self, my_id: usize, forced_close: bool, queues_empty: bool) -> (r: bool)
        ensures
            r == retire_on_check(self@, my_id as int, forced_close, queues_empty),
    {
        if my_id >= self.slots.len() {
            return true;
        }
        if self.slots[my_id] == DEAD {
            return true;
        }
        self.is_closing() && (forced_close || queues_empty)
    }

    /// Handles a termination message aimed at `target`, read by worker
    /// `my_id`: marks the target's slot dead, if it has one, and returns
    /// `true` when the reader must leave at once.
    pub fn terminate(&mut self, target: usize, my_id: usize, forced_close: bool) -> (r: bool)
        ensures
            final(self)@ == mark_target(old(self)@, target as int),
            deaths_kept(old(self)@, final(self)@),
            r == retire_on_terminate(target as int, my_id as int, forced_close),
    {
        let ghost start = self.slots@;
        if target < self.slots.len() {
            self.slots.set(target, DEAD);
        }
        assert forall|k: int| #[trigger] is_dead(start, k) implies is_dead(self@, k) by {}
        (target == GLOBAL_SLOT && forced_close) || target == my_id
    }
}

} // verus!
