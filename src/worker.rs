use vstd::prelude::*;
use std::sync::Arc;
use std::sync::atomic::{AtomicUsize, Ordering};
use crossbeam_channel::{Receiver, TryRecvError};
use crate::message::{Message, WorkCourier, unpack_message, unpacked};

verus! {

/// The receiving end of a `crossbeam_channel` queue, held opaque.
#[verifier::external_type_specification]
#[verifier::external_body]
#[verifier::reject_recursive_types(T)]
pub struct ExReceiver<T>(crossbeam_channel::Receiver<T>);

/// Relies on `crossbeam_channel::Receiver::is_empty`: a snapshot of whether
/// the queue holds a message. Other threads may change it at any time.
pub assume_specification<T>[ crossbeam_channel::Receiver::<T>::is_empty ](
    r: &crossbeam_channel::Receiver<T>,
) -> bool;

/// Relies on `crossbeam_channel::Receiver::is_full`: a snapshot of whether
/// the queue is at its capacity. Other threads may change it at any time.
pub assume_specification<T>[ crossbeam_channel::Receiver::<T>::is_full ](
    r: &crossbeam_channel::Receiver<T>,
) -> bool;

/// Workers are spread over this many roles by their id.
pub const LOT_COUNTS: usize = 3;

/// Polls of a queue by a worker that may leave it early.
pub const SHORT_PARKING_ROUNDS: u8 = 4;

/// Polls of a queue by a worker that waits on it.
pub const LONG_PARKING_ROUNDS: u8 = 16;

/// Consecutive priority jobs after which a worker yields to the normal
/// queue, if that queue is seen full.
pub const PRIORITY_STREAK: u8 = 4;

/// The value of the priority counter that makes the next poll skip the
/// priority queue.
pub const MUST_YIELD: u8 = 255;

/// What one non-blocking receive gave.
pub enum Received<T> {
    Message(T),
    Empty,
    Disconnected,
}

/// Relies on `crossbeam_channel::Receiver::try_recv`: takes a waiting
/// message without blocking, or reports an empty or disconnected queue.
/// What it returns depends on other threads, so nothing more is stated.
#[verifier::external_body]
fn try_recv<T>(rx: &Receiver<T>) -> (r: Received<T>) {
    match rx.try_recv() {
        Ok(m) => Received::Message(m),
        Err(TryRecvError::Empty) => Received::Empty,
        Err(TryRecvError::Disconnected) => Received::Disconnected,
    }
}

/// What polling one queue came to.
pub enum Fetched<T> {
    Message(T),
    Timeout,
    Disconnected,
}

/// The role of a worker in sharing the two queues.
#[derive(PartialEq, Eq, Structural, Clone, Copy, Debug)]
pub enum Role {
    /// Waits long on the priority queue.
    PriorityBiased,
    /// Waits long on the normal queue.
    NormalBiased,
    /// Moves quickly between the queues.
    Fluid,
}

pub open spec fn role_of(id: int) -> Role {
    if id % 3 == 0 {
        Role::PriorityBiased
    } else if id % 3 == 1 {
        Role::NormalBiased
    } else {
        Role::Fluid
    }
}

/// How many times a poll receives from the queue before it gives up.
pub open spec fn parking_rounds(can_skip: bool) -> int {
    if can_skip {
        SHORT_PARKING_ROUNDS as int
    } else {
        LONG_PARKING_ROUNDS as int
    }
}

/// The values that the priority counter of a worker takes.
pub open spec fn valid_count(count: u8) -> bool {
    count <= PRIORITY_STREAK || count == MUST_YIELD
}

/// The priority counter after a priority job was received: it counts up to
/// the streak, and at the streak it asks for a yield when the normal queue
/// was seen full.
pub open spec fn after_priority(count: u8, normal_full: bool) -> u8 {
    let c = if count < PRIORITY_STREAK {
        (count + 1) as u8
    } else {
        count
    };
    if c == PRIORITY_STREAK && normal_full {
        MUST_YIELD
    } else {
        c
    }
}

/// The courier took in exactly one message.
pub open spec fn took_one<J>(before: WorkCourier<J>, after: WorkCourier<J>) -> bool {
    ||| (after.work.is_some() && after.target == before.target)
    ||| (after.target.is_some() && after.work == before.work)
}

/// The priority counter after `k` priority jobs in a row, each received
/// while the normal queue was seen full.
pub open spec fn streak_after(count: u8, k: nat) -> u8
    decreases k,
{
    if k == 0 {
        count
    } else {
        after_priority(streak_after(count, (k - 1) as nat), true)
    }
}

/// While the normal queue is seen full, a worker takes at most four priority
/// jobs in a row: from any counter (which counts the priority jobs just
/// taken in a row), the jobs that bring the streak to four set the counter
/// to `MUST_YIELD`, and a poll with that counter does not take a priority
/// job (see `check_queues`).
pub proof fn lemma_priority_streak_bounded(count: u8)
    requires
        valid_count(count),
        count != MUST_YIELD,
    ensures
        count < PRIORITY_STREAK ==> streak_after(count, (PRIORITY_STREAK - count) as nat)
            == MUST_YIELD,
        count < PRIORITY_STREAK ==> forall|k: nat|
            k < PRIORITY_STREAK - count ==> #[trigger] streak_after(count, k) == count + k,
        count == PRIORITY_STREAK ==> streak_after(count, 1) == MUST_YIELD,
{
    reveal_with_fuel(streak_after, 5);
    assert forall|k: nat| k < PRIORITY_STREAK - count implies #[trigger] streak_after(count, k)
        == count + k by {}
}

/// An unprivileged worker with idle budget `max_idle` leaves for idleness
/// exactly when an idle time of at least the budget is observed, and never
/// sooner; a privileged worker never leaves for idleness, nor does any
/// worker when the budget is zero.
pub proof fn lemma_idle_budget(elapsed_ms: u64, max_idle: usize, job_ran: bool)
    ensures
        max_idle > 0 ==> (idle_expired(idle_of(false, false, elapsed_ms), max_idle) <==> elapsed_ms
            >= max_idle),
        !idle_expired(idle_of(false, true, elapsed_ms), max_idle),
        !idle_expired(idle_of(job_ran, false, elapsed_ms), 0),
        max_idle > 0 ==> !idle_expired(idle_of(true, false, elapsed_ms), max_idle),
{
}

pub fn role_of_worker(id: usize) -> (r: Role)
    ensures
        r == role_of(id as int),
{
    let lot = id % LOT_COUNTS;
    if lot == 0 {
        Role::PriorityBiased
    } else if lot == 1 {
        Role::NormalBiased
    } else {
        Role::Fluid
    }
}

/// What one receive leads to while polling a queue: `None` means receive
/// again. A message or a disconnection ends the poll at once; an empty queue
/// ends it when the worker may skip and the other queue has work, or when
/// the `rounds` receives are used up.
pub fn fetch_step<T>(received: Received<T>, wait: u8, rounds: u8, can_skip: bool, side_empty: bool) -> (r:
    Option<Fetched<T>>)
    ensures
        match received {
            Received::Message(m) => r == Some(Fetched::Message(m)),
            Received::Disconnected => r == Some(Fetched::<T>::Disconnected),
            Received::Empty => r == (if (can_skip && !side_empty) || wait >= rounds {
                Some(Fetched::<T>::Timeout)
            } else {
                None
            }),
        },
{
    match received {
        Received::Message(m) => Some(Fetched::Message(m)),
        Received::Disconnected => Some(Fetched::Disconnected),
        Received::Empty => {
            if (can_skip && !side_empty) || wait >= rounds {
                Some(Fetched::Timeout)
            } else {
                None
            }
        },
    }
}

/// Polls `main` without blocking, at most `parking_rounds(can_skip)` times,
/// each receive settled by `fetch_step`. Also returns how many receives were
/// made.
pub fn fetch_work<T>(main: &Receiver<T>, side_empty: bool, can_skip: bool) -> (r: (
    Fetched<T>,
    u8,
))
    ensures
        1 <= r.1 <= parking_rounds(can_skip),
        can_skip && !side_empty ==> r.1 == 1,
        r.0 is Timeout ==> r.1 == parking_rounds(can_skip) || (can_skip && !side_empty),
{
    let rounds: u8 = if can_skip {
        SHORT_PARKING_ROUNDS
    } else {
        LONG_PARKING_ROUNDS
    };
    let mut wait: u8 = 0;
    loop
        invariant
            rounds as int == parking_rounds(can_skip),
            wait < rounds,
            can_skip && !side_empty ==> wait == 0,
        decreases rounds - wait,
    {
        wait += 1;
        match fetch_step(try_recv(main), wait, rounds, can_skip, side_empty) {
            Some(fetched) => {
                return (fetched, wait);
            },
            None => {},
        }
    }
}

/// Where the message of one round of polling came from.
#[derive(PartialEq, Eq, Structural, Clone, Copy, Debug)]
pub enum Status {
    FromPriority,
    FromNormal,
    Nothing,
    Disconnected,
}

/// One round of polling: its outcome and how many receives each queue got.
pub struct PollReport {
    pub status: Status,
    pub priority_receives: u8,
    pub normal_receives: u8,
}

/// The priority counter after a priority message: jobs count toward the
/// streak, termination messages do not.
pub open spec fn counted<J>(count: u8, m: Message<J>, normal_full: bool) -> u8 {
    match m {
        Message::NewJob(_) => after_priority(count, normal_full),
        Message::Terminate(_) => count,
    }
}

/// What the priority probe's outcome leads to: `None` means go on to the
/// normal queue. A message goes into the courier and advances the counter
/// (`normal_full` is the snapshot of the normal queue taken after it).
pub fn priority_outcome<J>(
    fetched: Fetched<Message<J>>,
    pri_work_count: &mut u8,
    normal_full: bool,
    courier: &mut WorkCourier<J>,
) -> (r: Option<Status>)
    requires
        valid_count(*old(pri_work_count)),
        *old(pri_work_count) != MUST_YIELD,
    ensures
        match fetched {
            Fetched::Message(m) => r == Some(Status::FromPriority) && *final(pri_work_count)
                == counted(*old(pri_work_count), m, normal_full) && *final(courier) == unpacked(
                *old(courier),
                m,
            ),
            Fetched::Disconnected => r == Some(Status::Disconnected) && *final(pri_work_count)
                == *old(pri_work_count) && *final(courier) == *old(courier),
            Fetched::Timeout => r is None && *final(pri_work_count) == *old(pri_work_count)
                && *final(courier) == *old(courier),
        },
{
    match fetched {
        Fetched::Message(message) => {
            let is_job = matches!(message, Message::NewJob(_));
            unpack_message(message, courier);
            if is_job {
                if *pri_work_count < PRIORITY_STREAK {
                    *pri_work_count = *pri_work_count + 1;
                }
                if *pri_work_count == PRIORITY_STREAK && normal_full {
                    *pri_work_count = MUST_YIELD;
                }
            }
            Some(Status::FromPriority)
        },
        Fetched::Disconnected => Some(Status::Disconnected),
        Fetched::Timeout => None,
    }
}

/// What the normal probe's outcome leads to. A message goes into the
/// courier and ends the priority streak.
pub fn normal_outcome<J>(
    fetched: Fetched<Message<J>>,
    pri_work_count: &mut u8,
    courier: &mut WorkCourier<J>,
) -> (r: Status)
    ensures
        match fetched {
            Fetched::Message(m) => r == Status::FromNormal && *final(pri_work_count) == 0
                && *final(courier) == unpacked(*old(courier), m),
            Fetched::Disconnected => r == Status::Disconnected && *final(pri_work_count)
                == *old(pri_work_count) && *final(courier) == *old(courier),
            Fetched::Timeout => r == Status::Nothing && *final(pri_work_count)
                == *old(pri_work_count) && *final(courier) == *old(courier),
        },
{
    match fetched {
        Fetched::Message(message) => {
            unpack_message(message, courier);
            *pri_work_count = 0;
            Status::FromNormal
        },
        Fetched::Disconnected => Status::Disconnected,
        Fetched::Timeout => Status::Nothing,
    }
}

/// One round of polling by worker `id`: the priority queue first, unless the
/// counter asks for a yield, then the normal queue. A priority-biased worker
/// waits long on the priority queue, the others may leave it early; on the
/// normal queue only a fluid worker may leave early. A message received goes into the courier;
/// `pri_work_count` counts consecutive priority jobs.
pub fn check_queues<J>(
    id: usize,
    pri_chan: &Receiver<Message<J>>,
    norm_chan: &Receiver<Message<J>>,
    pri_work_count: &mut u8,
    courier: &mut WorkCourier<J>,
) -> (r: PollReport)
    requires
        valid_count(*old(pri_work_count)),
    ensures
        valid_count(*final(pri_work_count)),
        r.priority_receives <= parking_rounds(role_of(id as int) != Role::PriorityBiased),
        r.normal_receives <= parking_rounds(role_of(id as int) == Role::Fluid),
        *old(pri_work_count) == MUST_YIELD ==> r.priority_receives == 0 && r.status
            != Status::FromPriority,
        *old(pri_work_count) != MUST_YIELD ==> r.priority_receives >= 1,
        r.status == Status::FromPriority ==> r.normal_receives == 0,
        r.normal_receives == 0 ==> r.status == Status::FromPriority || r.status
            == Status::Disconnected,
        r.status == Status::FromPriority ==> (*final(pri_work_count) == *old(pri_work_count)
            && final(courier).target is Some && final(courier).work == old(courier).work) || ((
        *final(pri_work_count) == after_priority(*old(pri_work_count), true)
            || *final(pri_work_count) == after_priority(*old(pri_work_count), false))
            && final(courier).work is Some && final(courier).target == old(courier).target),
        r.status == Status::FromNormal ==> *final(pri_work_count) == 0 && took_one(
            *old(courier),
            *final(courier),
        ),
        r.status == Status::Nothing || r.status == Status::Disconnected ==> *final(pri_work_count)
            == (if *old(pri_work_count) == MUST_YIELD {
            0
        } else {
            *old(pri_work_count)
        }) && *final(courier) == *old(courier),
{
    let role = role_of_worker(id);
    let mut priority_receives: u8 = 0;
    if *pri_work_count < MUST_YIELD {
        let (fetched, n) = fetch_work(pri_chan, norm_chan.is_empty(), role != Role::PriorityBiased);
        priority_receives = n;
        let normal_full = norm_chan.is_full();
        match priority_outcome(fetched, pri_work_count, normal_full, courier) {
            Some(status) => {
                return PollReport { status, priority_receives, normal_receives: 0 };
            },
            None => {},
        }
    } else {
        *pri_work_count = 0;
    }
    let (fetched, normal_receives) = fetch_work(
        norm_chan,
        pri_chan.is_empty(),
        role == Role::Fluid,
    );
    let status = normal_outcome(fetched, pri_work_count, courier);
    PollReport { status, priority_receives, normal_receives }
}

/// The idle time a worker records after one round: none for a privileged
/// worker that ran nothing, zero after a job, else the time since its last
/// job.
pub open spec fn idle_of(job_ran: bool, privileged: bool, elapsed_ms: u64) -> Option<u64> {
    if job_ran {
        Some(0)
    } else if privileged {
        None
    } else {
        Some(elapsed_ms)
    }
}

/// A worker that idled `idle` milliseconds leaves when the budget `max_idle`
/// is set (non-zero) and reached.
pub open spec fn idle_expired(idle: Option<u64>, max_idle: usize) -> bool {
    match idle {
        Some(d) => max_idle > 0 && d >= max_idle,
        None => false,
    }
}

pub fn calc_idle(job_ran: bool, privileged: bool, elapsed_ms: u64) -> (r: Option<u64>)
    ensures
        r == idle_of(job_ran, privileged, elapsed_ms),
{
    if job_ran {
        Some(0)
    } else if privileged {
        None
    } else {
        Some(elapsed_ms)
    }
}

/// Whether a worker whose idle time is `idle` purges itself under the budget
/// `max_idle` (zero turns purging off).
pub fn should_self_purge(idle: Option<u64>, max_idle: usize) -> (r: bool)
    ensures
        r == idle_expired(idle, max_idle),
{
    match idle {
        Some(d) => max_idle > 0 && d as u128 >= max_idle as u128,
        None => false,
    }
}

/// Whether a worker leaves after polling: only when its queues are gone.
pub fn leaves_after_poll(status: Status) -> (r: bool)
    ensures
        r == (status == Status::Disconnected),
{
    status == Status::Disconnected
}

/// The idle time recorded after the job step of a round, and whether the
/// idle clock restarts now (after a job, for an unprivileged worker).
pub fn after_job(job_ran: bool, privileged: bool, elapsed_ms: u64) -> (r: (Option<u64>, bool))
    ensures
        r.0 == idle_of(job_ran, privileged, elapsed_ms),
        r.1 == (job_ran && !privileged),
{
    (calc_idle(job_ran, privileged, elapsed_ms), job_ran && !privileged)
}

/// The end of one round: a worker leaves when the termination message it
/// read said so (`terminate_says`: what `Graveyard::terminate` returned, or
/// `None` when no such message came), or else when its idle budget ran out.
pub fn settle(terminate_says: Option<bool>, idle: Option<u64>, max_idle: usize) -> (r: bool)
    ensures
        r == (terminate_says == Some(true) || idle_expired(idle, max_idle)),
{
    match terminate_says {
        Some(true) => true,
        _ => should_self_purge(idle, max_idle),
    }
}

/// What a worker is spawned with.
pub struct WorkerConfig {
    pub name: Option<String>,
    pub stack_size: usize,
    pub privileged: bool,
    pub max_idle: Arc<AtomicUsize>,
}

impl WorkerConfig {
    pub fn new(
        name: Option<String>,
        stack_size: usize,
        privileged: bool,
        max_idle: Arc<AtomicUsize>,
    ) -> (r: WorkerConfig)
        ensures
            r.name == name,
            r.stack_size == stack_size,
            r.privileged == privileged,
            r.max_idle == max_idle,
    {
        WorkerConfig { name, stack_size, privileged, max_idle }
    }

    pub fn stack_size(&mut self, size: usize)
        ensures
            final(self).stack_size == size,
            final(self).name == old(self).name,
            final(self).privileged == old(self).privileged,
            final(self).max_idle == old(self).max_idle,
    {
        self.stack_size = size;
    }

    pub fn privileged(&mut self, is_privileged: bool)
        ensures
            final(self).privileged == is_privileged,
            final(self).name == old(self).name,
            final(self).stack_size == old(self).stack_size,
            final(self).max_idle == old(self).max_idle,
    {
        self.privileged = is_privileged;
    }

    /// Sets the thread name; an empty name clears it.
    pub fn name(&mut self, name: String)
        ensures
            final(self).name == (if name@.len() == 0 {
                None
            } else {
                Some(name)
            }),
            final(self).stack_size == old(self).stack_size,
            final(self).privileged == old(self).privileged,
            final(self).max_idle == old(self).max_idle,
    {
        if name.as_str().is_empty() {
            self.name = None;
        } else {
            self.name = Some(name);
        }
    }

    pub fn max_idle(&mut self, idle: Arc<AtomicUsize>)
        ensures
            final(self).max_idle == idle,
            final(self).name == old(self).name,
            final(self).stack_size == old(self).stack_size,
            final(self).privileged == old(self).privileged,
    {
        self.max_idle = idle;
    }

    /// The idle budget now in force, in milliseconds. Other threads may
    /// change it, so its value is not known in advance.
    pub fn current_max_idle(&self) -> usize {
        self.max_idle.load(Ordering::Relaxed)
    }

    pub fn default() -> (r: WorkerConfig)
        ensures
            r.name.is_none(),
            r.stack_size == 0,
            !r.privileged,
    {
        WorkerConfig::new(None, 0, false, Arc::new(AtomicUsize::new(0)))
    }
}

} // verus!
