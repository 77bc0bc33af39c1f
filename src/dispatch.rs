use vstd::prelude::*;
use crossbeam_channel::Sender;
use crate::graveyard::GLOBAL_SLOT;
use crate::message::Message;

verus! {

/// The sending end of a `crossbeam_channel` queue, held opaque.
#[verifier::external_type_specification]
#[verifier::external_body]
#[verifier::reject_recursive_types(T)]
pub struct ExSender<T>(crossbeam_channel::Sender<T>);

/// Relies on `crossbeam_channel::Sender::send`: it fails only when every
/// receiver is gone, and then hands the message back in the error.
#[verifier::external_body]
fn send<T>(tx: &Sender<T>, msg: T) -> (r: Result<(), T>)
    ensures
        r is Err ==> r->Err_0 == msg,
{
    tx.send(msg).map_err(|e| e.0)
}

/// A job wrapped for its queue.
pub fn envelope<J>(job: J) -> (m: Message<J>)
    ensures
        m == Message::NewJob(job),
{
    Message::NewJob(job)
}

/// The request that the worker with id `target` leave (`0`: every worker).
pub fn termination<J>(target: usize) -> (m: Message<J>)
    ensures
        m == Message::<J>::Terminate(target),
{
    Message::Terminate(target)
}

/// The messages that close a pool of `workers` workers: one request to
/// leave, aimed at every worker, per worker.
pub fn close_messages<J>(workers: usize) -> (v: Vec<Message<J>>)
    ensures
        v@.len() == workers,
        forall|i: int| 0 <= i < v@.len() ==> v@[i] == Message::<J>::Terminate(GLOBAL_SLOT),
{
    let mut v: Vec<Message<J>> = Vec::new();
    let mut i: usize = 0;
    while i < workers
        invariant
            i <= workers,
            v@.len() == i,
            forall|k: int| 0 <= k < v@.len() ==> v@[k] == Message::<J>::Terminate(GLOBAL_SLOT),
        decreases workers - i,
    {
        v.push(termination(GLOBAL_SLOT));
        i += 1;
    }
    v
}

/// The sending ends of a pool's two queues.
#[verifier::reject_recursive_types(J)]
pub struct Dispatcher<J> {
    pri_tx: Sender<Message<J>>,
    tx: Sender<Message<J>>,
}

impl<J> Dispatcher<J> {
    pub closed spec fn priority_sender(&self) -> Sender<Message<J>> {
        self.pri_tx
    }

    pub closed spec fn normal_sender(&self) -> Sender<Message<J>> {
        self.tx
    }

    pub fn new(pri_tx: Sender<Message<J>>, tx: Sender<Message<J>>) -> (r: Dispatcher<J>)
        ensures
            r.priority_sender() == pri_tx,
            r.normal_sender() == tx,
    {
        Dispatcher { pri_tx, tx }
    }

    /// The queue that a job goes to.
    pub fn queue_for(&self, prioritized: bool) -> (r: &Sender<Message<J>>)
        ensures
            *r == (if prioritized {
                self.priority_sender()
            } else {
                self.normal_sender()
            }),
    {
        if prioritized {
            &self.pri_tx
        } else {
            &self.tx
        }
    }

    /// Queues `job`, as `envelope(job)`, on the queue `queue_for(prioritized)`.
    /// When that queue is closed the job comes back unrun.
    pub fn exec(&self, job: J, prioritized: bool) -> (r: Result<(), J>)
        ensures
            r is Err ==> r->Err_0 == job,
    {
        match send(self.queue_for(prioritized), envelope(job)) {
            Ok(()) => Ok(()),
            Err(Message::NewJob(j)) => Err(j),
            Err(Message::Terminate(_)) => {
                assert(false);
                Ok(())
            },
        }
    }

    /// Queues `termination(target)` on the normal queue, behind the jobs
    /// already there. Returns whether it was queued.
    pub fn terminate(&self, target: usize) -> (r: bool) {
        send(&self.tx, termination(target)).is_ok()
    }

    /// Queues `close_messages(workers)` on the normal queue, in order;
    /// returns how many were queued.
    pub fn close_all(&self, workers: usize) -> (r: usize)
        ensures
            r <= workers,
    {
        let mut batch: Vec<Message<J>> = close_messages(workers);
        let mut sent: usize = 0;
        let mut remaining: usize = workers;
        while remaining > 0
            invariant
                batch@.len() == remaining,
                sent + remaining <= workers,
            decreases remaining,
        {
            let m = batch.remove(0);
            if send(&self.tx, m).is_ok() {
                sent += 1;
            }
            remaining -= 1;
        }
        sent
    }
}

} // verus!
