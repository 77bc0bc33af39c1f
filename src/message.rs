use vstd::prelude::*;

verus! {

/// What travels through the pool's queues: a job to run, or a request that
/// the worker with the given id leave (`0` aims at every worker).
pub enum Message<J> {
    NewJob(J),
    Terminate(usize),
}

/// What a worker took from the queues during one poll.
pub struct WorkCourier<J> {
    pub target: Option<usize>,
    pub work: Option<J>,
}

impl<J> WorkCourier<J> {
    pub fn new() -> (r: WorkCourier<J>)
        ensures
            r.target.is_none(),
            r.work.is_none(),
    {
        WorkCourier { target: None, work: None }
    }
}

/// The courier `c` after taking in `m`: a job goes into `work`, a
/// termination target into `target`; the other field is left as it was.
pub open spec fn unpacked<J>(c: WorkCourier<J>, m: Message<J>) -> WorkCourier<J> {
    match m {
        Message::NewJob(j) => WorkCourier { work: Some(j), ..c },
        Message::Terminate(t) => WorkCourier { target: Some(t), ..c },
    }
}

/// Puts the content of `message` into the courier.
pub fn unpack_message<J>(message: Message<J>, courier: &mut WorkCourier<J>)
    ensures
        *final(courier) == unpacked(*old(courier), message),
{
    match message {
        Message::NewJob(job) => {
            courier.work = Some(job);
        },
        Message::Terminate(target) => {
            courier.target = Some(target);
        },
    }
}

} // verus!
