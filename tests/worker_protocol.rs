use crossbeam_channel::{bounded, unbounded};
use threads_pool::graveyard::{Graveyard, GLOBAL_SLOT};
use threads_pool::message::{unpack_message, Message, WorkCourier};
use threads_pool::worker::{
    calc_idle, check_queues, fetch_step, fetch_work, normal_outcome, priority_outcome, role_of_worker,
    after_job, leaves_after_poll, settle, should_self_purge, Fetched, Received, Role, Status,
    WorkerConfig, MUST_YIELD,
};

#[test]
fn graveyard_starts_alive() {
    let g = Graveyard::new(3);
    assert_eq!(g.len(), 4);
    for id in 0..4 {
        assert!(!g.is_dead(id));
    }
    assert!(!g.is_closing());
    assert!(!g.check_retire(2, false, false));
}

#[test]
fn graveyard_unknown_id_retires() {
    let g = Graveyard::new(2);
    assert!(g.check_retire(3, false, false));
    assert!(!g.is_dead(7));
}

#[test]
fn targeted_terminate_marks_and_retires_target() {
    let mut g = Graveyard::new(3);
    // worker 1 reads a message for worker 2: it marks the slot and stays
    assert!(!g.terminate(2, 1, false));
    assert!(g.is_dead(2));
    assert!(!g.is_dead(1));
    // worker 2 then leaves at its next check
    assert!(g.check_retire(2, false, false));
    assert!(!g.check_retire(1, false, false));
    // the owner of a message leaves at once
    assert!(g.terminate(3, 3, false));
}

#[test]
fn terminate_out_of_range_changes_nothing() {
    let mut g = Graveyard::new(2);
    assert!(!g.terminate(9, 1, false));
    for id in 0..3 {
        assert!(!g.is_dead(id));
    }
}

#[test]
fn dead_slot_stays_dead_after_extend() {
    let mut g = Graveyard::new(2);
    g.terminate(2, 1, false);
    g.extend(3);
    assert_eq!(g.len(), 6);
    assert!(g.is_dead(2));
    assert!(g.check_retire(2, true, true));
    assert!(!g.is_dead(5));
}

#[test]
fn plain_close_drains_forced_close_does_not() {
    let mut g = Graveyard::new(2);
    // a plain close message does not make its reader leave
    assert!(!g.terminate(GLOBAL_SLOT, 1, false));
    assert!(g.is_closing());
    // with work queued, workers stay; with empty queues, they leave
    assert!(!g.check_retire(1, false, false));
    assert!(g.check_retire(1, false, true));
    // a forced close ends the reader at once and the others at their check
    assert!(g.terminate(GLOBAL_SLOT, 2, true));
    assert!(g.check_retire(1, true, false));
}

#[test]
fn courier_unpacks_messages() {
    let mut c: WorkCourier<u32> = WorkCourier::new();
    unpack_message(Message::NewJob(7), &mut c);
    assert_eq!(c.work, Some(7));
    assert_eq!(c.target, None);
    unpack_message(Message::Terminate(3), &mut c);
    assert_eq!(c.target, Some(3));
    assert_eq!(c.work, Some(7));
}

#[test]
fn roles_follow_id_mod_three() {
    assert_eq!(role_of_worker(3), Role::PriorityBiased);
    assert_eq!(role_of_worker(4), Role::NormalBiased);
    assert_eq!(role_of_worker(5), Role::Fluid);
}

#[test]
fn fetch_returns_waiting_message() {
    let (tx, rx) = unbounded::<u8>();
    tx.send(9).unwrap();
    let (f, rounds) = fetch_work(&rx, true, false);
    assert!(matches!(f, Fetched::Message(9)));
    assert_eq!(rounds, 1);
}

#[test]
fn fetch_times_out_after_its_rounds() {
    let (_tx, rx) = unbounded::<u8>();
    let (f, rounds) = fetch_work(&rx, true, false);
    assert!(matches!(f, Fetched::Timeout));
    assert_eq!(rounds, 16);
    let (f, rounds) = fetch_work(&rx, true, true);
    assert!(matches!(f, Fetched::Timeout));
    assert_eq!(rounds, 4);
}

#[test]
fn fetch_skips_early_when_other_queue_has_work() {
    let (_tx, rx) = unbounded::<u8>();
    let (f, rounds) = fetch_work(&rx, false, true);
    assert!(matches!(f, Fetched::Timeout));
    assert_eq!(rounds, 1);
}

#[test]
fn fetch_reports_disconnection() {
    let (tx, rx) = unbounded::<u8>();
    drop(tx);
    let (f, rounds) = fetch_work(&rx, true, false);
    assert!(matches!(f, Fetched::Disconnected));
    assert_eq!(rounds, 1);
}

#[test]
fn priority_job_counts_up() {
    let (ptx, prx) = unbounded::<Message<u32>>();
    let (_ntx, nrx) = unbounded::<Message<u32>>();
    ptx.send(Message::NewJob(1)).unwrap();
    let mut count: u8 = 0;
    let mut c = WorkCourier::new();
    assert_eq!(check_queues(3, &prx, &nrx, &mut count, &mut c).status, Status::FromPriority);
    assert_eq!(count, 1);
    assert_eq!(c.work, Some(1));
}

#[test]
fn normal_job_resets_count() {
    let (_ptx, prx) = unbounded::<Message<u32>>();
    let (ntx, nrx) = unbounded::<Message<u32>>();
    ntx.send(Message::NewJob(5)).unwrap();
    let mut count: u8 = 3;
    let mut c = WorkCourier::new();
    assert_eq!(check_queues(4, &prx, &nrx, &mut count, &mut c).status, Status::FromNormal);
    assert_eq!(count, 0);
    assert_eq!(c.work, Some(5));
}

#[test]
fn yield_counter_skips_priority_queue() {
    let (ptx, prx) = unbounded::<Message<u32>>();
    let (ntx, nrx) = unbounded::<Message<u32>>();
    ptx.send(Message::NewJob(1)).unwrap();
    ntx.send(Message::NewJob(2)).unwrap();
    let mut count: u8 = MUST_YIELD;
    let mut c = WorkCourier::new();
    assert_eq!(check_queues(3, &prx, &nrx, &mut count, &mut c).status, Status::FromNormal);
    assert_eq!(c.work, Some(2));
    assert_eq!(count, 0);
}

#[test]
fn terminate_message_fills_target() {
    let (ptx, prx) = unbounded::<Message<u32>>();
    let (_ntx, nrx) = unbounded::<Message<u32>>();
    ptx.send(Message::Terminate(4)).unwrap();
    let mut count: u8 = 0;
    let mut c = WorkCourier::new();
    assert_eq!(check_queues(6, &prx, &nrx, &mut count, &mut c).status, Status::FromPriority);
    assert_eq!(c.target, Some(4));
    assert_eq!(c.work, None);
}

#[test]
fn empty_queues_give_nothing() {
    let (_ptx, prx) = unbounded::<Message<u32>>();
    let (_ntx, nrx) = unbounded::<Message<u32>>();
    let mut count: u8 = 2;
    let mut c: WorkCourier<u32> = WorkCourier::new();
    assert_eq!(check_queues(5, &prx, &nrx, &mut count, &mut c).status, Status::Nothing);
    assert_eq!(count, 2);
    assert_eq!(c.work, None);
}

#[test]
fn disconnected_queues_are_reported() {
    let (ptx, prx) = unbounded::<Message<u32>>();
    let (ntx, nrx) = unbounded::<Message<u32>>();
    drop(ptx);
    drop(ntx);
    let mut count: u8 = 0;
    let mut c: WorkCourier<u32> = WorkCourier::new();
    assert_eq!(check_queues(3, &prx, &nrx, &mut count, &mut c).status, Status::Disconnected);
}

#[test]
fn full_normal_queue_bounds_priority_streak() {
    let (ptx, prx) = unbounded::<Message<u32>>();
    let (ntx, nrx) = bounded::<Message<u32>>(1);
    for i in 0..10 {
        ptx.send(Message::NewJob(i)).unwrap();
    }
    ntx.send(Message::NewJob(100)).unwrap();
    let mut count: u8 = 0;
    let mut streak = 0;
    let mut normal_seen = false;
    for _ in 0..10 {
        let mut c = WorkCourier::new();
        match check_queues(3, &prx, &nrx, &mut count, &mut c).status {
            Status::FromPriority => {
                streak += 1;
                assert!(streak <= 4);
            }
            Status::FromNormal => {
                assert_eq!(c.work, Some(100));
                normal_seen = true;
                break;
            }
            other => panic!("unexpected poll result {:?}", other),
        }
    }
    assert!(normal_seen);
    assert_eq!(streak, 4);
}

#[test]
fn idle_is_zero_after_a_job() {
    assert_eq!(calc_idle(true, false, 250), Some(0));
    assert_eq!(calc_idle(false, false, 250), Some(250));
    assert_eq!(calc_idle(false, true, 250), None);
}

#[test]
fn idle_budget_purges_unprivileged_workers() {
    assert!(should_self_purge(Some(500), 100));
    assert!(should_self_purge(Some(100), 100));
    assert!(!should_self_purge(Some(99), 100));
    assert!(!should_self_purge(Some(500), 0));
    assert!(!should_self_purge(None, 100));
}

#[test]
fn worker_config_setters() {
    let mut c = WorkerConfig::default();
    assert_eq!(c.stack_size, 0);
    assert!(!c.privileged);
    assert!(c.name.is_none());
    c.name(String::from("w"));
    assert_eq!(c.name.as_deref(), Some("w"));
    c.name(String::new());
    assert!(c.name.is_none());
    c.stack_size(4096);
    c.privileged(true);
    assert_eq!(c.stack_size, 4096);
    assert!(c.privileged);
    assert_eq!(c.current_max_idle(), 0);
}

#[test]
fn single_worker_drains_queue_before_plain_close() {
    // one worker, driven by hand: 100 queued jobs and then a close message
    let (_ptx, prx) = unbounded::<Message<usize>>();
    let (ntx, nrx) = unbounded::<Message<usize>>();
    for i in 0..100 {
        ntx.send(Message::NewJob(i)).unwrap();
    }
    ntx.send(Message::Terminate(GLOBAL_SLOT)).unwrap();
    let mut g = Graveyard::new(1);
    let mut count: u8 = 0;
    let mut done: Vec<usize> = Vec::new();
    loop {
        if g.check_retire(1, false, prx.is_empty() && nrx.is_empty()) {
            break;
        }
        let mut c = WorkCourier::new();
        if check_queues(1, &prx, &nrx, &mut count, &mut c).status == Status::Disconnected {
            break;
        }
        if let Some(j) = c.work.take() {
            done.push(j);
        }
        if let Some(t) = c.target.take() {
            if g.terminate(t, 1, false) {
                break;
            }
        }
    }
    done.sort();
    assert_eq!(done, (0..100).collect::<Vec<usize>>());
    assert!(g.is_closing());
}

/// One step of a worker driven by hand; returns false once it has left.
fn step(
    id: usize,
    g: &mut Graveyard,
    prx: &crossbeam_channel::Receiver<Message<usize>>,
    nrx: &crossbeam_channel::Receiver<Message<usize>>,
    count: &mut u8,
    trace: &mut Vec<(usize, usize)>,
) -> bool {
    if g.check_retire(id, false, prx.is_empty() && nrx.is_empty()) {
        return false;
    }
    let mut c = WorkCourier::new();
    if check_queues(id, prx, nrx, count, &mut c).status == Status::Disconnected {
        return false;
    }
    if let Some(job) = c.work.take() {
        trace.push((job, id));
    }
    if let Some(t) = c.target.take() {
        if g.terminate(t, id, false) {
            return false;
        }
    }
    true
}

#[test]
fn killed_worker_runs_no_later_jobs() {
    let (_ptx, prx) = unbounded::<Message<usize>>();
    let (ntx, nrx) = unbounded::<Message<usize>>();
    let mut g = Graveyard::new(3);
    let mut counts = [0u8; 4];
    let mut alive = [false, true, true, true];
    let mut trace = Vec::new();
    ntx.send(Message::Terminate(2)).unwrap();
    // worker 1 reads the message first; worker 2 leaves at its next check
    alive[1] = step(1, &mut g, &prx, &nrx, &mut counts[1], &mut trace);
    alive[2] = step(2, &mut g, &prx, &nrx, &mut counts[2], &mut trace);
    assert!(alive[1]);
    assert!(!alive[2]);
    for i in 0..10 {
        ntx.send(Message::NewJob(i)).unwrap();
    }
    for _ in 0..20 {
        for id in 1..4 {
            if alive[id] {
                alive[id] = step(id, &mut g, &prx, &nrx, &mut counts[id], &mut trace);
            }
        }
    }
    let mut jobs: Vec<usize> = trace.iter().map(|t| t.0).collect();
    jobs.sort();
    assert_eq!(jobs, (0..10).collect::<Vec<usize>>());
    assert!(trace.iter().all(|t| t.1 != 2));
}

#[test]
fn fetch_step_settles_each_receive() {
    assert!(matches!(fetch_step(Received::Message(3u8), 1, 16, false, true), Some(Fetched::Message(3))));
    assert!(matches!(fetch_step(Received::<u8>::Disconnected, 1, 16, false, true), Some(Fetched::Disconnected)));
    assert!(fetch_step(Received::<u8>::Empty, 1, 16, false, true).is_none());
    assert!(matches!(fetch_step(Received::<u8>::Empty, 16, 16, false, true), Some(Fetched::Timeout)));
    assert!(matches!(fetch_step(Received::<u8>::Empty, 1, 4, true, false), Some(Fetched::Timeout)));
    assert!(fetch_step(Received::<u8>::Empty, 1, 4, true, true).is_none());
}

#[test]
fn priority_outcome_counts_jobs_only() {
    let mut count: u8 = 2;
    let mut c: WorkCourier<u32> = WorkCourier::new();
    assert_eq!(priority_outcome(Fetched::Message(Message::Terminate(5)), &mut count, true, &mut c), Some(Status::FromPriority));
    assert_eq!(count, 2);
    assert_eq!(c.target, Some(5));
    assert_eq!(priority_outcome(Fetched::Message(Message::NewJob(1)), &mut count, false, &mut c), Some(Status::FromPriority));
    assert_eq!(count, 3);
    assert_eq!(priority_outcome(Fetched::Message(Message::NewJob(2)), &mut count, true, &mut c), Some(Status::FromPriority));
    assert_eq!(count, MUST_YIELD);
    let mut count: u8 = 1;
    assert_eq!(priority_outcome(Fetched::Timeout, &mut count, true, &mut c), None);
    assert_eq!(priority_outcome(Fetched::Disconnected, &mut count, true, &mut c), Some(Status::Disconnected));
    assert_eq!(count, 1);
}

#[test]
fn normal_outcome_resets_count() {
    let mut count: u8 = 3;
    let mut c: WorkCourier<u32> = WorkCourier::new();
    assert_eq!(normal_outcome(Fetched::Timeout, &mut count, &mut c), Status::Nothing);
    assert_eq!(count, 3);
    assert_eq!(normal_outcome(Fetched::Message(Message::NewJob(8)), &mut count, &mut c), Status::FromNormal);
    assert_eq!(count, 0);
    assert_eq!(c.work, Some(8));
}

#[test]
fn poll_report_counts_receives_by_role() {
    let (_ptx, prx) = unbounded::<Message<u32>>();
    let (_ntx, nrx) = unbounded::<Message<u32>>();
    let mut c: WorkCourier<u32> = WorkCourier::new();
    let mut count: u8 = 0;
    // priority-biased: waits long on both queues
    let r = check_queues(3, &prx, &nrx, &mut count, &mut c);
    assert_eq!((r.priority_receives, r.normal_receives), (16, 16));
    // normal-biased: short park on priority, long park on the normal queue
    let r = check_queues(4, &prx, &nrx, &mut count, &mut c);
    assert_eq!((r.priority_receives, r.normal_receives), (4, 16));
    // fluid: short park on both
    let r = check_queues(5, &prx, &nrx, &mut count, &mut c);
    assert_eq!((r.priority_receives, r.normal_receives), (4, 4));
    // a yield skips the priority queue
    let mut count: u8 = MUST_YIELD;
    let r = check_queues(3, &prx, &nrx, &mut count, &mut c);
    assert_eq!(r.priority_receives, 0);
    assert_eq!(count, 0);
}

#[test]
fn settle_ends_round() {
    assert!(settle(Some(true), Some(0), 100));
    assert!(!settle(Some(false), Some(10), 100));
    assert!(settle(None, Some(150), 100));
    assert!(!settle(None, None, 100));
}

#[test]
fn round_steps_are_exact() {
    assert!(leaves_after_poll(Status::Disconnected));
    assert!(!leaves_after_poll(Status::Nothing));
    assert_eq!(after_job(true, false, 70), (Some(0), true));
    assert_eq!(after_job(true, true, 70), (Some(0), false));
    assert_eq!(after_job(false, false, 70), (Some(70), false));
    assert_eq!(after_job(false, true, 70), (None, false));
}
