use std::cell::Cell;
use threads_pool::config::{Config, ConfigStatus, StatusBehaviors};
use threads_pool::multi_pools;
use threads_pool::multi_pools::{resize_or_replace, AddAction, AddPlan, PoolStore, Route};
use threads_pool::pool::{pool_size, PoolState, Resize, Roster};
use threads_pool::single;
use threads_pool::single::{AutoScale, Pool, Supervisor};

fn roster_of(n: usize) -> Roster<usize> {
    let mut r: Roster<usize> = Roster::new();
    r.extend(n, &|id: usize| id * 10);
    r
}

#[test]
fn pool_size_is_at_least_one() {
    assert_eq!(pool_size(0), 1);
    assert_eq!(pool_size(1), 1);
    assert_eq!(pool_size(8), 8);
}

#[test]
fn roster_assigns_fresh_ids() {
    let r = roster_of(3);
    assert_eq!(r.get_size(), 3);
    assert_eq!(r.last_id(), 3);
    assert_eq!(r.get_first_worker_id(), Some(1));
    assert_eq!(r.get_last_worker_id(), Some(3));
    assert_eq!(r.get_next_worker_id(1), Some(2));
    assert_eq!(r.get_next_worker_id(3), None);
    assert_eq!(r.get_next_worker_id(7), None);
}

#[test]
fn empty_roster_has_no_ids() {
    let r: Roster<usize> = Roster::new();
    assert_eq!(r.get_size(), 0);
    assert_eq!(r.get_first_worker_id(), None);
    assert_eq!(r.get_last_worker_id(), None);
}

#[test]
fn extend_adds_n_workers() {
    let mut r = roster_of(2);
    let old = r.get_size();
    r.extend(3, &|id: usize| id * 10);
    assert_eq!(r.get_size(), old + 3);
    assert_eq!(r.get_last_worker_id(), Some(5));
}

#[test]
fn killed_worker_id_is_gone_and_never_reused() {
    let mut r = roster_of(3);
    let mut w = r.remove_worker(2).expect("worker 2 is live");
    assert_eq!(w.get_id(), 2);
    assert_eq!(w.retire(), Some(20));
    assert_eq!(w.retire(), None);
    assert!(!r.contains(2));
    assert_eq!(r.get_size(), 2);
    assert_eq!(r.get_next_worker_id(1), Some(3));
    assert!(r.remove_worker(2).is_none());
    r.extend(1, &|id: usize| id * 10);
    assert_eq!(r.get_last_worker_id(), Some(4));
    assert!(!r.contains(2));
}

#[test]
fn resize_plan_grows_or_targets_highest_ids() {
    let r = roster_of(5);
    assert!(matches!(r.resize_plan(8), Resize::Extend(3)));
    assert!(matches!(r.resize_plan(5), Resize::Keep));
    match r.resize_plan(2) {
        Resize::Shrink(ids) => assert_eq!(ids, vec![3, 4, 5]),
        _ => panic!("expected a shrink"),
    }
}

#[test]
fn resize_then_removal_reaches_size() {
    let mut r = roster_of(5);
    if let Resize::Shrink(ids) = r.resize_plan(2) {
        for id in ids {
            assert!(r.remove_worker(id).is_some());
        }
    }
    assert_eq!(r.get_size(), 2);
}

#[test]
fn remove_all_keeps_ids_used() {
    let mut r = roster_of(3);
    let ws = r.remove_all();
    assert_eq!(ws.iter().map(|w| w.get_id()).collect::<Vec<_>>(), vec![1, 2, 3]);
    assert_eq!(r.get_size(), 0);
    assert_eq!(r.last_id(), 3);
}

#[test]
fn config_defaults_and_setters() {
    let mut c: Config<fn(usize)> = Config::new();
    assert_eq!(c.pool_name(), None);
    assert_eq!(c.refresh_period(), None);
    c.set_pool_name(String::from("io"));
    assert_eq!(c.pool_name(), Some(String::from("io")));
    c.set_pool_name(String::new());
    assert_eq!(c.pool_name(), None);
    c.set_refresh_period(Some(1500));
    assert_eq!(c.refresh_period(), Some(1500));
    fn hook(_id: usize) {}
    c.set_before_start(hook);
    assert!(c.worker_behavior().before_start.is_some());
    assert!(c.worker_behavior().after_drop.is_none());
    c.set_worker_behavior(StatusBehaviors::new());
    assert!(c.worker_behavior().before_start.is_none());
}

struct FakePool {
    size: usize,
    auto: bool,
    jobs: Cell<usize>,
}

impl AutoScale for FakePool {
    fn toggle_auto_scale(&mut self, enabled: bool) {
        self.auto = enabled;
    }
}

fn fake(size: usize) -> FakePool {
    FakePool { size, auto: false, jobs: Cell::new(0) }
}

#[test]
fn single_pool_initialize() {
    let mut slot: Option<Pool<FakePool>> = None;
    let make = |n: usize, _c: Config<fn(usize)>, auto: bool| FakePool { size: n, auto, jobs: Cell::new(0) };
    assert_eq!(single::initialize(&mut slot, 0, &make), Supervisor::Unchanged);
    let p = slot.as_ref().unwrap();
    assert_eq!(p.store.size, 1);
    assert!(!p.auto_mode);
    assert!(!p.closing);
}

#[test]
fn single_pool_period_is_clamped() {
    let mut slot: Option<Pool<FakePool>> = None;
    let make = |n: usize, _c: Config<fn(usize)>, auto: bool| FakePool { size: n, auto, jobs: Cell::new(0) };
    let r = single::initialize_with_auto_adjustment(&mut slot, 4, Some(200), &make);
    assert_eq!(r, Supervisor::Start(1000));
    let p = slot.as_ref().unwrap();
    assert!(p.auto_mode);
    assert!(p.store.auto);
    assert_eq!(p.adjusting, Some(1000));
}

#[test]
fn single_pool_mode_and_period_changes() {
    let mut slot: Option<Pool<FakePool>> = None;
    let make = |n: usize, _c: Config<fn(usize)>, auto: bool| FakePool { size: n, auto, jobs: Cell::new(0) };
    let mut config: Config<fn(usize)> = Config::new();
    config.set_refresh_period(Some(3000));
    assert_eq!(single::init_with_config(&mut slot, 2, config, &make), Supervisor::Start(3000));
    assert_eq!(single::update_auto_adjustment_mode(&mut slot, true), Supervisor::Unchanged);
    assert_eq!(single::update_auto_adjustment_mode(&mut slot, false), Supervisor::Stop);
    assert!(!slot.as_ref().unwrap().store.auto);
    assert_eq!(single::reset_auto_adjustment_period(&mut slot, Some(5000)), Supervisor::Start(5000));
    assert!(slot.as_ref().unwrap().store.auto);
    assert_eq!(single::reset_auto_adjustment_period(&mut slot, None), Supervisor::Stop);
    let closed = single::close(&mut slot).unwrap();
    assert!(closed.closing);
    assert!(slot.is_none());
    assert!(single::close(&mut slot).is_none());
    assert_eq!(single::update_auto_adjustment_mode(&mut slot, true), Supervisor::Unchanged);
}

fn registry() -> Option<PoolStore<FakePool>> {
    let mut slot: Option<PoolStore<FakePool>> = None;
    multi_pools::initialize(
        &mut slot,
        vec![(String::from("a"), 2), (String::from("b"), 3), (String::new(), 4), (String::from("z"), 0)],
        &fake,
    );
    slot
}

#[test]
fn named_pools_route_jobs_by_name() {
    let slot = registry();
    let ps = slot.as_ref().unwrap();
    assert_eq!(ps.len(), 2);
    let a = ps.find(&String::from("a")).unwrap();
    let b = ps.find(&String::from("b")).unwrap();
    assert_eq!(ps.pool(a).size, 2);
    assert_eq!(ps.pool(b).size, 3);
    for _ in 0..20 {
        let p = ps.pool(a);
        p.jobs.set(p.jobs.get() + 1);
        let p = ps.pool(b);
        p.jobs.set(p.jobs.get() + 1);
    }
    assert_eq!(ps.pool(a).jobs.get(), 20);
    assert_eq!(ps.pool(b).jobs.get(), 20);
    assert!(ps.find(&String::from("c")).is_none());
}

#[test]
fn empty_request_leaves_registry_unset() {
    let mut slot: Option<PoolStore<FakePool>> = None;
    multi_pools::initialize(&mut slot, Vec::new(), &fake);
    assert!(slot.is_none());
}

#[test]
fn duplicate_names_keep_first() {
    let mut slot: Option<PoolStore<FakePool>> = None;
    multi_pools::initialize(&mut slot, vec![(String::from("a"), 2), (String::from("a"), 5)], &fake);
    let ps = slot.as_ref().unwrap();
    assert_eq!(ps.len(), 1);
    assert_eq!(ps.pool(0).size, 2);
}

#[test]
fn auto_mode_registration_starts_and_stops_supervisor() {
    let mut slot = registry();
    assert!(!multi_pools::is_pool_in_auto_mode(&slot, String::from("a")));
    assert_eq!(multi_pools::toggle_pool_auto_mode(&mut slot, String::from("c"), true), Supervisor::Unchanged);
    assert_eq!(multi_pools::toggle_pool_auto_mode(&mut slot, String::from("a"), false), Supervisor::Unchanged);
    assert_eq!(
        multi_pools::toggle_pool_auto_mode(&mut slot, String::from("a"), true),
        Supervisor::Start(10000)
    );
    assert!(multi_pools::is_pool_in_auto_mode(&slot, String::from("a")));
    let ps = slot.as_ref().unwrap();
    assert!(ps.pool(ps.find(&String::from("a")).unwrap()).auto);
    assert_eq!(multi_pools::toggle_pool_auto_mode(&mut slot, String::from("b"), true), Supervisor::Unchanged);
    assert_eq!(multi_pools::toggle_pool_auto_mode(&mut slot, String::from("a"), false), Supervisor::Unchanged);
    assert_eq!(multi_pools::toggle_pool_auto_mode(&mut slot, String::from("b"), false), Supervisor::Stop);
    assert!(!multi_pools::is_pool_in_auto_mode(&slot, String::from("b")));
}

#[test]
fn registry_period_floor_and_reset() {
    let mut slot: Option<PoolStore<FakePool>> = None;
    multi_pools::initialize_with_auto_adjustment(&mut slot, vec![(String::from("a"), 1)], Some(1000), &fake);
    assert_eq!(multi_pools::start_auto_adjustment(&mut slot, 1000), Supervisor::Unchanged);
    assert_eq!(
        multi_pools::toggle_pool_auto_mode(&mut slot, String::from("a"), true),
        Supervisor::Start(5000)
    );
    assert_eq!(multi_pools::reset_auto_adjustment_period(&mut slot, Some(7000)), Supervisor::Start(7000));
    assert!(multi_pools::is_pool_in_auto_mode(&slot, String::from("a")));
    assert_eq!(multi_pools::start_auto_adjustment(&mut slot, 6000), Supervisor::Start(6000));
    assert_eq!(multi_pools::reset_auto_adjustment_period(&mut slot, None), Supervisor::Stop);
    assert!(!multi_pools::is_pool_in_auto_mode(&slot, String::from("a")));
    assert_eq!(multi_pools::start_auto_adjustment(&mut slot, 6000), Supervisor::Unchanged);
    assert_eq!(
        multi_pools::toggle_pool_auto_mode(&mut slot, String::from("a"), true),
        Supervisor::Start(10000)
    );
    assert_eq!(multi_pools::stop_auto_adjustment(&mut slot), Supervisor::Stop);
    assert!(!multi_pools::is_pool_in_auto_mode(&slot, String::from("a")));
}

#[test]
fn registry_remove_and_close() {
    let mut slot = registry();
    let removed = slot.as_mut().unwrap().remove(&String::from("a")).unwrap();
    assert_eq!(removed.size, 2);
    assert!(slot.as_ref().unwrap().find(&String::from("a")).is_none());
    assert!(slot.as_mut().unwrap().remove(&String::from("a")).is_none());
    let mut closed = multi_pools::close(&mut slot).unwrap();
    assert!(slot.is_none());
    let pools = closed.take_pools();
    assert_eq!(pools.len(), 1);
    assert_eq!(pools[0].name, "b");
    assert!(multi_pools::close(&mut slot).is_none());
}

#[test]
fn registry_insert_replaces_or_appends() {
    let mut slot = registry();
    let ps = slot.as_mut().unwrap();
    let old = ps.insert(String::from("a"), fake(7)).unwrap();
    assert_eq!(old.size, 2);
    assert_eq!(ps.pool(ps.find(&String::from("a")).unwrap()).size, 7);
    assert!(ps.insert(String::from("c"), fake(1)).is_none());
    assert_eq!(ps.len(), 3);
    assert_eq!(ps.pool_name(2), "c");
    ps.pool_mut(2).size = 9;
    assert_eq!(ps.pool(2).size, 9);
    assert!(!ps.is_closing());
    assert!(!ps.is_registered(&String::from("c")));
}

#[test]
fn single_pool_enabling_starts_supervisor() {
    let mut slot: Option<Pool<FakePool>> = None;
    let make = |n: usize, _c: Config<fn(usize)>, auto: bool| FakePool { size: n, auto, jobs: Cell::new(0) };
    single::initialize(&mut slot, 2, &make);
    assert_eq!(single::update_auto_adjustment_mode(&mut slot, true), Supervisor::Start(10000));
    assert!(slot.as_ref().unwrap().store.auto);
    assert_eq!(single::update_auto_adjustment_mode(&mut slot, false), Supervisor::Stop);
    assert_eq!(single::reset_auto_adjustment_period(&mut slot, None), Supervisor::Unchanged);
    assert_eq!(single::reset_auto_adjustment_period(&mut slot, Some(2000)), Supervisor::Start(2000));
    assert_eq!(single::update_auto_adjustment_mode(&mut slot, false), Supervisor::Stop);
    assert_eq!(single::update_auto_adjustment_mode(&mut slot, true), Supervisor::Start(2000));
}

#[test]
fn registry_reset_without_period_clears_register() {
    let mut slot = registry();
    assert_eq!(
        multi_pools::toggle_pool_auto_mode(&mut slot, String::from("a"), true),
        Supervisor::Start(10000)
    );
    assert_eq!(multi_pools::reset_auto_adjustment_period(&mut slot, None), Supervisor::Stop);
    assert!(!multi_pools::is_pool_in_auto_mode(&slot, String::from("a")));
    assert_eq!(
        multi_pools::toggle_pool_auto_mode(&mut slot, String::from("a"), true),
        Supervisor::Start(10000)
    );
}

#[test]
fn registry_remove_keeps_other_pools() {
    let mut slot = registry();
    let ps = slot.as_mut().unwrap();
    ps.insert(String::from("c"), fake(4));
    ps.remove(&String::from("a"));
    assert_eq!(ps.pool(ps.find(&String::from("b")).unwrap()).size, 3);
    assert_eq!(ps.pool(ps.find(&String::from("c")).unwrap()).size, 4);
}

#[test]
fn add_pool_plan_cases() {
    let slot = registry();
    let ps = slot.as_ref().unwrap();
    assert_eq!(ps.add_pool_plan(&String::new(), 3), AddPlan::Ignore);
    assert_eq!(ps.add_pool_plan(&String::from("a"), 0), AddPlan::Ignore);
    assert_eq!(ps.add_pool_plan(&String::from("b"), 5), AddPlan::Existing(1));
    assert_eq!(ps.add_pool_plan(&String::from("q"), 5), AddPlan::Insert);
}

#[test]
fn routing_by_name() {
    let mut slot = registry();
    {
        let ps = slot.as_ref().unwrap();
        assert_eq!(ps.route(&String::from("b")), Route::Pool(1));
        assert_eq!(ps.route(&String::from("c")), Route::Unknown);
    }
    let closed = multi_pools::close(&mut slot).unwrap();
    assert_eq!(closed.route(&String::from("a")), Route::Closing);
}

#[test]
fn add_pool_resizes_or_replaces() {
    assert_eq!(resize_or_replace(2, 5), AddAction::Resize);
    assert_eq!(resize_or_replace(5, 5), AddAction::Replace);
}

#[test]
fn extend_keeps_spawned_handles() {
    let mut r = roster_of(2);
    r.extend(2, &|id: usize| id * 10);
    assert_eq!(r.worker_at(0).thread(), &Some(10));
    assert_eq!(r.worker_at(3).thread(), &Some(40));
}
