use vstd::prelude::*;

verus! {

/// The four hooks run around a worker's start and drop; `W` is the hook type
/// (a function of the worker id).
#[derive(Clone, Copy)]
pub struct StatusBehaviors<W> {
    pub before_start: Option<W>,
    pub after_start: Option<W>,
    pub before_drop: Option<W>,
    pub after_drop: Option<W>,
}

/// No hook set.
pub open spec fn no_hooks<W>() -> StatusBehaviors<W> {
    StatusBehaviors { before_start: None, after_start: None, before_drop: None, after_drop: None }
}

impl<W> StatusBehaviors<W> {
    pub fn new() -> (r: StatusBehaviors<W>)
        ensures
            r == no_hooks::<W>(),
    {
        StatusBehaviors { before_start: None, after_start: None, before_drop: None, after_drop: None }
    }
}

/// The view of an optional name.
pub open spec fn name_view(name: Option<String>) -> Option<Seq<char>> {
    match name {
        Some(n) => Some(n@),
        None => None,
    }
}

/// How a pool is set up: its name, its worker hooks, and the period of its
/// size adjustment in milliseconds (none: no adjustment).
pub struct Config<W> {
    pool_name: Option<String>,
    worker_behaviors: StatusBehaviors<W>,
    refresh_period: Option<u64>,
}

impl<W: Copy> Config<W> {
    pub fn new() -> (r: Config<W>)
        ensures
            r.spec_pool_name().is_none(),
            r.spec_refresh_period().is_none(),
            r.spec_worker_behavior() == no_hooks::<W>(),
    {
        Config { pool_name: None, worker_behaviors: StatusBehaviors::<W>::new(), refresh_period: None }
    }

    pub fn default() -> (r: Config<W>)
        ensures
            r.spec_pool_name().is_none(),
            r.spec_refresh_period().is_none(),
            r.spec_worker_behavior() == no_hooks::<W>(),
    {
        Config::new()
    }

    pub fn set_before_start(&mut self, behavior: W)
        ensures
            final(self).spec_worker_behavior() == (StatusBehaviors {
                before_start: Some(behavior),
                ..old(self).spec_worker_behavior()
            }),
            final(self).spec_pool_name() == old(self).spec_pool_name(),
            final(self).spec_refresh_period() == old(self).spec_refresh_period(),
    {
        self.worker_behaviors.before_start = Some(behavior);
    }

    pub fn set_after_start(&mut self, behavior: W)
        ensures
            final(self).spec_worker_behavior() == (StatusBehaviors {
                after_start: Some(behavior),
                ..old(self).spec_worker_behavior()
            }),
            final(self).spec_pool_name() == old(self).spec_pool_name(),
            final(self).spec_refresh_period() == old(self).spec_refresh_period(),
    {
        self.worker_behaviors.after_start = Some(behavior);
    }

    pub fn set_before_drop(&mut self, behavior: W)
        ensures
            final(self).spec_worker_behavior() == (StatusBehaviors {
                before_drop: Some(behavior),
                ..old(self).spec_worker_behavior()
            }),
            final(self).spec_pool_name() == old(self).spec_pool_name(),
            final(self).spec_refresh_period() == old(self).spec_refresh_period(),
    {
        self.worker_behaviors.before_drop = Some(behavior);
    }

    pub fn set_after_drop(&mut self, behavior: W)
        ensures
            final(self).spec_worker_behavior() == (StatusBehaviors {
                after_drop: Some(behavior),
                ..old(self).spec_worker_behavior()
            }),
            final(self).spec_pool_name() == old(self).spec_pool_name(),
            final(self).spec_refresh_period() == old(self).spec_refresh_period(),
    {
        self.worker_behaviors.after_drop = Some(behavior);
    }
}

/// Reading and changing a pool's setup.
pub trait ConfigStatus<W> {
    spec fn spec_pool_name(&self) -> Option<Seq<char>>;

    spec fn spec_refresh_period(&self) -> Option<u64>;

    spec fn spec_worker_behavior(&self) -> StatusBehaviors<W>;

    fn pool_name(&self) -> (r: Option<String>)
        ensures
            name_view(r) == self.spec_pool_name(),
    ;

    fn refresh_period(&self) -> (r: Option<u64>)
        ensures
            r == self.spec_refresh_period(),
    ;

    fn worker_behavior(&self) -> (r: StatusBehaviors<W>)
        ensures
            r == self.spec_worker_behavior(),
    ;

    /// Names the pool; an empty name clears the name.
    fn set_pool_name(&mut self, name: String)
        ensures
            final(self).spec_pool_name() == (if name@.len() == 0 {
                None
            } else {
                Some(name@)
            }),
            final(self).spec_refresh_period() == old(self).spec_refresh_period(),
            final(self).spec_worker_behavior() == old(self).spec_worker_behavior(),
    ;

    fn set_refresh_period(&mut self, period: Option<u64>)
        ensures
            final(self).spec_refresh_period() == period,
            final(self).spec_pool_name() == old(self).spec_pool_name(),
            final(self).spec_worker_behavior() == old(self).spec_worker_behavior(),
    ;

    fn set_worker_behavior(&mut self, behavior: StatusBehaviors<W>)
        ensures
            final(self).spec_worker_behavior() == behavior,
            final(self).spec_pool_name() == old(self).spec_pool_name(),
            final(self).spec_refresh_period() == old(self).spec_refresh_period(),
    ;
}

impl<W: Copy> ConfigStatus<W> for Config<W> {
    closed spec fn spec_pool_name(&self) -> Option<Seq<char>> {
        name_view(self.pool_name)
    }

    closed spec fn spec_refresh_period(&self) -> Option<u64> {
        self.refresh_period
    }

    closed spec fn spec_worker_behavior(&self) -> StatusBehaviors<W> {
        self.worker_behaviors
    }

    fn pool_name(&self) -> (r: Option<String>) {
        match &self.pool_name {
            Some(n) => Some(n.clone()),
            None => None,
        }
    }

    fn refresh_period(&self) -> (r: Option<u64>) {
        self.refresh_period
    }

    fn worker_behavior(&self) -> (r: StatusBehaviors<W>) {
        self.worker_behaviors
    }

    fn set_pool_name(&mut self, name: String) {
        if name.as_str().is_empty() {
            self.pool_name = None;
        } else {
            self.pool_name = Some(name);
        }
    }

    fn set_refresh_period(&mut self, period: Option<u64>) {
        self.refresh_period = period;
    }

    fn set_worker_behavior(&mut self, behavior: StatusBehaviors<W>) {
        self.worker_behaviors = behavior;
    }
}

} // verus!
