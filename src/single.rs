use vstd::prelude::*;
use crate::config::{Config, ConfigStatus};
use crate::pool::{clamp_size, pool_size};

verus! {

/// A pool whose size adjustment can be switched on and off.
pub trait AutoScale {
    fn toggle_auto_scale(&mut self, enabled: bool);
}

/// What the owner of a registry must do with its supervisory thread, the
/// one that periodically adjusts pool sizes.
#[derive(PartialEq, Eq, Structural, Clone, Copy, Debug)]
pub enum Supervisor {
    /// Leave it as it is.
    Unchanged,
    /// Stop and join it.
    Stop,
    /// Stop it if it runs, then start one with this period (milliseconds).
    Start(u64),
}

/// The shortest period of the single pool's size adjustment: one second.
pub const MIN_PERIOD_MS: u64 = 1000;

/// A period raised to the floor `floor`.
pub open spec fn clamp_period(period: u64, floor: u64) -> u64 {
    if period < floor {
        floor
    } else {
        period
    }
}

pub fn clamped_period(period: u64, floor: u64) -> (r: u64)
    ensures
        r == clamp_period(period, floor),
{
    if period < floor {
        floor
    } else {
        period
    }
}

/// The period used when adjustment is switched on and none was set: ten
/// seconds.
pub const DEFAULT_PERIOD_MS: u64 = 10000;

/// The process's single pool, with its adjustment state.
pub struct Pool<P> {
    pub store: P,
    pub closing: bool,
    pub auto_mode: bool,
    /// The period of the running supervisory thread, if one runs.
    pub adjusting: Option<u64>,
    /// The period a supervisory thread runs with, in milliseconds.
    pub period: u64,
}

impl<P> Pool<P> {
    /// A supervisory thread runs exactly in auto mode, with the pool's
    /// period, which is never under the floor.
    pub open spec fn wf(&self) -> bool {
        &&& self.auto_mode == self.adjusting.is_some()
        &&& self.adjusting is Some ==> self.adjusting->Some_0 == self.period
        &&& self.period >= MIN_PERIOD_MS
    }
}

impl<P: AutoScale> Pool<P> {
    /// Switches size adjustment on or off, telling the pool when it changes.
    pub fn toggle_auto_mode(&mut self, enabled: bool)
        ensures
            final(self).auto_mode == enabled,
            final(self).closing == old(self).closing,
            final(self).adjusting == old(self).adjusting,
            final(self).period == old(self).period,
            old(self).auto_mode == enabled ==> *final(self) == *old(self),
    {
        if self.auto_mode == enabled {
            return;
        }
        self.auto_mode = enabled;
        self.store.toggle_auto_scale(enabled);
    }
}

/// The period a pool set up with `period` runs its adjustment with.
pub open spec fn period_of(period: Option<u64>) -> u64 {
    match period {
        Some(p) => clamp_period(p, MIN_PERIOD_MS),
        None => DEFAULT_PERIOD_MS,
    }
}

/// Creates the single pool with `size` workers (at least one) and the
/// default setup.
pub fn initialize<P: AutoScale, W: Copy, F: Fn(usize, Config<W>, bool) -> P>(
    slot: &mut Option<Pool<P>>,
    size: usize,
    make: &F,
) -> (r: Supervisor)
    requires
        old(slot).is_none(),
        forall|s: usize, c: Config<W>, a: bool| make.requires((s, c, a)),
    ensures
        r == Supervisor::Unchanged,
        (*final(slot)) is Some,
        (*final(slot))->Some_0.wf(),
        !(*final(slot))->Some_0.auto_mode,
        !(*final(slot))->Some_0.closing,
        (*final(slot))->Some_0.adjusting.is_none(),
        (*final(slot))->Some_0.period == DEFAULT_PERIOD_MS,
        exists|c: Config<W>|
            c.spec_refresh_period().is_none() && make.ensures(
                (clamp_size(size), c, false),
                (*final(slot))->Some_0.store,
            ),
{
    init_with_config(slot, size, Config::default(), make)
}

/// Creates the single pool with `size` workers (at least one), adjusting
/// its size every `period` milliseconds (never less than a second) when a
/// period is given.
pub fn initialize_with_auto_adjustment<P: AutoScale, W: Copy, F: Fn(usize, Config<W>, bool) -> P>(
    slot: &mut Option<Pool<P>>,
    size: usize,
    period: Option<u64>,
    make: &F,
) -> (r: Supervisor)
    requires
        old(slot).is_none(),
        forall|s: usize, c: Config<W>, a: bool| make.requires((s, c, a)),
    ensures
        r == (match period {
            Some(p) => Supervisor::Start(clamp_period(p, MIN_PERIOD_MS)),
            None => Supervisor::Unchanged,
        }),
        (*final(slot)) is Some,
        (*final(slot))->Some_0.wf(),
        (*final(slot))->Some_0.auto_mode == period.is_some(),
        !(*final(slot))->Some_0.closing,
        (*final(slot))->Some_0.period == period_of(period),
        exists|c: Config<W>|
            c.spec_refresh_period() == period && make.ensures(
                (clamp_size(size), c, period.is_some()),
                (*final(slot))->Some_0.store,
            ),
{
    let mut config: Config<W> = Config::default();
    config.set_refresh_period(period);
    init_with_config(slot, size, config, make)
}

/// Creates the single pool with `size` workers (at least one) and the setup
/// `config`; its refresh period, when set, starts size adjustment.
pub fn init_with_config<P: AutoScale, W: Copy, F: Fn(usize, Config<W>, bool) -> P>(
    slot: &mut Option<Pool<P>>,
    size: usize,
    config: Config<W>,
    make: &F,
) -> (r: Supervisor)
    requires
        old(slot).is_none(),
        forall|s: usize, c: Config<W>, a: bool| make.requires((s, c, a)),
    ensures
        r == (match config.spec_refresh_period() {
            Some(p) => Supervisor::Start(clamp_period(p, MIN_PERIOD_MS)),
            None => Supervisor::Unchanged,
        }),
        (*final(slot)) is Some,
        (*final(slot))->Some_0.wf(),
        (*final(slot))->Some_0.auto_mode == config.spec_refresh_period().is_some(),
        !(*final(slot))->Some_0.closing,
        (*final(slot))->Some_0.period == period_of(config.spec_refresh_period()),
        make.ensures(
            (clamp_size(size), config, config.spec_refresh_period().is_some()),
            (*final(slot))->Some_0.store,
        ),
{
    let n = pool_size(size);
    let (auto_mode, adjusting, period, r) = match config.refresh_period() {
        Some(p) => {
            let c = clamped_period(p, MIN_PERIOD_MS);
            (true, Some(c), c, Supervisor::Start(c))
        },
        None => (false, None, DEFAULT_PERIOD_MS, Supervisor::Unchanged),
    };
    let store = make(n, config, auto_mode);
    *slot = Some(Pool { store, closing: false, auto_mode, adjusting, period });
    r
}

/// Switches size adjustment of the single pool on, starting the supervisory
/// thread with the pool's period, or off, stopping it.
pub fn update_auto_adjustment_mode<P: AutoScale>(slot: &mut Option<Pool<P>>, enabled: bool) -> (r:
    Supervisor)
    requires
        (*old(slot)) is Some ==> (*old(slot))->Some_0.wf(),
    ensures
        old(slot).is_none() ==> r == Supervisor::Unchanged && final(slot).is_none(),
        (*old(slot)) is Some ==> (*final(slot)) is Some && ({
            let (a, b) = ((*old(slot))->Some_0, (*final(slot))->Some_0);
            &&& b.wf()
            &&& b.auto_mode == enabled
            &&& b.closing == a.closing
            &&& b.period == a.period
            &&& a.auto_mode == enabled ==> r == Supervisor::Unchanged && b == a
            &&& a.auto_mode != enabled && enabled ==> r == Supervisor::Start(a.period)
                && b.adjusting == Some(a.period)
            &&& a.auto_mode != enabled && !enabled ==> r == Supervisor::Stop
                && b.adjusting.is_none()
        }),
{
    match slot {
        Some(pool) => {
            if pool.auto_mode == enabled {
                return Supervisor::Unchanged;
            }
            pool.toggle_auto_mode(enabled);
            if enabled {
                pool.adjusting = Some(pool.period);
                Supervisor::Start(pool.period)
            } else {
                pool.adjusting = None;
                Supervisor::Stop
            }
        },
        None => Supervisor::Unchanged,
    }
}

/// With a period, (re)starts the single pool's supervisory thread with it
/// (never faster than once a second) and switches adjustment on; without
/// one, stops adjustment.
pub fn reset_auto_adjustment_period<P: AutoScale>(
    slot: &mut Option<Pool<P>>,
    period: Option<u64>,
) -> (r: Supervisor)
    requires
        (*old(slot)) is Some ==> (*old(slot))->Some_0.wf(),
    ensures
        old(slot).is_none() ==> r == Supervisor::Unchanged && final(slot).is_none(),
        (*old(slot)) is Some ==> (*final(slot)) is Some && ({
            let (a, b) = ((*old(slot))->Some_0, (*final(slot))->Some_0);
            &&& b.wf()
            &&& b.closing == a.closing
            &&& period is Some ==> r == Supervisor::Start(
                clamp_period(period->Some_0, MIN_PERIOD_MS),
            ) && b.auto_mode && b.period == clamp_period(period->Some_0, MIN_PERIOD_MS)
            &&& period is None && a.auto_mode ==> r == Supervisor::Stop && !b.auto_mode
                && b.period == a.period
            &&& period is None && !a.auto_mode ==> r == Supervisor::Unchanged && b == a
        }),
{
    match slot {
        Some(pool) => match period {
            Some(p) => {
                let c = clamped_period(p, MIN_PERIOD_MS);
                pool.toggle_auto_mode(true);
                pool.period = c;
                pool.adjusting = Some(c);
                Supervisor::Start(c)
            },
            None => {
                if pool.auto_mode {
                    pool.toggle_auto_mode(false);
                    pool.adjusting = None;
                    Supervisor::Stop
                } else {
                    Supervisor::Unchanged
                }
            },
        },
        None => Supervisor::Unchanged,
    }
}

/// Takes the single pool out of the registry for closing; a second close
/// finds nothing.
pub fn close<P>(slot: &mut Option<Pool<P>>) -> (r: Option<Pool<P>>)
    ensures
        final(slot).is_none(),
        old(slot).is_none() ==> r.is_none(),
        (*old(slot)) is Some ==> r is Some && r->Some_0.closing && r->Some_0.store == (*old(slot))->Some_0.store,
{
    match slot.take() {
        Some(mut pool) => {
            pool.closing = true;
            Some(pool)
        },
        None => None,
    }
}

} // verus!
