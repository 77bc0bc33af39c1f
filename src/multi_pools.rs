use vstd::prelude::*;
use crate::single::{AutoScale, Supervisor, clamp_period, clamped_period};

verus! {

/// The shortest period of the registry's size adjustment: five seconds.
pub const MIN_MULTI_PERIOD_MS: u64 = 5000;

/// The period used when a pool asks for adjustment and none was set.
pub const DEFAULT_MULTI_PERIOD_MS: u64 = 10000;

/// A pool of the registry and its name.
pub struct NamedPool<P> {
    pub name: String,
    pub pool: P,
}

/// The requested pools, first one of each name, without empty names or
/// zero sizes.
pub open spec fn kept(keys: Seq<(Seq<char>, usize)>) -> Seq<(Seq<char>, usize)>
    decreases keys.len(),
{
    if keys.len() == 0 {
        Seq::empty()
    } else {
        let k = kept(keys.drop_last());
        let (n, z) = keys.last();
        if n.len() == 0 || z == 0 || k.map_values(|e: (Seq<char>, usize)| e.0).contains(n) {
            k
        } else {
            k.push((n, z))
        }
    }
}

/// The view of a list of name and size pairs.
pub open spec fn keys_view(keys: Seq<(String, usize)>) -> Seq<(Seq<char>, usize)> {
    keys.map_values(|kv: (String, usize)| (kv.0@, kv.1))
}

/// Named pools kept together, with the names whose pools take part in the
/// periodic size adjustment.
pub struct PoolStore<P> {
    store: Vec<NamedPool<P>>,
    closing: bool,
    auto_adjust_period: Option<u64>,
    adjusting: bool,
    auto_adjust_register: Vec<String>,
}

impl<P> PoolStore<P> {
    /// The names of the pools, in the order they were added.
    pub closed spec fn names(&self) -> Seq<Seq<char>> {
        self.store@.map_values(|e: NamedPool<P>| e.name@)
    }

    pub closed spec fn pool_at(&self, i: int) -> P {
        self.store@[i].pool
    }

    /// The names registered for size adjustment.
    pub closed spec fn register(&self) -> Seq<Seq<char>> {
        self.auto_adjust_register@.map_values(|s: String| s@)
    }

    /// The period for the next supervisory thread, in milliseconds.
    pub closed spec fn period(&self) -> Option<u64> {
        self.auto_adjust_period
    }

    /// Whether a supervisory thread runs.
    pub closed spec fn adjusting(&self) -> bool {
        self.adjusting
    }

    pub closed spec fn closing(&self) -> bool {
        self.closing
    }

    /// Names are unique, and a supervisory thread runs exactly while some
    /// pool is registered for adjustment.
    pub open spec fn wf(&self) -> bool {
        &&& self.names().no_duplicates()
        &&& self.register().no_duplicates()
        &&& self.adjusting() == (self.register().len() > 0)
    }

    pub fn len(&self) -> (r: usize)
        ensures
            r == self.names().len(),
    {
        self.store.len()
    }

    /// The index of the pool named `key`, if there is one.
    pub fn find(&self, key: &String) -> (r: Option<usize>)
        ensures
            r is None <==> !self.names().contains(key@),
            r is Some ==> r->Some_0 < self.names().len() && self.names()[r->Some_0 as int]
                == key@,
    {
        let mut i: usize = 0;
        while i < self.store.len()
            invariant
                i <= self.store@.len(),
                forall|k: int| 0 <= k < i ==> self.names()[k] != key@,
            decreases self.store@.len() - i,
        {
            if self.store[i].name == *key {
                assert(self.names()[i as int] == key@);
                return Some(i);
            }
            i += 1;
        }
        None
    }

    pub fn pool(&self, i: usize) -> (r: &P)
        requires
            i < self.names().len(),
        ensures
            *r == self.pool_at(i as int),
    {
        &self.store[i].pool
    }

    pub fn pool_mut(&mut self, i: usize) -> (r: &mut P)
        requires
            i < old(self).names().len(),
        ensures
            *r == old(self).pool_at(i as int),
            final(self).names() == old(self).names(),
            final(self).register() == old(self).register(),
            final(self).period() == old(self).period(),
            final(self).adjusting() == old(self).adjusting(),
            final(self).closing() == old(self).closing(),
            final(self).pool_at(i as int) == *final(r),
            forall|j: int|
                0 <= j < old(self).names().len() && j != i ==> #[trigger] final(self).pool_at(j)
                    == old(self).pool_at(j),
    {
        &mut self.store[i].pool
    }

    pub fn pool_name(&self, i: usize) -> (r: &String)
        requires
            i < self.names().len(),
        ensures
            r@ == self.names()[i as int],
    {
        &self.store[i].name
    }

    pub fn is_closing(&self) -> (r: bool)
        ensures
            r == self.closing(),
    {
        self.closing
    }

    /// Whether the pool named `key` is registered for size adjustment.
    pub fn is_registered(&self, key: &String) -> (r: bool)
        ensures
            r == self.register().contains(key@),
    {
        self.register_index(key).is_some()
    }

    /// Puts `pool` under the name `key`, in place of the pool of that name if
    /// there is one (which is handed back), else as a new pool at the end.
    pub fn insert(&mut self, key: String, pool: P) -> (r: Option<P>)
        requires
            old(self).wf(),
        ensures
            final(self).wf(),
            final(self).register() == old(self).register(),
            final(self).closing() == old(self).closing(),
            old(self).names().contains(key@) ==> r is Some && final(self).names() == old(
                self,
            ).names() && exists|k: int|
                0 <= k < old(self).names().len() && old(self).names()[k] == key@ && r->Some_0
                    == old(self).pool_at(k) && final(self).pool_at(k) == pool && forall|j: int|
                    0 <= j < old(self).names().len() && j != k ==> #[trigger] final(self).pool_at(j)
                        == old(self).pool_at(j),
            !old(self).names().contains(key@) ==> r is None && final(self).names() == old(
                self,
            ).names().push(key@) && final(self).pool_at(old(self).names().len() as int) == pool
                && forall|j: int|
                0 <= j < old(self).names().len() ==> #[trigger] final(self).pool_at(j) == old(
                    self,
                ).pool_at(j),
    {
        let ghost before = self.names();
        match self.find(&key) {
            Some(i) => {
                let ghost old_store = self.store@;
                let ghost old_self = *self;
                let ghost given = pool;
                let e = self.store.remove(i);
                self.store.insert(i, NamedPool { name: e.name, pool });
                assert(self.names() =~= before);
                assert forall|j: int| 0 <= j < before.len() && j != i implies #[trigger] self.pool_at(
                    j,
                ) == old_self.pool_at(j) by {
                    assert(self.store@[j] == old_store[j]);
                }
                assert(e == old_store[i as int]);
                assert(self.store@[i as int].pool == given);
                assert(self.pool_at(i as int) == given);
                Some(e.pool)
            },
            None => {
                let ghost old_self = *self;
                self.store.push(NamedPool { name: key, pool });
                assert(self.names() =~= before.push(key@));
                assert forall|j: int| 0 <= j < before.len() implies #[trigger] self.pool_at(j)
                    == old_self.pool_at(j) by {
                    assert(self.store@[j] == old_self.store@[j]);
                }
                proof {
                    lemma_push_unique(before, key@);
                }
                None
            },
        }
    }

    fn register_index(&self, key: &String) -> (r: Option<usize>)
        ensures
            r is None <==> !self.register().contains(key@),
            r is Some ==> r->Some_0 < self.register().len() && self.register()[r->Some_0 as int]
                == key@,
    {
        let mut i: usize = 0;
        while i < self.auto_adjust_register.len()
            invariant
                i <= self.auto_adjust_register@.len(),
                forall|k: int| 0 <= k < i ==> self.register()[k] != key@,
            decreases self.auto_adjust_register@.len() - i,
        {
            if self.auto_adjust_register[i] == *key {
                assert(self.register()[i as int] == key@);
                return Some(i);
            }
            i += 1;
        }
        None
    }

    /// Takes every pool out of the registry, for closing.
    pub fn take_pools(&mut self) -> (r: Vec<NamedPool<P>>)
        requires
            old(self).wf(),
        ensures
            final(self).wf(),
            final(self).names().len() == 0,
            r@.map_values(|e: NamedPool<P>| e.name@) == old(self).names(),
            final(self).register() == old(self).register(),
    {
        let mut r: Vec<NamedPool<P>> = Vec::new();
        std::mem::swap(&mut r, &mut self.store);
        assert(self.names() =~= Seq::<Seq<char>>::empty());
        r
    }
}

/// Removing the element at `k` from a sequence without duplicates leaves
/// exactly the other elements.
proof fn lemma_remove_unique(s: Seq<Seq<char>>, k: int)
    requires
        s.no_duplicates(),
        0 <= k < s.len(),
    ensures
        s.remove(k).no_duplicates(),
        forall|x: Seq<char>| s.remove(k).contains(x) <==> (s.contains(x) && x != s[k]),
{
    let t = s.remove(k);
    assert forall|i: int, j: int| 0 <= i < t.len() && 0 <= j < t.len() && i != j implies t[i]
        != t[j] by {
        let a = if i < k {
            i
        } else {
            i + 1
        };
        let b = if j < k {
            j
        } else {
            j + 1
        };
        assert(t[i] == s[a] && t[j] == s[b]);
    }
    assert forall|x: Seq<char>| t.contains(x) implies s.contains(x) && x != s[k] by {
        let j = choose|j: int| 0 <= j < t.len() && t[j] == x;
        if j < k {
            assert(s[j] == x);
        } else {
            assert(s[j + 1] == x);
        }
    }
    assert forall|x: Seq<char>| s.contains(x) && x != s[k] implies t.contains(x) by {
        let j = choose|j: int| 0 <= j < s.len() && s[j] == x;
        if j < k {
            assert(t[j] == x);
        } else {
            assert(t[j - 1] == x);
        }
    }
}

/// Appending an element that is not there keeps a sequence free of
/// duplicates.
proof fn lemma_push_unique(s: Seq<Seq<char>>, x: Seq<char>)
    requires
        s.no_duplicates(),
        !s.contains(x),
    ensures
        s.push(x).no_duplicates(),
        forall|y: Seq<char>| s.push(x).contains(y) <==> (s.contains(y) || y == x),
{
    let t = s.push(x);
    assert forall|i: int, j: int| 0 <= i < t.len() && 0 <= j < t.len() && i != j implies t[i]
        != t[j] by {
        if i == s.len() {
            assert(s.contains(t[j]));
        } else if j == s.len() {
            assert(s.contains(t[i]));
        }
    }
    assert forall|y: Seq<char>| t.contains(y) implies s.contains(y) || y == x by {
        let j = choose|j: int| 0 <= j < t.len() && t[j] == y;
        if j < s.len() {
            assert(s[j] == y);
        }
    }
    assert forall|y: Seq<char>| s.contains(y) || y == x implies t.contains(y) by {
        if y == x {
            assert(t[s.len() as int] == y);
        } else {
            let j = choose|j: int| 0 <= j < s.len() && s[j] == y;
            assert(t[j] == y);
        }
    }
}

/// The pools of `b` are those of `a`, under the same names, and the
/// registry's closing state is the same.
pub open spec fn same_pools<P>(a: PoolStore<P>, b: PoolStore<P>) -> bool {
    &&& b.names() == a.names()
    &&& forall|i: int| 0 <= i < a.names().len() ==> #[trigger] b.pool_at(i) == a.pool_at(i)
    &&& b.closing() == a.closing()
}

impl<P> PoolStore<P> {
    /// Starts a supervisory thread with `period` (raised to five seconds),
    /// when a pool is registered for adjustment.
    fn start(&mut self, period: u64) -> (r: Supervisor)
        requires
            old(self).names().no_duplicates(),
            old(self).register().no_duplicates(),
            old(self).adjusting() ==> old(self).register().len() > 0,
        ensures
            final(self).wf(),
            same_pools(*old(self), *final(self)),
            final(self).register() == old(self).register(),
            old(self).register().len() == 0 ==> r == Supervisor::Unchanged && *final(self)
                == *old(self),
            old(self).register().len() > 0 ==> r == Supervisor::Start(
                clamp_period(period, MIN_MULTI_PERIOD_MS),
            ) && final(self).period() == Some(clamp_period(period, MIN_MULTI_PERIOD_MS))
                && final(self).adjusting(),
    {
        if self.auto_adjust_register.len() == 0 {
            return Supervisor::Unchanged;
        }
        let c = clamped_period(period, MIN_MULTI_PERIOD_MS);
        self.auto_adjust_period = Some(c);
        self.adjusting = true;
        Supervisor::Start(c)
    }

    /// Stops the supervisory thread, if one runs, and forgets the period.
    fn halt(&mut self) -> (r: Supervisor)
        ensures
            same_pools(*old(self), *final(self)),
            final(self).register() == old(self).register(),
            final(self).period().is_none(),
            !final(self).adjusting(),
            r == (if old(self).adjusting() {
                Supervisor::Stop
            } else {
                Supervisor::Unchanged
            }),
    {
        let r = if self.adjusting {
            Supervisor::Stop
        } else {
            Supervisor::Unchanged
        };
        self.adjusting = false;
        self.auto_adjust_period = None;
        r
    }

    /// Stops the supervisory thread, forgets the period and empties the
    /// register.
    fn stop(&mut self) -> (r: Supervisor)
        requires
            old(self).wf(),
        ensures
            final(self).wf(),
            same_pools(*old(self), *final(self)),
            final(self).register().len() == 0,
            final(self).period().is_none(),
            !final(self).adjusting(),
            r == (if old(self).adjusting() {
                Supervisor::Stop
            } else {
                Supervisor::Unchanged
            }),
    {
        let ghost before = *self;
        let r = self.halt();
        let ghost halted = *self;
        self.auto_adjust_register = Vec::new();
        assert(self.register() =~= Seq::<Seq<char>>::empty());
        assert(self.names() == halted.names());
        assert(same_pools(halted, *self));
        assert(same_pools(before, *self));
        r
    }

    /// Takes the pool named `key` out of the registry.
    pub fn remove(&mut self, key: &String) -> (r: Option<P>)
        requires
            old(self).wf(),
        ensures
            final(self).wf(),
            final(self).register() == old(self).register(),
            final(self).closing() == old(self).closing(),
            !old(self).names().contains(key@) ==> r.is_none() && *final(self) == *old(self),
            old(self).names().contains(key@) ==> r is Some && exists|k: int|
                0 <= k < old(self).names().len() && old(self).names()[k] == key@ && r->Some_0
                    == old(self).pool_at(k) && final(self).names() == old(self).names().remove(k)
                    && forall|j: int|
                    0 <= j < final(self).names().len() ==> #[trigger] final(self).pool_at(j) == old(
                        self,
                    ).pool_at(if j < k {
                        j
                    } else {
                        j + 1
                    }),
    {
        match self.find(key) {
            Some(i) => {
                let ghost before = self.names();
                let ghost old_self = *self;
                let e = self.store.remove(i);
                assert(self.names() =~= before.remove(i as int));
                proof {
                    lemma_remove_unique(before, i as int);
                }
                assert(e.pool == old_self.pool_at(i as int));
                assert forall|j: int| 0 <= j < self.names().len() implies #[trigger] self.pool_at(j)
                    == old_self.pool_at(if j < i {
                    j
                } else {
                    j + 1
                }) by {
                    if j < i {
                        assert(self.store@[j] == old_self.store@[j]);
                    } else {
                        assert(self.store@[j] == old_self.store@[j + 1]);
                    }
                }
                Some(e.pool)
            },
            None => None,
        }
    }
}

/// The effect of registering the pool named `key` for adjustment (or taking
/// it out) on registry `a`, giving `b` and the action `r`.
pub open spec fn toggled<P>(
    a: PoolStore<P>,
    b: PoolStore<P>,
    key: Seq<char>,
    auto_adjust: bool,
    r: Supervisor,
) -> bool {
    let known = a.names().contains(key);
    let period = clamp_period(
        match a.period() {
            Some(p) => p,
            None => DEFAULT_MULTI_PERIOD_MS,
        },
        MIN_MULTI_PERIOD_MS,
    );
    &&& b.wf()
    &&& b.names() == a.names()
    &&& b.closing() == a.closing()
    &&& forall|i: int|
        0 <= i < a.names().len() && a.names()[i] != key ==> #[trigger] b.pool_at(i) == a.pool_at(i)
    &&& (!known || (a.register().len() == 0 && !auto_adjust)) ==> r == Supervisor::Unchanged && b
        == a
    &&& (known && auto_adjust) ==> {
        &&& forall|k: Seq<char>|
            #[trigger] b.register().contains(k) <==> (a.register().contains(k) || k == key)
        &&& b.adjusting()
        &&& !a.adjusting() ==> r == Supervisor::Start(period) && b.period() == Some(period)
        &&& a.adjusting() ==> r == Supervisor::Unchanged && b.period() == a.period()
    }
    &&& (known && !auto_adjust && a.register().len() > 0) ==> {
        &&& forall|k: Seq<char>|
            #[trigger] b.register().contains(k) <==> (a.register().contains(k) && k != key)
        &&& b.register().len() == 0 ==> r == Supervisor::Stop && b.period().is_none()
            && !b.adjusting()
        &&& b.register().len() > 0 ==> r == Supervisor::Unchanged && b.period() == a.period()
            && b.adjusting()
    }
}

impl<P: AutoScale> PoolStore<P> {
    fn toggle(&mut self, key: String, auto_adjust: bool) -> (r: Supervisor)
        requires
            old(self).wf(),
        ensures
            toggled(*old(self), *final(self), key@, auto_adjust, r),
    {
        let i = match self.find(&key) {
            Some(i) => i,
            None => {
                return Supervisor::Unchanged;
            },
        };
        if self.auto_adjust_register.len() == 0 && !auto_adjust {
            return Supervisor::Unchanged;
        }
        let ghost a = *self;
        proof {
            assert forall|j: int| 0 <= j < a.names().len() && a.names()[j] == key@ implies j
                == i by {
                assert(a.names()[i as int] == key@);
            }
        }
        self.store[i].pool.toggle_auto_scale(auto_adjust);
        let ghost toggled = *self;
        assert(toggled.names() =~= a.names());
        assert forall|j: int|
            0 <= j < a.names().len() && a.names()[j] != key@ implies #[trigger] toggled.pool_at(j)
            == a.pool_at(j) by {
            assert(j != i);
        }
        if auto_adjust {
            let launch = !self.adjusting;
            match self.register_index(&key) {
                Some(_) => {},
                None => {
                    let ghost reg = self.register();
                    self.auto_adjust_register.push(key);
                    assert(self.register() =~= reg.push(key@));
                    proof {
                        lemma_push_unique(reg, key@);
                    }
                },
            }
            if launch {
                let p = match self.auto_adjust_period {
                    Some(p) => p,
                    None => DEFAULT_MULTI_PERIOD_MS,
                };
                self.start(p)
            } else {
                Supervisor::Unchanged
            }
        } else {
            match self.register_index(&key) {
                Some(k) => {
                    let ghost reg = self.register();
                    self.auto_adjust_register.remove(k);
                    assert(self.register() =~= reg.remove(k as int));
                    proof {
                        lemma_remove_unique(reg, k as int);
                    }
                },
                None => {},
            }
            if self.auto_adjust_register.len() == 0 {
                self.halt()
            } else {
                Supervisor::Unchanged
            }
        }
    }
}

/// Creates the registry with one pool per requested name and size; a second
/// name equal to an earlier one, an empty name and a zero size are skipped.
pub fn initialize<P, F: Fn(usize) -> P>(
    slot: &mut Option<PoolStore<P>>,
    keys: Vec<(String, usize)>,
    make: &F,
)
    requires
        keys@.len() > 0 ==> old(slot).is_none(),
        forall|s: usize| make.requires((s,)),
    ensures
        keys@.len() == 0 ==> *final(slot) == *old(slot),
        keys@.len() > 0 ==> (*final(slot)) is Some && ({
            let ps = (*final(slot))->Some_0;
            let k = kept(keys_view(keys@));
            &&& ps.wf()
            &&& ps.names() == k.map_values(|e: (Seq<char>, usize)| e.0)
            &&& forall|i: int| 0 <= i < k.len() ==> make.ensures((k[i].1,), #[trigger] ps.pool_at(i))
            &&& ps.register().len() == 0
            &&& ps.period().is_none()
            &&& !ps.adjusting()
            &&& !ps.closing()
        }),
{
    initialize_with_auto_adjustment(slot, keys, None, make)
}

/// As `initialize`, and sets the period (milliseconds) that the supervisory
/// thread will run with once a pool asks for size adjustment.
pub fn initialize_with_auto_adjustment<P, F: Fn(usize) -> P>(
    slot: &mut Option<PoolStore<P>>,
    keys: Vec<(String, usize)>,
    period: Option<u64>,
    make: &F,
)
    requires
        keys@.len() > 0 ==> old(slot).is_none(),
        forall|s: usize| make.requires((s,)),
    ensures
        keys@.len() == 0 ==> *final(slot) == *old(slot),
        keys@.len() > 0 ==> (*final(slot)) is Some && ({
            let ps = (*final(slot))->Some_0;
            let k = kept(keys_view(keys@));
            &&& ps.wf()
            &&& ps.names() == k.map_values(|e: (Seq<char>, usize)| e.0)
            &&& forall|i: int| 0 <= i < k.len() ==> make.ensures((k[i].1,), #[trigger] ps.pool_at(i))
            &&& ps.register().len() == 0
            &&& ps.period() == period
            &&& !ps.adjusting()
            &&& !ps.closing()
        }),
{
    if keys.len() == 0 {
        return;
    }
    let ghost kv = keys_view(keys@);
    let mut ps: PoolStore<P> = PoolStore {
        store: Vec::new(),
        closing: false,
        auto_adjust_period: period,
        adjusting: false,
        auto_adjust_register: Vec::new(),
    };
    assert(ps.names() =~= Seq::<Seq<char>>::empty());
    assert(ps.register() =~= Seq::<Seq<char>>::empty());
    assert(kv.subrange(0, 0) =~= Seq::<(Seq<char>, usize)>::empty());
    let mut i: usize = 0;
    while i < keys.len()
        invariant
            i <= keys@.len(),
            kv == keys_view(keys@),
            forall|s: usize| make.requires((s,)),
            ps.wf(),
            ps.register().len() == 0,
            ps.auto_adjust_period == period,
            !ps.adjusting,
            !ps.closing,
            ps.names() == kept(kv.subrange(0, i as int)).map_values(
                |e: (Seq<char>, usize)| e.0,
            ),
            ps.store@.len() == kept(kv.subrange(0, i as int)).len(),
            forall|j: int|
                0 <= j < ps.store@.len() ==> make.ensures(
                    (kept(kv.subrange(0, i as int))[j].1,),
                    #[trigger] ps.pool_at(j),
                ),
        decreases keys@.len() - i,
    {
        let ghost before = kept(kv.subrange(0, i as int));
        let ghost prev_names = ps.names();
        assert(kv.subrange(0, i + 1).drop_last() =~= kv.subrange(0, i as int));
        assert(kv.subrange(0, i + 1).last() == kv[i as int]);
        let name = keys[i].0.clone();
        let size = keys[i].1;
        if !name.as_str().is_empty() && size != 0 && ps.find(&name).is_none() {
            let ghost old_store = ps.store@;
            let ghost old_ps = ps;
            let pool = make(size);
            let ghost made = pool;
            ps.store.push(NamedPool { name, pool });
            assert(ps.names() =~= prev_names.push(keys@[i as int].0@));
            assert(kept(kv.subrange(0, i + 1)) == before.push((keys@[i as int].0@, size)));
            assert(kept(kv.subrange(0, i + 1)).map_values(|e: (Seq<char>, usize)| e.0)
                =~= before.map_values(|e: (Seq<char>, usize)| e.0).push(keys@[i as int].0@));
            assert forall|j: int| 0 <= j < ps.store@.len() implies make.ensures(
                (kept(kv.subrange(0, i + 1))[j].1,),
                #[trigger] ps.pool_at(j),
            ) by {
                if j < before.len() {
                    assert(ps.store@[j] == old_store[j]);
                    assert(kept(kv.subrange(0, i + 1))[j] == before[j]);
                    assert(make.ensures((before[j].1,), old_ps.pool_at(j)));
                } else {
                    assert(ps.store@[j].pool == made);
                    assert(kept(kv.subrange(0, i + 1))[j].1 == size);
                }
            }
        }
        i += 1;
    }
    assert(kv.subrange(0, keys@.len() as int) =~= kv);
    *slot = Some(ps);
}

/// Registers the pool named `key` for size adjustment, or takes it out, and
/// tells the pool. The first registration starts the supervisory thread
/// (with the stored period, else ten seconds); the last removal stops it.
/// An unknown name changes nothing, nor does a removal from an empty set.
pub fn toggle_pool_auto_mode<P: AutoScale>(
    slot: &mut Option<PoolStore<P>>,
    key: String,
    auto_adjust: bool,
) -> (r: Supervisor)
    requires
        (*old(slot)) is Some ==> (*old(slot))->Some_0.wf(),
    ensures
        old(slot).is_none() ==> r == Supervisor::Unchanged && final(slot).is_none(),
        (*old(slot)) is Some ==> (*final(slot)) is Some && toggled(
            (*old(slot))->Some_0,
            (*final(slot))->Some_0,
            key@,
            auto_adjust,
            r,
        ),
{
    match slot {
        Some(ps) => ps.toggle(key, auto_adjust),
        None => Supervisor::Unchanged,
    }
}

/// What adding a pool named `key` with `size` workers comes to.
#[derive(PartialEq, Eq, Structural, Clone, Copy, Debug)]
pub enum AddPlan {
    /// An empty name or a zero size: nothing to do.
    Ignore,
    /// A pool of that name exists, at this index.
    Existing(usize),
    /// No pool has that name: add a new one.
    Insert,
}

/// Where a job submitted under a pool name goes.
#[derive(PartialEq, Eq, Structural, Clone, Copy, Debug)]
pub enum Route {
    /// The registry is closing: the job is dropped.
    Closing,
    /// The pool at this index takes it.
    Pool(usize),
    /// No pool has that name: the job is dropped.
    Unknown,
}

/// What adding a pool under a name that exists does.
#[derive(PartialEq, Eq, Structural, Clone, Copy, Debug)]
pub enum AddAction {
    /// Resize the existing pool to the requested size.
    Resize,
    /// Put a new pool in its place.
    Replace,
}

/// A pool of `current_size` workers asked for under its name with `size`
/// workers is resized when the sizes differ, and replaced when they agree.
pub fn resize_or_replace(current_size: usize, size: usize) -> (r: AddAction)
    ensures
        r == (if current_size != size {
            AddAction::Resize
        } else {
            AddAction::Replace
        }),
{
    if current_size != size {
        AddAction::Resize
    } else {
        AddAction::Replace
    }
}

impl<P> PoolStore<P> {
    pub fn route(&self, key: &String) -> (r: Route)
        ensures
            self.closing() ==> r == Route::Closing,
            (!self.closing() && self.names().contains(key@)) ==> r is Pool && r->Pool_0
                < self.names().len() && self.names()[r->Pool_0 as int] == key@,
            (!self.closing() && !self.names().contains(key@)) ==> r == Route::Unknown,
    {
        if self.closing {
            return Route::Closing;
        }
        match self.find(key) {
            Some(i) => Route::Pool(i),
            None => Route::Unknown,
        }
    }

    pub fn add_pool_plan(&self, key: &String, size: usize) -> (r: AddPlan)
        ensures
            (key@.len() == 0 || size == 0) ==> r == AddPlan::Ignore,
            (key@.len() > 0 && size > 0 && self.names().contains(key@)) ==> r is Existing
                && r->Existing_0 < self.names().len() && self.names()[r->Existing_0 as int]
                == key@,
            (key@.len() > 0 && size > 0 && !self.names().contains(key@)) ==> r == AddPlan::Insert,
    {
        if key.as_str().is_empty() || size == 0 {
            return AddPlan::Ignore;
        }
        match self.find(key) {
            Some(i) => AddPlan::Existing(i),
            None => AddPlan::Insert,
        }
    }
}

/// Whether the pool named `key` takes part in size adjustment.
pub fn is_pool_in_auto_mode<P>(slot: &Option<PoolStore<P>>, key: String) -> (r: bool)
    ensures
        r == (slot is Some && slot->Some_0.register().contains(key@)),
{
    match slot {
        Some(ps) => ps.register_index(&key).is_some(),
        None => false,
    }
}

/// Starts the supervisory thread with `period` milliseconds (never less
/// than five seconds), replacing a running one; nothing happens while no
/// pool is registered for adjustment.
pub fn start_auto_adjustment<P>(slot: &mut Option<PoolStore<P>>, period: u64) -> (r: Supervisor)
    requires
        (*old(slot)) is Some ==> (*old(slot))->Some_0.wf(),
    ensures
        old(slot).is_none() ==> r == Supervisor::Unchanged && final(slot).is_none(),
        (*old(slot)) is Some ==> (*final(slot)) is Some && ({
            let (a, b) = ((*old(slot))->Some_0, (*final(slot))->Some_0);
            &&& b.wf()
            &&& same_pools(a, b)
            &&& b.register() == a.register()
            &&& a.register().len() == 0 ==> r == Supervisor::Unchanged && b == a
            &&& a.register().len() > 0 ==> r == Supervisor::Start(
                clamp_period(period, MIN_MULTI_PERIOD_MS),
            ) && b.period() == Some(clamp_period(period, MIN_MULTI_PERIOD_MS)) && b.adjusting()
        }),
{
    match slot {
        Some(ps) => ps.start(period),
        None => Supervisor::Unchanged,
    }
}

/// Stops the supervisory thread, forgets the period and empties the set of
/// pools registered for adjustment.
pub fn stop_auto_adjustment<P>(slot: &mut Option<PoolStore<P>>) -> (r: Supervisor)
    requires
        (*old(slot)) is Some ==> (*old(slot))->Some_0.wf(),
    ensures
        old(slot).is_none() ==> r == Supervisor::Unchanged && final(slot).is_none(),
        (*old(slot)) is Some ==> (*final(slot)) is Some && ({
            let (a, b) = ((*old(slot))->Some_0, (*final(slot))->Some_0);
            &&& b.wf()
            &&& same_pools(a, b)
            &&& b.register().len() == 0
            &&& b.period().is_none()
            &&& !b.adjusting()
            &&& r == (if a.adjusting() {
                Supervisor::Stop
            } else {
                Supervisor::Unchanged
            })
        }),
{
    match slot {
        Some(ps) => ps.stop(),
        None => Supervisor::Unchanged,
    }
}

/// With a period, restarts the supervisory thread with it (never faster
/// than once in five seconds) while some pool is registered for adjustment;
/// without one, stops adjustment as `stop_auto_adjustment` does.
pub fn reset_auto_adjustment_period<P>(slot: &mut Option<PoolStore<P>>, period: Option<u64>) -> (r:
    Supervisor)
    requires
        (*old(slot)) is Some ==> (*old(slot))->Some_0.wf(),
    ensures
        old(slot).is_none() ==> r == Supervisor::Unchanged && final(slot).is_none(),
        (*old(slot)) is Some ==> (*final(slot)) is Some && ({
            let (a, b) = ((*old(slot))->Some_0, (*final(slot))->Some_0);
            &&& b.wf()
            &&& same_pools(a, b)
            &&& period is Some ==> b.register() == a.register()
            &&& (period is Some && a.register().len() > 0) ==> r == Supervisor::Start(
                clamp_period(period->Some_0, MIN_MULTI_PERIOD_MS),
            ) && b.period() == Some(clamp_period(period->Some_0, MIN_MULTI_PERIOD_MS))
                && b.adjusting()
            &&& (period is Some && a.register().len() == 0) ==> r == Supervisor::Unchanged
                && b == a
            &&& period is None ==> r == (if a.adjusting() {
                Supervisor::Stop
            } else {
                Supervisor::Unchanged
            }) && b.register().len() == 0 && b.period().is_none() && !b.adjusting()
        }),
{
    match slot {
        Some(ps) => match period {
            Some(p) => ps.start(p),
            None => ps.stop(),
        },
        None => Supervisor::Unchanged,
    }
}

/// Takes the registry out of its slot for closing, marked as closing.
pub fn close<P>(slot: &mut Option<PoolStore<P>>) -> (r: Option<PoolStore<P>>)
    ensures
        final(slot).is_none(),
        old(slot).is_none() ==> r.is_none(),
        (*old(slot)) is Some ==> r is Some && r->Some_0.closing() && r->Some_0.names() == (*old(
            slot,
        ))->Some_0.names() && r->Some_0.register() == (*old(slot))->Some_0.register(),
{
    match slot.take() {
        Some(mut ps) => {
            ps.closing = true;
            Some(ps)
        },
        None => None,
    }
}

} // verus!
