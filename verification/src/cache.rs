//! The dashboard cache: which time-to-live applies to a dashboard state, and
//! when a cached state may still be served.

use vstd::prelude::*;
use crate::domain::{DashboardState, EntityKind, EntityView};

verus! {

/// Time-to-live settings, in seconds: a default and optional overrides for
/// lights, switches, sensors and climates (scripts have none and take the
/// default).
#[derive(Clone, Copy, Debug)]
pub struct DashboardCacheConfig {
    pub default_ttl_secs: u64,
    pub light_ttl_secs: Option<u64>,
    pub switch_ttl_secs: Option<u64>,
    pub sensor_ttl_secs: Option<u64>,
    pub climate_ttl_secs: Option<u64>,
}

/// An override, or the default where there is none.
pub open spec fn or_default(o: Option<u64>, default: u64) -> u64 {
    match o {
        Some(v) => v,
        None => default,
    }
}

/// The time-to-live, in seconds, of an entity of kind `kind`.
pub open spec fn kind_ttl(config: DashboardCacheConfig, kind: EntityKind) -> u64 {
    match kind {
        EntityKind::Light => or_default(config.light_ttl_secs, config.default_ttl_secs),
        EntityKind::Switch => or_default(config.switch_ttl_secs, config.default_ttl_secs),
        EntityKind::Sensor => or_default(config.sensor_ttl_secs, config.default_ttl_secs),
        EntityKind::Climate => or_default(config.climate_ttl_secs, config.default_ttl_secs),
        EntityKind::Script => config.default_ttl_secs,
    }
}

/// The time-to-live, in seconds, of a dashboard state: the least of its
/// entities' time-to-live, or the default for a state without entities.
pub open spec fn state_ttl(config: DashboardCacheConfig, s: Seq<EntityView>) -> u64
    decreases s.len(),
{
    if s.len() == 0 {
        config.default_ttl_secs
    } else if s.len() == 1 {
        kind_ttl(config, s[0].kind)
    } else {
        let a = state_ttl(config, s.drop_last());
        let b = kind_ttl(config, s.last().kind);
        if a <= b {
            a
        } else {
            b
        }
    }
}

/// Nanoseconds in a second.
pub open spec fn nanos_per_sec() -> int {
    1_000_000_000
}

/// Time from `then` to `now`, zero when `then` is later.
pub open spec fn elapsed(now: u128, then: u128) -> int {
    if now >= then {
        now - then
    } else {
        0
    }
}

/// Whether a state stored at `fetched_at` may still be served at `now`.
pub open spec fn is_fresh(config: DashboardCacheConfig, s: Seq<EntityView>, fetched_at: u128, now: u128) -> bool {
    elapsed(now, fetched_at) <= state_ttl(config, s) * nanos_per_sec()
}

impl DashboardCacheConfig {
    /// The time-to-live, in seconds, of an entity of kind `kind`.
    pub fn ttl_secs_for_kind(&self, kind: &EntityKind) -> (r: u64)
        ensures
            r == kind_ttl(*self, *kind),
    {
        match kind {
            EntityKind::Light => match self.light_ttl_secs {
                Some(v) => v,
                None => self.default_ttl_secs,
            },
            EntityKind::Switch => match self.switch_ttl_secs {
                Some(v) => v,
                None => self.default_ttl_secs,
            },
            EntityKind::Sensor => match self.sensor_ttl_secs {
                Some(v) => v,
                None => self.default_ttl_secs,
            },
            EntityKind::Climate => match self.climate_ttl_secs {
                Some(v) => v,
                None => self.default_ttl_secs,
            },
            EntityKind::Script => self.default_ttl_secs,
        }
    }

    /// The time-to-live, in seconds, of a whole dashboard state.
    pub fn ttl_for_state(&self, state: &DashboardState) -> (r: u64)
        ensures
            r == state_ttl(*self, state@),
    {
        let n = state.entities.len();
        let mut least: Option<u64> = None;
        for i in 0..n
            invariant
                n == state.entities@.len(),
                state@.len() == n,
                i == 0 ==> least is None,
                i > 0 ==> least == Some(state_ttl(*self, state@.take(i as int))),
        {
            let t = self.ttl_secs_for_kind(&state.entities[i].kind);
            proof {
                assert(state@.take(i + 1).drop_last() =~= state@.take(i as int));
                assert(state@.take(i + 1).last() == state@[i as int]);
            }
            least = match least {
                None => Some(t),
                Some(m) => if m <= t {
                    Some(m)
                } else {
                    Some(t)
                },
            };
        }
        proof {
            assert(state@.take(n as int) =~= state@);
        }
        match least {
            Some(m) => m,
            None => self.default_ttl_secs,
        }
    }
}

/// A dashboard state together with the instant (in nanoseconds on a
/// monotonic clock) at which it was fetched.
#[derive(Debug)]
pub struct CachedDashboardState {
    pub state: DashboardState,
    pub fetched_at_nanos: u128,
}

/// The in-memory cache of the last dashboard state.
#[derive(Debug)]
pub struct DashboardCache {
    pub config: DashboardCacheConfig,
    pub entry: Option<CachedDashboardState>,
}

impl DashboardCache {
    /// The cached state and its fetch instant, if any.
    pub open spec fn entry_view(&self) -> Option<(Seq<EntityView>, u128)> {
        match self.entry {
            Some(c) => Some((c.state@, c.fetched_at_nanos)),
            None => None,
        }
    }

    /// What a lookup at `now` serves: the cached state while it is fresh.
    pub open spec fn served_at(&self, now: u128) -> Option<Seq<EntityView>> {
        match self.entry_view() {
            Some((s, t)) => if is_fresh(self.config, s, t, now) {
                Some(s)
            } else {
                None
            },
            None => None,
        }
    }

    /// An empty cache with the given time-to-live settings.
    pub fn new(config: DashboardCacheConfig) -> (r: Self)
        ensures
            r.config == config,
            r.entry_view() is None,
    {
        DashboardCache { config, entry: None }
    }

    /// The cached state, when one is held and is still fresh at `now_nanos`.
    pub fn lookup(&self, now_nanos: u128) -> (r: Option<DashboardState>)
        ensures
            match r {
                Some(s) => self.served_at(now_nanos) == Some(s@),
                None => self.served_at(now_nanos) is None,
            },
    {
        match &self.entry {
            None => None,
            Some(cached) => {
                let ttl = self.config.ttl_for_state(&cached.state);
                let elapsed: u128 = if now_nanos >= cached.fetched_at_nanos {
                    now_nanos - cached.fetched_at_nanos
                } else {
                    0
                };
                let ttl_nanos: u128 = (ttl as u128) * 1_000_000_000u128;
                if elapsed <= ttl_nanos {
                    Some(cached.state.clone())
                } else {
                    None
                }
            },
        }
    }

    /// Keeps `state` as fetched at `now_nanos`, replacing what was held.
    pub fn store(&mut self, state: DashboardState, now_nanos: u128)
        ensures
            final(self).config == old(self).config,
            final(self).entry_view() == Some((state@, now_nanos)),
    {
        self.entry = Some(CachedDashboardState { state, fetched_at_nanos: now_nanos });
    }

    /// Drops the cached state, so that the next lookup misses.
    pub fn invalidate(&mut self)
        ensures
            final(self).config == old(self).config,
            final(self).entry_view() is None,
    {
        self.entry = None;
    }
}

/// The time-to-live of a dashboard state is the least time-to-live of its
/// entities' kinds, and the default when it has no entities.
pub proof fn law_state_ttl_is_least(config: DashboardCacheConfig, s: Seq<EntityView>)
    ensures
        s.len() == 0 ==> state_ttl(config, s) == config.default_ttl_secs,
        forall|i: int| 0 <= i < s.len() ==> state_ttl(config, s) <= kind_ttl(config, #[trigger] s[i].kind),
        s.len() > 0 ==> exists|i: int| 0 <= i < s.len() && state_ttl(config, s) == kind_ttl(config, #[trigger] s[i].kind),
    decreases s.len(),
{
    if s.len() > 1 {
        law_state_ttl_is_least(config, s.drop_last());
        let a = state_ttl(config, s.drop_last());
        let b = kind_ttl(config, s.last().kind);
        assert forall|i: int| 0 <= i < s.len() implies state_ttl(config, s) <= kind_ttl(config, #[trigger] s[i].kind) by {
            if i < s.len() - 1 {
                assert(s.drop_last()[i] == s[i]);
            }
        }
        if a <= b {
            let j = choose|j: int| 0 <= j < s.drop_last().len() && a == kind_ttl(config, #[trigger] s.drop_last()[j].kind);
            assert(s[j] == s.drop_last()[j]);
        } else {
            assert(s[s.len() - 1] == s.last());
        }
    }
}

/// Each kind takes its own override when one is configured, and the
/// default otherwise, whatever the other kinds' overrides; scripts have no
/// override and always take the default.
pub proof fn law_kind_ttl(config: DashboardCacheConfig)
    ensures
        kind_ttl(config, EntityKind::Light) == (if config.light_ttl_secs is Some {
            config.light_ttl_secs->0
        } else {
            config.default_ttl_secs
        }),
        kind_ttl(config, EntityKind::Switch) == (if config.switch_ttl_secs is Some {
            config.switch_ttl_secs->0
        } else {
            config.default_ttl_secs
        }),
        kind_ttl(config, EntityKind::Sensor) == (if config.sensor_ttl_secs is Some {
            config.sensor_ttl_secs->0
        } else {
            config.default_ttl_secs
        }),
        kind_ttl(config, EntityKind::Climate) == (if config.climate_ttl_secs is Some {
            config.climate_ttl_secs->0
        } else {
            config.default_ttl_secs
        }),
        kind_ttl(config, EntityKind::Script) == config.default_ttl_secs,
{
}

/// A cache that holds nothing serves nothing, whatever the time.
pub proof fn law_empty_cache_serves_nothing(cache: DashboardCache, now: u128)
    requires
        cache.entry_view() is None,
    ensures
        cache.served_at(now) is None,
{
}

/// A state just stored is served until its time-to-live has passed, and no
/// longer.
pub proof fn law_stored_state_served_within_ttl(cache: DashboardCache, s: Seq<EntityView>, t: u128, now: u128)
    requires
        cache.entry_view() == Some((s, t)),
    ensures
        t <= now <= t + state_ttl(cache.config, s) * nanos_per_sec() ==> cache.served_at(now) == Some(s),
        now > t + state_ttl(cache.config, s) * nanos_per_sec() ==> cache.served_at(now) is None,
        cache.served_at(t) == Some(s),
{
    assert(state_ttl(cache.config, s) * nanos_per_sec() >= 0) by (nonlinear_arith);
}

/// Whatever a lookup serves is the stored state, no older than its
/// time-to-live.
pub proof fn law_served_state_is_fresh(cache: DashboardCache, now: u128)
    requires
        cache.served_at(now) is Some,
    ensures
        cache.entry_view() matches Some((s, t)) && cache.served_at(now) == Some(s)
            && elapsed(now, t) <= state_ttl(cache.config, s) * nanos_per_sec(),
{
}

} // verus!
