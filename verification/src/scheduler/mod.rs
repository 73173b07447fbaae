//! The scheduler core: a registry mapping task ids to factory tokens and
//! result-channel capacities, and the resolution of a spawn call into the
//! concrete plan the execution substrate is asked to carry out.
//!
//! The registry never holds the type-erased factories themselves, only the
//! token each one is filed under: the host that owns the execution substrate
//! keeps the factories, creates the result channel of each registration, and
//! executes the plans a spawn hands back.

use vstd::map::*;
use vstd::prelude::*;

use crate::scheduler::error::{SchedulerError, SchedulerResult};
use crate::scheduler::task::{plan_of, wait_until, FirePlan, Timing};

pub mod channel;
pub mod error;
pub mod task;
pub mod timer;

verus! {

/// What the registry stores for one task id: the token the host files the
/// type-erased factory under, and the capacity of the result channel that
/// was created when the id was registered.
#[derive(Debug, Clone, Copy, PartialEq, Eq, Structural)]
pub struct TaskEntry {
    pub factory: u64,
    pub buffer: usize,
}

/// What a successful spawn asks the host to do: run the factory filed under
/// `factory`, per `plan`.
#[derive(Debug, Clone, Copy, PartialEq, Eq, Structural)]
pub struct SpawnPlan {
    pub factory: u64,
    pub plan: FirePlan,
}

/// No id occurs twice.
pub open spec fn keys_unique(keys: Seq<Seq<char>>) -> bool {
    forall|i: int, j: int| 0 <= i < j < keys.len() ==> keys[i] != keys[j]
}

spec fn index_of(keys: Seq<Seq<char>>, k: Seq<char>) -> int {
    choose|i: int| 0 <= i < keys.len() && keys[i] == k
}

proof fn lemma_index_of(keys: Seq<Seq<char>>, k: Seq<char>, i: int)
    requires
        keys_unique(keys),
        0 <= i < keys.len(),
        keys[i] == k,
    ensures
        index_of(keys, k) == i,
{
    let j = index_of(keys, k);
    assert(0 <= j < keys.len() && keys[j] == k) by {
        assert(exists|x: int| 0 <= x < keys.len() && keys[x] == k);
    }
    if i < j {
        assert(keys[i] != keys[j]);
    }
    if j < i {
        assert(keys[j] != keys[i]);
    }
}

/// A registration is accepted exactly when the id is still free.
pub open spec fn spec_register_allowed(m: Map<Seq<char>, TaskEntry>, id: Seq<char>) -> bool {
    !m.contains_key(id)
}

/// The registry after a successful registration of `id`.
pub open spec fn spec_register(
    m: Map<Seq<char>, TaskEntry>,
    id: Seq<char>,
    entry: TaskEntry,
) -> Map<Seq<char>, TaskEntry> {
    m.insert(id, entry)
}

/// A removal or a spawn is accepted exactly when the id is present.
pub open spec fn spec_found(m: Map<Seq<char>, TaskEntry>, id: Seq<char>) -> bool {
    m.contains_key(id)
}

/// The registry after a successful removal of `id`.
pub open spec fn spec_remove(m: Map<Seq<char>, TaskEntry>, id: Seq<char>) -> Map<
    Seq<char>,
    TaskEntry,
> {
    m.remove(id)
}

/// Registering the same id twice fails: after a successful registration of
/// `id`, a second registration of `id` is refused (`register_task` reports
/// `DuplicateTaskId` exactly when `spec_register_allowed` is false).
pub proof fn lemma_second_register_refused(
    m: Map<Seq<char>, TaskEntry>,
    id: Seq<char>,
    entry: TaskEntry,
)
    ensures
        !spec_register_allowed(spec_register(m, id, entry), id),
{
}

/// After a removal the id is free again: re-registering it is accepted.
pub proof fn lemma_reregister_after_remove_allowed(m: Map<Seq<char>, TaskEntry>, id: Seq<char>)
    ensures
        spec_register_allowed(spec_remove(m, id), id),
{
}

/// A removal followed at once by a spawn of the same id is refused with
/// `TaskNotFound`, whatever else is registered. The registry holds no
/// instances, so instances spawned earlier — possibly still running and
/// still sending into their channel — do not re-establish the id.
pub proof fn lemma_spawn_after_remove_refused(m: Map<Seq<char>, TaskEntry>, id: Seq<char>)
    ensures
        !spec_found(spec_remove(m, id), id),
{
}

/// Registering or removing one id touches no other registration.
pub proof fn lemma_other_ids_untouched(
    m: Map<Seq<char>, TaskEntry>,
    id: Seq<char>,
    other: Seq<char>,
    entry: TaskEntry,
)
    requires
        other != id,
    ensures
        spec_remove(m, id).contains_key(other) == m.contains_key(other),
        spec_register(m, id, entry).contains_key(other) == m.contains_key(other),
        m.contains_key(other) ==> spec_remove(m, id)[other] == m[other],
        m.contains_key(other) ==> spec_register(m, id, entry)[other] == m[other],
{
}

/// Relies on `chrono::Utc::now` to read the clock, converted to
/// milliseconds since the Unix epoch with
/// `chrono::DateTime::timestamp_millis`. Nothing is promised of a clock
/// reading.
#[verifier::external_body]
fn now_utc_millis() -> i64 {
    chrono::Utc::now().timestamp_millis()
}

/// The registry of task factories and the resolution of spawn calls.
///
/// Viewed as a map from task id to its `TaskEntry`. Factory tokens are
/// handed out in order, so every stored token is below `next_factory_spec`
/// and no two registrations share one.
pub struct Scheduler {
    ids: Vec<String>,
    entries: Vec<TaskEntry>,
    next_factory: u64,
}

impl View for Scheduler {
    type V = Map<Seq<char>, TaskEntry>;

    closed spec fn view(&self) -> Map<Seq<char>, TaskEntry> {
        Map::new(
            |k: Seq<char>|
                exists|i: int| 0 <= i < self.key_seq().len() && self.key_seq()[i] == k,
            |k: Seq<char>| self.entries@[index_of(self.key_seq(), k)],
        )
    }
}

impl Scheduler {
    pub closed spec fn key_seq(&self) -> Seq<Seq<char>> {
        Seq::new(self.ids@.len(), |i: int| self.ids@[i]@)
    }

    /// The registry's invariant: one entry per id, no id twice, and every
    /// stored factory token below the counter.
    pub closed spec fn wf(&self) -> bool {
        &&& self.ids@.len() == self.entries@.len()
        &&& keys_unique(self.key_seq())
        &&& forall|i: int|
            0 <= i < self.entries@.len() ==> (#[trigger] self.entries@[i]).factory
                < self.next_factory
    }

    /// The token the next successful registration will be filed under.
    pub closed spec fn next_factory_spec(&self) -> u64 {
        self.next_factory
    }

    /// A fresh scheduler core with nothing registered. Acquiring the
    /// execution substrate is the host's business; only that acquisition
    /// can fail, never an operation on the registry itself.
    pub fn new() -> (s: Scheduler)
        ensures
            s.wf(),
            s@ == Map::<Seq<char>, TaskEntry>::empty(),
            s.next_factory_spec() == 0,
    {
        let s = Scheduler { ids: Vec::new(), entries: Vec::new(), next_factory: 0 };
        proof {
            assert(s.key_seq() =~= Seq::<Seq<char>>::empty());
            assert_maps_equal!(s@, Map::<Seq<char>, TaskEntry>::empty());
        }
        s
    }

    /// The index of `id` in the registry, if it is present.
    fn find_index(&self, id: &str) -> (r: Option<usize>)
        requires
            self.wf(),
        ensures
            match r {
                Some(i) => {
                    &&& 0 <= i < self.key_seq().len()
                    &&& self.key_seq()[i as int] == id@
                    &&& spec_found(self@, id@)
                    &&& self@[id@] == self.entries@[i as int]
                },
                None => !spec_found(self@, id@),
            },
    {
        let key: String = id.to_owned();
        let n = self.ids.len();
        let mut j: usize = 0;
        while j < n
            invariant
                self.wf(),
                n == self.ids@.len(),
                j <= n,
                key@ == id@,
                forall|t: int| 0 <= t < j ==> self.key_seq()[t] != id@,
            decreases n - j,
        {
            if self.ids[j] == key {
                proof {
                    assert(self.key_seq()[j as int] == id@);
                    lemma_index_of(self.key_seq(), id@, j as int);
                }
                return Some(j);
            }
            j += 1;
        }
        proof {
            assert(!self@.contains_key(id@)) by {
                if exists|i: int| 0 <= i < self.key_seq().len() && self.key_seq()[i] == id@ {
                    let w = choose|i: int|
                        0 <= i < self.key_seq().len() && self.key_seq()[i] == id@;
                    assert(self.key_seq()[w] != id@);
                }
            }
        }
        None
    }

    /// Whether a factory is registered under `id`. A pure lookup.
    pub fn contains(&self, id: &str) -> (r: bool)
        requires
            self.wf(),
        ensures
            r == spec_found(self@, id@),
    {
        self.find_index(id).is_some()
    }

    /// Files a new task id. The host is told the token to store the factory
    /// under; it creates the bounded result channel of capacity `buffer`,
    /// whose sender the stored factory clones into each instance, and hands
    /// the receiver to the caller. Fails with `DuplicateTaskId`, changing
    /// nothing, exactly when `id` is already present.
    pub fn register_task(&mut self, id: &str, buffer: usize) -> (r: SchedulerResult<u64>)
        requires
            old(self).wf(),
            old(self).next_factory_spec() < u64::MAX,
        ensures
            final(self).wf(),
            !spec_register_allowed(old(self)@, id@) ==> {
                &&& r matches Err(SchedulerError::DuplicateTaskId(e)) && e@ == id@
                &&& final(self)@ == old(self)@
                &&& final(self).next_factory_spec() == old(self).next_factory_spec()
            },
            spec_register_allowed(old(self)@, id@) ==> {
                &&& r matches Ok(token) && token == old(self).next_factory_spec()
                &&& final(self)@ == spec_register(
                    old(self)@,
                    id@,
                    (TaskEntry { factory: old(self).next_factory_spec(), buffer }),
                )
                &&& final(self).next_factory_spec() == old(self).next_factory_spec() + 1
            },
    {
        if self.find_index(id).is_some() {
            return Err(SchedulerError::DuplicateTaskId(id.to_owned()));
        }
        let token = self.next_factory;
        self.next_factory = token + 1;
        self.ids.push(id.to_owned());
        let entry = TaskEntry { factory: token, buffer };
        self.entries.push(entry);
        proof {
            let ks_old = old(self).key_seq();
            let ks_new = self.key_seq();
            let n = ks_old.len() as int;
            assert(ks_new =~= ks_old.push(id@));
            assert(keys_unique(ks_new)) by {
                assert forall|i: int, j: int| 0 <= i < j < ks_new.len() implies ks_new[i]
                    != ks_new[j] by {
                    if j < n {
                        assert(ks_old[i] != ks_old[j]);
                    } else {
                        assert(ks_old[i] != id@);
                    }
                }
            }
            assert_maps_equal!(self@, spec_register(old(self)@, id@, entry), k => {
                if k == id@ {
                    assert(ks_new[n] == id@);
                    lemma_index_of(ks_new, id@, n);
                    assert(self.entries@[n] == entry);
                } else {
                    if old(self)@.contains_key(k) {
                        let i = choose|i: int| 0 <= i < ks_old.len() && ks_old[i] == k;
                        assert(ks_new[i] == k);
                        lemma_index_of(ks_old, k, i);
                        lemma_index_of(ks_new, k, i);
                        assert(self.entries@[i] == old(self).entries@[i]);
                    } else {
                        if self@.contains_key(k) {
                            let j = choose|i: int|
                                0 <= i < ks_new.len() && ks_new[i] == k;
                            assert(j < n);
                            assert(ks_old[j] == k);
                        }
                    }
                }
            });
        }
        Ok(token)
    }

    /// Drops the registry's stored factory for `id` at once: the host is
    /// told which token to release, which also releases the registry's
    /// retained result-channel sender. Instances already spawned are not
    /// cancelled or waited for; they keep their own sender clones. Fails
    /// with `TaskNotFound`, changing nothing, exactly when `id` is absent.
    pub fn remove_task(&mut self, id: &str) -> (r: SchedulerResult<u64>)
        requires
            old(self).wf(),
        ensures
            final(self).wf(),
            !spec_found(old(self)@, id@) ==> {
                &&& r matches Err(SchedulerError::TaskNotFound(e)) && e@ == id@
                &&& final(self)@ == old(self)@
            },
            spec_found(old(self)@, id@) ==> {
                &&& r matches Ok(token) && token == old(self)@[id@].factory
                &&& final(self)@ == spec_remove(old(self)@, id@)
            },
            final(self).next_factory_spec() == old(self).next_factory_spec(),
    {
        match self.find_index(id) {
            None => Err(SchedulerError::TaskNotFound(id.to_owned())),
            Some(i) => {
                let _ = self.ids.remove(i);
                let entry = self.entries.remove(i);
                proof {
                    let ks_old = old(self).key_seq();
                    let ks_new = self.key_seq();
                    let n = ks_old.len() as int;
                    let idx = i as int;
                    old(self).ids@.remove_ensures(idx);
                    old(self).entries@.remove_ensures(idx);
                    assert forall|t: int| 0 <= t < ks_new.len() implies ks_new[t] == (
                    if t < idx {
                        ks_old[t]
                    } else {
                        ks_old[t + 1]
                    }) by {
                        if t < idx {
                            assert(self.ids@[t] == old(self).ids@[t]);
                        } else {
                            assert(self.ids@[t] == old(self).ids@[t + 1]);
                        }
                    }
                    assert(keys_unique(ks_new)) by {
                        assert forall|s: int, t: int| 0 <= s < t < ks_new.len() implies ks_new[s]
                            != ks_new[t] by {
                            let s0 = if s < idx { s } else { s + 1 };
                            let t0 = if t < idx { t } else { t + 1 };
                            assert(ks_old[s0] != ks_old[t0]);
                        }
                    }
                    assert_maps_equal!(self@, spec_remove(old(self)@, id@), k => {
                        if k == id@ {
                            if self@.contains_key(k) {
                                let j = choose|t: int|
                                    0 <= t < ks_new.len() && ks_new[t] == k;
                                let j0 = if j < idx { j } else { j + 1 };
                                assert(ks_old[j0] == k);
                                if j0 < idx {
                                    assert(ks_old[j0] != ks_old[idx]);
                                } else {
                                    assert(ks_old[idx] != ks_old[j0]);
                                }
                            }
                        } else {
                            if old(self)@.contains_key(k) {
                                let t = choose|t: int|
                                    0 <= t < ks_old.len() && ks_old[t] == k;
                                lemma_index_of(ks_old, k, t);
                                let t1 = if t < idx { t } else { t - 1 };
                                assert(ks_new[t1] == k);
                                lemma_index_of(ks_new, k, t1);
                                assert(self.entries@[t1] == old(self).entries@[t]);
                            } else {
                                if self@.contains_key(k) {
                                    let j = choose|t: int|
                                        0 <= t < ks_new.len() && ks_new[t] == k;
                                    let j0 = if j < idx { j } else { j + 1 };
                                    assert(ks_old[j0] == k);
                                }
                            }
                        }
                    });
                }
                Ok(entry.factory)
            },
        }
    }

    /// Resolves a spawn call: looks the id up once, now, and turns the
    /// timing policy into the plan the host hands to the substrate. A later
    /// removal of `id` does not retract a plan already returned. Only an
    /// absolute-time policy consults the clock; whatever the clock read,
    /// the plan is the policy resolved against that reading, with a time
    /// already passed waiting zero. Fails with `TaskNotFound`, exactly when
    /// `id` is absent at call time.
    pub fn spawn_task(&self, id: &str, timing: Timing) -> (r: SchedulerResult<SpawnPlan>)
        requires
            self.wf(),
        ensures
            !spec_found(self@, id@) ==> {
                &&& r matches Err(SchedulerError::TaskNotFound(e)) && e@ == id@
            },
            spec_found(self@, id@) ==> {
                &&& r matches Ok(p) && ({
                    &&& p.factory == self@[id@].factory
                    &&& (exists|now_ms: i64| p.plan == plan_of(timing, now_ms))
                    &&& (match timing {
                        Timing::Immediate => p.plan == FirePlan::Now,
                        Timing::DateTime(at_ms) => p.plan matches FirePlan::Once(_),
                        Timing::Delayed(d_ms) => p.plan == FirePlan::Once(d_ms),
                        Timing::Repeating(d_ms) => p.plan == FirePlan::Every(d_ms),
                    })
                })
            },
    {
        match self.find_index(id) {
            None => Err(SchedulerError::TaskNotFound(id.to_owned())),
            Some(i) => {
                let entry = self.entries[i];
                let plan: FirePlan;
                let ghost mut clock_ms: i64 = 0;
                match timing {
                    Timing::Immediate => {
                        plan = FirePlan::Now;
                    },
                    Timing::DateTime(at_ms) => {
                        let now_ms = now_utc_millis();
                        plan = FirePlan::Once(wait_until(at_ms, now_ms));
                        proof {
                            clock_ms = now_ms;
                        }
                    },
                    Timing::Delayed(d_ms) => {
                        plan = FirePlan::Once(d_ms);
                    },
                    Timing::Repeating(d_ms) => {
                        plan = FirePlan::Every(d_ms);
                    },
                }
                proof {
                    assert(plan == plan_of(timing, clock_ms));
                }
                Ok(SpawnPlan { factory: entry.factory, plan })
            },
        }
    }
}

} // verus!
