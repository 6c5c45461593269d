//! Scheduling of per-service check workers: the registry of running
//! workers, the supervisor's restart backoff, and the decisions a worker takes
//! on each tick.
use vstd::prelude::*;
use vstd::string::*;
use crate::checkers::{CheckOutput, CheckStatus, status_text};

verus! {

/// The keys of `es` are pairwise distinct.
pub open spec fn ids_distinct<H>(es: Seq<(String, H)>) -> bool {
    forall|i: int, j: int| 0 <= i < j < es.len() ==> es[i].0@ != es[j].0@
}

/// The map from service id to handle that `es` denotes.
pub open spec fn handle_map<H>(es: Seq<(String, H)>) -> Map<Seq<char>, H> {
    Map::new(
        |k: Seq<char>| exists|i: int| 0 <= i < es.len() && es[i].0@ == k,
        |k: Seq<char>| es[choose|i: int| 0 <= i < es.len() && es[i].0@ == k].1,
    )
}

proof fn lemma_handle_map_at<H>(es: Seq<(String, H)>, i: int)
    requires
        ids_distinct(es),
        0 <= i < es.len(),
    ensures
        handle_map(es).dom().contains(es[i].0@),
        handle_map(es)[es[i].0@] == es[i].1,
{
    let k = es[i].0@;
    assert(0 <= i < es.len() && es[i].0@ == k);
    let c = choose|j: int| 0 <= j < es.len() && es[j].0@ == k;
    assert(c == i);
}

proof fn lemma_handle_map_remove<H>(es: Seq<(String, H)>, i: int)
    requires
        ids_distinct(es),
        0 <= i < es.len(),
    ensures
        ids_distinct(es.remove(i)),
        handle_map(es.remove(i)) == handle_map(es).remove(es[i].0@),
{
    let rs = es.remove(i);
    let k = es[i].0@;
    assert forall|a: int, b: int| 0 <= a < b < rs.len() implies rs[a].0@ != rs[b].0@ by {
        let a2 = if a < i { a } else { a + 1 };
        let b2 = if b < i { b } else { b + 1 };
        assert(rs[a] == es[a2]);
        assert(rs[b] == es[b2]);
    }
    let want = handle_map(es).remove(k);
    assert forall|kk: Seq<char>| #[trigger] handle_map(rs).dom().contains(kk) == want.dom().contains(kk) by {
        if handle_map(rs).dom().contains(kk) {
            let a = choose|a: int| 0 <= a < rs.len() && rs[a].0@ == kk;
            let a2 = if a < i { a } else { a + 1 };
            assert(es[a2].0@ == kk);
            assert(a2 != i);
        }
        if want.dom().contains(kk) {
            let j = choose|j: int| 0 <= j < es.len() && es[j].0@ == kk;
            assert(j != i);
            let j2 = if j < i { j } else { j - 1 };
            assert(rs[j2] == es[j]);
        }
    }
    assert forall|kk: Seq<char>| #[trigger] handle_map(rs).dom().contains(kk) implies handle_map(rs)[kk]
        == want[kk] by {
        let a = choose|a: int| 0 <= a < rs.len() && rs[a].0@ == kk;
        let a2 = if a < i { a } else { a + 1 };
        assert(rs[a] == es[a2]);
        lemma_handle_map_at(es, a2);
        lemma_handle_map_at(rs, a);
    }
    assert(handle_map(rs) =~= want);
}

proof fn lemma_handle_map_push<H>(es: Seq<(String, H)>, k: String, h: H)
    requires
        ids_distinct(es),
        !handle_map(es).dom().contains(k@),
    ensures
        ids_distinct(es.push((k, h))),
        handle_map(es.push((k, h))) == handle_map(es).insert(k@, h),
{
    let ps = es.push((k, h));
    let n = es.len() as int;
    assert forall|a: int, b: int| 0 <= a < b < ps.len() implies ps[a].0@ != ps[b].0@ by {
        if b == n {
            assert(ps[a] == es[a]);
            if es[a].0@ == k@ {
                assert(0 <= a < es.len() && es[a].0@ == k@);
            }
        }
    }
    let want = handle_map(es).insert(k@, h);
    assert forall|kk: Seq<char>| #[trigger] handle_map(ps).dom().contains(kk) == want.dom().contains(kk) by {
        if handle_map(ps).dom().contains(kk) {
            let a = choose|a: int| 0 <= a < ps.len() && ps[a].0@ == kk;
            if a < n {
                assert(es[a].0@ == kk);
            }
        }
        if want.dom().contains(kk) {
            if kk == k@ {
                assert(ps[n].0@ == kk);
            } else {
                let j = choose|j: int| 0 <= j < es.len() && es[j].0@ == kk;
                assert(ps[j] == es[j]);
            }
        }
    }
    assert forall|kk: Seq<char>| #[trigger] handle_map(ps).dom().contains(kk) implies handle_map(ps)[kk]
        == want[kk] by {
        let a = choose|a: int| 0 <= a < ps.len() && ps[a].0@ == kk;
        lemma_handle_map_at(ps, a);
        if a < n {
            assert(ps[a] == es[a]);
            lemma_handle_map_at(es, a);
        }
    }
    assert(handle_map(ps) =~= want);
}

/// The running worker of each service, by service id.
pub struct Registry<H> {
    entries: Vec<(String, H)>,
}

impl<H> Registry<H> {
    #[verifier::type_invariant]
    spec fn distinct_ids(self) -> bool {
        ids_distinct(self.entries@)
    }

    /// The registry as a map from service id to worker handle.
    pub closed spec fn view(self) -> Map<Seq<char>, H> {
        handle_map(self.entries@)
    }

    /// An empty registry.
    pub fn new() -> (r: Registry<H>)
        ensures
            r.view() == Map::<Seq<char>, H>::empty(),
    {
        let r = Registry { entries: Vec::new() };
        assert(r.view() =~= Map::<Seq<char>, H>::empty());
        r
    }

    fn find(&self, id: &str) -> (r: Option<usize>)
        ensures
            match r {
                Some(i) => i < self.entries@.len() && self.entries@[i as int].0@ == id@,
                None => !self.view().dom().contains(id@),
            },
    {
        let n = self.entries.len();
        let k = String::from_str(id);
        let mut i: usize = 0;
        while i < n
            invariant
                n == self.entries@.len(),
                k@ == id@,
                i <= n,
                forall|j: int| 0 <= j < i ==> self.entries@[j].0@ != id@,
            decreases n - i,
        {
            if self.entries[i].0 == k {
                return Some(i);
            }
            i = i + 1;
        }
        None
    }

    /// Number of registered workers.
    pub fn len(&self) -> (n: usize)
        ensures
            n == self.view().dom().len(),
    {
        proof {
            use_type_invariant(self);
            self.lemma_len();
        }
        self.entries.len()
    }

    proof fn lemma_len(self)
        requires
            ids_distinct(self.entries@),
        ensures
            self.view().dom().len() == self.entries@.len(),
            self.view().dom().finite(),
        decreases self.entries@.len(),
    {
        let es = self.entries@;
        let keys = es.map_values(|e: (String, H)| e.0@);
        assert forall|k: Seq<char>| self.view().dom().contains(k) == keys.to_set().contains(k) by {
            if self.view().dom().contains(k) {
                let i = choose|i: int| 0 <= i < es.len() && es[i].0@ == k;
                assert(keys[i] == k);
            }
            if keys.to_set().contains(k) {
                let i = choose|i: int| 0 <= i < keys.len() && keys[i] == k;
                assert(es[i].0@ == k);
            }
        }
        assert(self.view().dom() =~= keys.to_set());
        assert forall|a: int, b: int| 0 <= a < b < keys.len() implies keys[a] != keys[b] by {}
        assert(keys.no_duplicates());
        keys.unique_seq_to_set();
    }

    /// Whether `id` has a registered worker.
    pub fn contains(&self, id: &str) -> (r: bool)
        ensures
            r == self.view().dom().contains(id@),
    {
        proof {
            use_type_invariant(self);
        }
        match self.find(id) {
            Some(i) => {
                proof {
                    lemma_handle_map_at(self.entries@, i as int);
                }
                true
            },
            None => false,
        }
    }

    /// Takes out the worker registered for `id`, if any (the caller stops
    /// it).
    pub fn remove(&mut self, id: &str) -> (r: Option<H>)
        ensures
            final(self).view() == old(self).view().remove(id@),
            r == (if old(self).view().dom().contains(id@) {
                Some(old(self).view()[id@])
            } else {
                None::<H>
            }),
    {
        proof {
            use_type_invariant(&*self);
        }
        match self.find(id) {
            Some(i) => {
                let ghost es = self.entries@;
                proof {
                    lemma_handle_map_at(es, i as int);
                    lemma_handle_map_remove(es, i as int);
                }
                let mut entries: Vec<(String, H)> = Vec::new();
                std::mem::swap(&mut entries, &mut self.entries);
                let (_, h) = entries.remove(i);
                self.entries = entries;
                Some(h)
            },
            None => {
                assert(self.view().remove(id@) =~= self.view());
                None
            },
        }
    }

    /// Registers `handle` as the worker for `id` and hands back the worker it
    /// replaces, if any (the caller stops it), so that a service never has
    /// two workers.
    pub fn replace(&mut self, id: String, handle: H) -> (r: Option<H>)
        ensures
            final(self).view() == old(self).view().insert(id@, handle),
            r == (if old(self).view().dom().contains(id@) {
                Some(old(self).view()[id@])
            } else {
                None::<H>
            }),
    {
        let previous = self.remove(id.as_str());
        proof {
            use_type_invariant(&*self);
        }
        let ghost es = self.entries@;
        proof {
            lemma_handle_map_push(es, id, handle);
        }
        let mut entries: Vec<(String, H)> = Vec::new();
        std::mem::swap(&mut entries, &mut self.entries);
        entries.push((id, handle));
        self.entries = entries;
        proof {
            assert(self.view() =~= old(self).view().insert(id@, handle));
        }
        previous
    }
}

/// Law: after `replace(id, h)` the worker registered for `id` is `h` and
/// every other service keeps exactly the worker it had; after `remove(id)`
/// no worker is registered for `id` and every other service again keeps its
/// worker. So a service never has two workers, and starting or stopping one
/// service's worker never disturbs another's.
pub proof fn lemma_registry_read_after_write<H>(
    before: Registry<H>,
    after_replace: Registry<H>,
    after_remove: Registry<H>,
    id: Seq<char>,
    handle: H,
)
    requires
        after_replace.view() == before.view().insert(id, handle),
        after_remove.view() == before.view().remove(id),
    ensures
        after_replace.view().dom().contains(id),
        after_replace.view()[id] == handle,
        !after_remove.view().dom().contains(id),
        forall|other: Seq<char>|
            other != id ==> {
                &&& after_replace.view().dom().contains(other) == before.view().dom().contains(other)
                &&& after_remove.view().dom().contains(other) == before.view().dom().contains(other)
                &&& before.view().dom().contains(other) ==> {
                    &&& after_replace.view()[other] == before.view()[other]
                    &&& after_remove.view()[other] == before.view()[other]
                }
            },
{
}

/// Longest pause between restarts of a crashed worker, in seconds.
pub const MAX_BACKOFF_SECS: u64 = 60;
/// Pause before the first restart of a crashed worker, in seconds.
pub const INITIAL_BACKOFF_SECS: u64 = 5;

/// The pause after `secs`: doubled, but at most a minute.
pub open spec fn next_backoff_spec(secs: u64) -> u64 {
    if 2 * secs < MAX_BACKOFF_SECS { (2 * secs) as u64 } else { MAX_BACKOFF_SECS }
}

/// Doubles a restart pause, capped at a minute.
pub fn next_backoff(secs: u64) -> (r: u64)
    requires
        secs <= u64::MAX / 2,
    ensures
        r == next_backoff_spec(secs),
{
    let doubled = secs * 2;
    if doubled < MAX_BACKOFF_SECS { doubled } else { MAX_BACKOFF_SECS }
}

/// Law: starting from the initial pause, every pause lies between five
/// seconds and one minute and never shrinks.
pub proof fn lemma_backoff_bounded(secs: u64)
    requires
        INITIAL_BACKOFF_SECS <= secs <= MAX_BACKOFF_SECS,
    ensures
        INITIAL_BACKOFF_SECS <= next_backoff_spec(secs) <= MAX_BACKOFF_SECS,
        secs <= next_backoff_spec(secs),
{
}

/// How a worker task ended.
#[derive(Debug, Clone, Copy, PartialEq, Eq, Structural)]
pub enum WorkerExit {
    /// It returned: its service was deleted or disabled.
    Returned,
    /// It panicked.
    Panicked,
}

/// What the supervisor does when a worker task ends.
#[derive(Debug, Clone, Copy, PartialEq, Eq, Structural)]
pub enum Supervision {
    /// Stop supervising.
    Stop,
    /// Wait `sleep_secs`, restart the worker, and use `next_backoff_secs` for
    /// the pause after the following crash.
    Restart { sleep_secs: u64, next_backoff_secs: u64 },
}

/// Decides what follows the end of a worker task, given the current pause.
pub fn supervise(exit: WorkerExit, backoff_secs: u64) -> (r: Supervision)
    requires
        backoff_secs <= u64::MAX / 2,
    ensures
        match exit {
            WorkerExit::Returned => r == Supervision::Stop,
            WorkerExit::Panicked => r == (Supervision::Restart {
                sleep_secs: backoff_secs,
                next_backoff_secs: next_backoff_spec(backoff_secs),
            }),
        },
{
    match exit {
        WorkerExit::Returned => Supervision::Stop,
        WorkerExit::Panicked => Supervision::Restart {
            sleep_secs: backoff_secs,
            next_backoff_secs: next_backoff(backoff_secs),
        },
    }
}

/// What a worker learned when it looked up its service.
#[derive(Debug, Clone, Copy, PartialEq, Eq, Structural)]
pub enum ServiceLookup {
    /// The lookup failed.
    Failed,
    /// The service no longer exists.
    Missing,
    /// The service exists with these settings.
    Found { enabled: bool, interval_secs: i64 },
}

/// What a worker does on a tick.
#[derive(Debug, Clone, Copy, PartialEq, Eq, Structural)]
pub enum TickPlan {
    /// Stop the worker.
    Stop,
    /// Skip this tick.
    Skip,
    /// Run a check with at most `timeout_secs`; when `retime` is set, first
    /// switch the ticker to a period of `period_secs` and wait one tick.
    Check { retime: bool, period_secs: u64, timeout_secs: u64 },
}

/// The period (in seconds) a service's interval asks for: the interval
/// reinterpreted as an unsigned count, as a cast of the stored integer does.
pub open spec fn period_of(interval_secs: i64) -> u64 {
    interval_secs as u64
}

/// The check deadline for an interval: the interval, but at least 30
/// seconds, reinterpreted as an unsigned count.
pub open spec fn timeout_of(interval_secs: i64) -> u64 {
    (if interval_secs < 30 { 30 } else { interval_secs }) as u64
}

/// Law: the check deadline is the service's interval, raised to 30 seconds
/// when the interval is shorter: never under 30 seconds, equal to the
/// interval from 30 seconds up, and 30 seconds for anything shorter.
pub proof fn lemma_deadline_is_interval_at_least_30(interval_secs: i64)
    ensures
        timeout_of(interval_secs) >= 30,
        interval_secs >= 30 ==> timeout_of(interval_secs) == interval_secs,
        interval_secs <= 30 ==> timeout_of(interval_secs) == 30,
        forall|a: i64, b: i64|
            30 <= a <= b ==> #[trigger] timeout_of(a) <= #[trigger] timeout_of(b),
{
}

fn period_secs(interval_secs: i64) -> (r: u64)
    ensures
        r == period_of(interval_secs),
{
    interval_secs as u64
}

fn timeout_secs(interval_secs: i64) -> (r: u64)
    ensures
        r == timeout_of(interval_secs),
{
    let t: i64 = if interval_secs < 30 { 30 } else { interval_secs };
    t as u64
}

/// A ticker cannot run with a zero period: an enabled service must ask for a
/// non-zero one.
pub open spec fn tick_allowed(lookup: ServiceLookup) -> bool {
    match lookup {
        ServiceLookup::Found { enabled, interval_secs } => enabled ==> period_of(interval_secs) != 0,
        _ => true,
    }
}

/// Tests `tick_allowed`, the condition under which `plan_tick` may be asked.
pub fn period_is_valid(lookup: ServiceLookup) -> (r: bool)
    ensures
        r == tick_allowed(lookup),
{
    match lookup {
        ServiceLookup::Found { enabled, interval_secs } => !enabled || period_secs(interval_secs) != 0,
        _ => true,
    }
}

/// Decides a worker's tick from its service lookup and its ticker's current
/// period: stop when the service is gone or disabled, skip when the lookup
/// failed, else check (re-timing the ticker when the interval changed).
pub fn plan_tick(lookup: ServiceLookup, current_period_secs: u64) -> (r: TickPlan)
    requires
        tick_allowed(lookup),
    ensures
        match lookup {
            ServiceLookup::Failed => r == TickPlan::Skip,
            ServiceLookup::Missing => r == TickPlan::Stop,
            ServiceLookup::Found { enabled, interval_secs } => if !enabled {
                r == TickPlan::Stop
            } else {
                r == (TickPlan::Check {
                    retime: period_of(interval_secs) != current_period_secs,
                    period_secs: period_of(interval_secs),
                    timeout_secs: timeout_of(interval_secs),
                })
            },
        },
        match lookup {
            ServiceLookup::Found { enabled: true, interval_secs } => r matches TickPlan::Check {
                timeout_secs,
                ..
            } && timeout_secs >= 30 && (interval_secs >= 30 ==> timeout_secs == interval_secs) && (
            interval_secs <= 30 ==> timeout_secs == 30),
            _ => true,
        },
{
    match lookup {
        ServiceLookup::Failed => TickPlan::Skip,
        ServiceLookup::Missing => TickPlan::Stop,
        ServiceLookup::Found { enabled, interval_secs } => {
            if !enabled {
                TickPlan::Stop
            } else {
                let p = period_secs(interval_secs);
                TickPlan::Check { retime: p != current_period_secs, period_secs: p, timeout_secs: timeout_secs(interval_secs) }
            }
        },
    }
}

/// The column values stored for a check result: the status text and the
/// response time reinterpreted as a signed count.
pub fn stored_fields(output: &CheckOutput) -> (r: (String, Option<i64>))
    ensures
        r.0@ == status_text(output.status),
        r.1 == match output.response_ms {
            Some(v) => Some(v as i64),
            None => None::<i64>,
        },
{
    let status = String::from_str(output.status.as_str());
    let ms = match output.response_ms {
        Some(v) => Some(v as i64),
        None => None,
    };
    (status, ms)
}

} // verus!
