//! The watcher: continuous background polling of one record with a cached
//! latest outcome.
//!
//! The state machine lives here, fully specified: what one poll does to the
//! cache, when the worker halts, and what a reader is served. A host runs the
//! actual loop on a thread of its own, performing one blocking request per
//! iteration and feeding every outcome through [`worker_step`]; the worker
//! checks its stop flag only between iterations, so a shutdown request is
//! honoured at the next iteration boundary. A transport whose read never
//! returns makes shutdown wait for it: there is no timeout or interrupt of an
//! in-flight request.

use vstd::prelude::*;

use crate::protocol::{Failure, FatalReason, Request};

verus! {

/// What the watcher's cache holds: nothing yet, the latest decoded record,
/// or the fatal failure that stopped the worker. Transient and invalid
/// attempts never replace the entry, so a reader can always tell "no data
/// yet" from a real reading and from a dead transport.
#[derive(Clone, Copy, Debug)]
pub enum CacheEntry<T> {
    /// No request has succeeded yet.
    NotReady,
    /// The most recently decoded record.
    Value(T),
    /// The fatal failure that terminated the worker.
    Failed(FatalReason),
}

/// What the worker does after one poll: keep polling, or halt for good.
#[derive(Clone, Copy, Debug, PartialEq, Eq, Structural)]
pub enum WorkerAction {
    /// Poll again.
    Continue,
    /// Store nothing further and exit.
    Stop,
}

/// The cache entry after one poll: a success replaces the entry, a transient
/// or invalid attempt leaves it untouched, and a fatal failure records
/// itself.
pub open spec fn step_entry<T>(e: CacheEntry<T>, outcome: Result<T, Failure>) -> CacheEntry<T> {
    match outcome {
        Ok(v) => CacheEntry::Value(v),
        Err(Failure::Transient) => e,
        Err(Failure::Invalid) => e,
        Err(Failure::Fatal(f)) => CacheEntry::Failed(f),
    }
}

/// Whether one poll outcome halts the worker: only a fatal failure does.
pub open spec fn step_halts<T>(outcome: Result<T, Failure>) -> bool {
    outcome matches Err(Failure::Fatal(_))
}

/// What a reader is served for a cache entry: the record, a transient
/// "not ready yet" before the first success, or the recorded fatal failure.
pub open spec fn entry_result<T>(e: CacheEntry<T>) -> Result<T, Failure> {
    match e {
        CacheEntry::NotReady => Err(Failure::Transient),
        CacheEntry::Value(v) => Ok(v),
        CacheEntry::Failed(f) => Err(Failure::Fatal(f)),
    }
}

/// The whole decision a worker takes for one poll outcome: the new cache
/// entry and whether to keep polling. Hosts that drive the blocking loop on
/// their own thread route every outcome through this function.
pub fn worker_step<T>(entry: CacheEntry<T>, outcome: Result<T, Failure>) -> (r: (
    CacheEntry<T>,
    WorkerAction,
))
    ensures
        r.0 == step_entry(entry, outcome),
        r.1 == (if step_halts(outcome) {
            WorkerAction::Stop
        } else {
            WorkerAction::Continue
        }),
{
    match outcome {
        Ok(v) => (CacheEntry::Value(v), WorkerAction::Continue),
        Err(Failure::Transient) => (entry, WorkerAction::Continue),
        Err(Failure::Invalid) => (entry, WorkerAction::Continue),
        Err(Failure::Fatal(f)) => (CacheEntry::Failed(f), WorkerAction::Stop),
    }
}

/// A data source that can be watched: consuming it yields a watcher around a
/// provider that the worker polls.
pub trait Watch<V>: Sized {
    /// The adapter the watcher ends up owning and polling.
    type Provider;

    /// Set up a watcher using `self` as the data provider.
    fn watch(self) -> (r: Watcher<V, Self::Provider>)
        ensures
            r.spec_entry() is NotReady,
            !r.spec_stopped(),
    ;
}

/// The watcher state: exclusive ownership of the polled adapter, the cached
/// latest outcome, and the stop flag. One background worker drives
/// [`Watcher::poll_once`] until it halts; any number of observers read
/// through [`Watcher::get`].
pub struct Watcher<T, S> {
    adapter: S,
    entry: CacheEntry<T>,
    stop_indicator: bool,
}

impl<T, S> Watcher<T, S> {
    /// The cached outcome.
    pub closed spec fn spec_entry(&self) -> CacheEntry<T> {
        self.entry
    }

    /// Whether the worker has been asked to stop, or has halted on its own.
    pub closed spec fn spec_stopped(&self) -> bool {
        self.stop_indicator
    }

    /// The owned adapter.
    pub closed spec fn spec_adapter(&self) -> S {
        self.adapter
    }

    /// Take exclusive ownership of an adapter and start in the "no data yet"
    /// state, with no stop requested.
    pub fn new(adapter: S) -> (r: Self)
        ensures
            r.spec_entry() is NotReady,
            !r.spec_stopped(),
            r.spec_adapter() == adapter,
    {
        Watcher { adapter, entry: CacheEntry::NotReady, stop_indicator: false }
    }

    /// Ask the worker to stop; it obeys at the next iteration boundary. The
    /// cache keeps serving its entry meanwhile.
    pub fn request_stop(&mut self)
        ensures
            final(self).spec_stopped(),
            final(self).spec_entry() == old(self).spec_entry(),
            final(self).spec_adapter() == old(self).spec_adapter(),
    {
        self.stop_indicator = true;
    }

    /// Whether the worker has stopped or been asked to.
    pub fn is_stopped(&self) -> (r: bool)
        ensures
            r == self.spec_stopped(),
    {
        self.stop_indicator
    }

    /// Tear the watcher down once the worker has exited and reclaim the
    /// adapter. If the worker halted on a fatal failure, that failure is
    /// surfaced instead: its transport is presumed compromised and is not
    /// handed back.
    pub fn stop(self) -> (r: Result<S, Failure>)
        ensures
            match self.spec_entry() {
                CacheEntry::Failed(f) => r == Err::<S, Failure>(Failure::Fatal(f)),
                _ => r matches Ok(a) && a == self.spec_adapter(),
            },
    {
        let Watcher { adapter, entry, stop_indicator: _ } = self;
        match entry {
            CacheEntry::Failed(f) => Err(Failure::Fatal(f)),
            _ => Ok(adapter),
        }
    }
}

impl<T: Copy, S> Watcher<T, S> {
    /// Serve the cached outcome without blocking: the latest record, the
    /// transient "not ready yet" before any success, or the recorded fatal
    /// failure. The entry is copied out, so any number of observers can read
    /// it.
    pub fn get(&self) -> (r: Result<T, Failure>)
        ensures
            r == entry_result(self.spec_entry()),
    {
        match self.entry {
            CacheEntry::NotReady => Err(Failure::Transient),
            CacheEntry::Value(v) => Ok(v),
            CacheEntry::Failed(f) => Err(Failure::Fatal(f)),
        }
    }

    /// Whether a value has ever been collected. A recorded fatal failure
    /// also counts as ready, so a caller waiting on readiness cannot hang on
    /// a dead transport.
    pub fn is_ready(&self) -> (r: bool)
        ensures
            r == !(self.spec_entry() is NotReady),
    {
        match self.entry {
            CacheEntry::NotReady => false,
            _ => true,
        }
    }
}

impl<T: Copy, S: Request<T>> Watcher<T, S> {
    /// One worker iteration: do nothing once stopped; otherwise issue one
    /// blocking request and apply [`worker_step`] to its outcome, halting on
    /// a fatal failure.
    pub fn poll_once(&mut self)
        ensures
            old(self).spec_stopped() ==> *final(self) == *old(self),
            !old(self).spec_stopped() ==> exists|outcome: Result<T, Failure>|
                final(self).spec_entry() == step_entry(
                    old(self).spec_entry(),
                    outcome,
                ) && final(self).spec_stopped() == #[trigger] step_halts::<T>(outcome),
    {
        if self.stop_indicator {
            return;
        }
        let outcome = self.adapter.read();
        let (entry, action) = worker_step(self.entry, outcome);
        self.entry = entry;
        match action {
            WorkerAction::Stop => {
                self.stop_indicator = true;
            },
            WorkerAction::Continue => {},
        }
        proof {
            assert(step_halts::<T>(outcome) || !step_halts::<T>(outcome));
        }
    }
}

/// Law: a transient or invalid outcome leaves the cache untouched and never
/// halts the worker; the loop simply tries again.
pub proof fn lemma_worker_absorbs_soft_failures<T>(e: CacheEntry<T>)
    ensures
        step_entry(e, Err::<T, Failure>(Failure::Transient)) == e,
        step_entry(e, Err::<T, Failure>(Failure::Invalid)) == e,
        !step_halts::<T>(Err::<T, Failure>(Failure::Transient)),
        !step_halts::<T>(Err::<T, Failure>(Failure::Invalid)),
{
}

/// Law: a successful request immediately becomes the served value, whatever
/// the cache held before, and the worker keeps polling.
pub proof fn lemma_worker_success_is_served<T>(e: CacheEntry<T>, v: T)
    ensures
        step_entry(e, Ok::<T, Failure>(v)) == CacheEntry::Value(v),
        entry_result(CacheEntry::Value(v)) == Ok::<T, Failure>(v),
        !step_halts::<T>(Ok::<T, Failure>(v)),
{
}

/// Law: a fatal outcome halts the worker, and the recorded failure is what
/// every later reader is served.
pub proof fn lemma_worker_fatal_is_terminal<T>(e: CacheEntry<T>, f: FatalReason)
    ensures
        step_entry(e, Err::<T, Failure>(Failure::Fatal(f))) == CacheEntry::<T>::Failed(f),
        step_halts::<T>(Err::<T, Failure>(Failure::Fatal(f))),
        entry_result(CacheEntry::<T>::Failed(f)) == Err::<T, Failure>(Failure::Fatal(f)),
{
}

/// Law: the cache never regresses. One poll either keeps the entry, replaces
/// it with the record of a new success, or records the halting failure; no
/// poll ever brings back an older record or the "not ready" state.
pub proof fn lemma_cache_never_regresses<T>(e: CacheEntry<T>, outcome: Result<T, Failure>)
    ensures
        step_entry(e, outcome) == e || (exists|v: T|
            outcome == Ok::<T, Failure>(v) && step_entry(e, outcome) == CacheEntry::Value(v))
            || (exists|f: FatalReason|
            outcome == Err::<T, Failure>(Failure::Fatal(f)) && step_entry(e, outcome)
                == CacheEntry::<T>::Failed(f)),
{
}

/// The cache entry after a whole run of poll outcomes, applied oldest first.
pub open spec fn run_entry<T>(e: CacheEntry<T>, outcomes: Seq<Result<T, Failure>>) -> CacheEntry<
    T,
>
    decreases outcomes.len(),
{
    if outcomes.len() == 0 {
        e
    } else {
        step_entry(run_entry(e, outcomes.drop_last()), outcomes.last())
    }
}

/// Whether any outcome of a run halts the worker.
pub open spec fn run_halts<T>(outcomes: Seq<Result<T, Failure>>) -> bool {
    exists|i: int| 0 <= i < outcomes.len() && step_halts::<T>(#[trigger] outcomes[i])
}

/// Law (liveness): under an adapter whose requests all succeed, one poll is
/// enough: after any run of successes the reader is served the most recent
/// record, and the worker never halts.
pub proof fn lemma_watch_liveness<T>(e: CacheEntry<T>, outcomes: Seq<Result<T, Failure>>)
    requires
        outcomes.len() > 0,
        forall|i: int| 0 <= i < outcomes.len() ==> #[trigger] outcomes[i] is Ok,
    ensures
        entry_result(run_entry(e, outcomes)) == outcomes.last(),
        !run_halts::<T>(outcomes),
{
    assert(outcomes.last() is Ok);
}

/// Law (transient tolerance): a run whose outcomes are successes, transient
/// failures and invalid attempts never halts the worker, and the reader is
/// served the record of the run's last success.
pub proof fn lemma_watch_transient_tolerance<T>(
    e: CacheEntry<T>,
    outcomes: Seq<Result<T, Failure>>,
    j: int,
)
    requires
        forall|i: int| 0 <= i < outcomes.len() ==> !step_halts::<T>(#[trigger] outcomes[i]),
        0 <= j < outcomes.len(),
        outcomes[j] is Ok,
        forall|i: int| j < i < outcomes.len() ==> !(#[trigger] outcomes[i] is Ok),
    ensures
        !run_halts::<T>(outcomes),
        run_entry(e, outcomes) == CacheEntry::Value(outcomes[j]->Ok_0),
    decreases outcomes.len(),
{
    if j == outcomes.len() - 1 {
    } else {
        assert(outcomes.drop_last()[j] == outcomes[j]);
        lemma_watch_transient_tolerance(e, outcomes.drop_last(), j);
        assert(step_entry(run_entry(e, outcomes.drop_last()), outcomes.last()) == run_entry(
            e,
            outcomes.drop_last(),
        ));
    }
}

/// Law (fatal termination): a run whose last outcome is fatal halts the
/// worker, and every later reader is served that failure.
pub proof fn lemma_watch_fatal_termination<T>(
    e: CacheEntry<T>,
    outcomes: Seq<Result<T, Failure>>,
    f: FatalReason,
)
    requires
        outcomes.len() > 0,
        outcomes.last() == Err::<T, Failure>(Failure::Fatal(f)),
    ensures
        run_halts::<T>(outcomes),
        run_entry(e, outcomes) == CacheEntry::<T>::Failed(f),
        entry_result(run_entry(e, outcomes)) == Err::<T, Failure>(Failure::Fatal(f)),
{
    assert(step_halts::<T>(outcomes[outcomes.len() - 1]));
}

} // verus!
