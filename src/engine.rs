use vstd::prelude::*;

verus! {

/// Slots in each broadcast bus when the builder is not told otherwise.
pub const DEFAULT_CHANNEL_CAPACITY: usize = 512;

/// A capacity the engine can allocate a bus with: at least one slot, and at
/// most half the address space.
pub open spec fn valid_capacity(capacity: nat) -> bool {
    1 <= capacity <= usize::MAX as nat / 2
}

/// Why the engine refuses to start: one of its component lists is empty.
#[derive(Debug, Clone, Copy, PartialEq, Eq, Structural)]
pub enum ConfigError {
    NoExecutors,
    NoCollectors,
    NoStrategies,
}

/// The startup failures that `run` reports to its caller.
#[derive(Debug, Clone, Copy, PartialEq, Eq, Structural)]
pub enum EngineError {
    /// The engine was started with an empty component list.
    Config(ConfigError),
    /// A strategy's `sync_state` failed.
    Init,
}

/// What the engine holds before it runs, seen as sequences and numbers.
pub ghost struct EngineView<C, S, X> {
    pub collectors: Seq<C>,
    pub strategies: Seq<S>,
    pub executors: Seq<X>,
    pub event_channel_capacity: nat,
    pub action_channel_capacity: nat,
}

/// The pre-start builder: ordered lists of collectors, strategies and
/// executors, and the capacities of the event and action buses.
pub struct Engine<C, S, X> {
    collectors: Vec<C>,
    strategies: Vec<S>,
    executors: Vec<X>,
    capacities: Capacities,
}

/// The sizes of the two buses; a bus can be made with each.
struct Capacities {
    event: usize,
    action: usize,
}

impl Capacities {
    #[verifier::type_invariant]
    spec fn valid(&self) -> bool {
        &&& valid_capacity(self.event as nat)
        &&& valid_capacity(self.action as nat)
    }
}

impl<C, S, X> View for Engine<C, S, X> {
    type V = EngineView<C, S, X>;

    closed spec fn view(&self) -> EngineView<C, S, X> {
        EngineView {
            collectors: self.collectors@,
            strategies: self.strategies@,
            executors: self.executors@,
            event_channel_capacity: self.capacities.event as nat,
            action_channel_capacity: self.capacities.action as nat,
        }
    }
}

/// The configuration error that starting with these list sizes gives, if any.
/// Executors are checked first, then collectors, then strategies.
pub open spec fn config_error(collectors: nat, strategies: nat, executors: nat) -> Option<
    ConfigError,
> {
    if executors == 0 {
        Some(ConfigError::NoExecutors)
    } else if collectors == 0 {
        Some(ConfigError::NoCollectors)
    } else if strategies == 0 {
        Some(ConfigError::NoStrategies)
    } else {
        None
    }
}

impl<C, S, X> Engine<C, S, X> {
    /// An engine with no components and both capacities at the default.
    pub fn new() -> (r: Self)
        ensures
            r@.collectors.len() == 0,
            r@.strategies.len() == 0,
            r@.executors.len() == 0,
            r@.event_channel_capacity == DEFAULT_CHANNEL_CAPACITY,
            r@.action_channel_capacity == DEFAULT_CHANNEL_CAPACITY,
    {
        Engine {
            collectors: Vec::new(),
            strategies: Vec::new(),
            executors: Vec::new(),
            capacities: Capacities {
                event: DEFAULT_CHANNEL_CAPACITY,
                action: DEFAULT_CHANNEL_CAPACITY,
            },
        }
    }

    /// Sets the number of slots of the event bus.
    pub fn with_event_channel_capacity(self, capacity: usize) -> (r: Self)
        requires
            valid_capacity(capacity as nat),
        ensures
            r@ == (EngineView { event_channel_capacity: capacity as nat, ..self@ }),
    {
        let action = self.action_channel_capacity();
        Engine { capacities: Capacities { event: capacity, action }, ..self }
    }

    /// Sets the number of slots of the action bus.
    pub fn with_action_channel_capacity(self, capacity: usize) -> (r: Self)
        requires
            valid_capacity(capacity as nat),
        ensures
            r@ == (EngineView { action_channel_capacity: capacity as nat, ..self@ }),
    {
        let event = self.event_channel_capacity();
        Engine { capacities: Capacities { event, action: capacity }, ..self }
    }

    pub fn event_channel_capacity(&self) -> (r: usize)
        ensures
            r == self@.event_channel_capacity,
            valid_capacity(r as nat),
    {
        proof {
            use_type_invariant(&self.capacities);
        }
        self.capacities.event
    }

    pub fn action_channel_capacity(&self) -> (r: usize)
        ensures
            r == self@.action_channel_capacity,
            valid_capacity(r as nat),
    {
        proof {
            use_type_invariant(&self.capacities);
        }
        self.capacities.action
    }

    pub fn collector_count(&self) -> (r: usize)
        ensures
            r == self@.collectors.len(),
    {
        self.collectors.len()
    }

    pub fn strategy_count(&self) -> (r: usize)
        ensures
            r == self@.strategies.len(),
    {
        self.strategies.len()
    }

    pub fn executor_count(&self) -> (r: usize)
        ensures
            r == self@.executors.len(),
    {
        self.executors.len()
    }

    /// Appends a collector; the order of registration is kept.
    pub fn add_collector(&mut self, collector: C)
        ensures
            final(self)@ == (EngineView {
                collectors: old(self)@.collectors.push(collector),
                ..old(self)@
            }),
    {
        self.collectors.push(collector);
    }

    /// Appends a strategy; the order of registration is kept.
    pub fn add_strategy(&mut self, strategy: S)
        ensures
            final(self)@ == (EngineView {
                strategies: old(self)@.strategies.push(strategy),
                ..old(self)@
            }),
    {
        self.strategies.push(strategy);
    }

    /// Appends an executor; the order of registration is kept.
    pub fn add_executor(&mut self, executor: X)
        ensures
            final(self)@ == (EngineView {
                executors: old(self)@.executors.push(executor),
                ..old(self)@
            }),
    {
        self.executors.push(executor);
    }

    /// Checks the component lists and, when none is empty, hands out the
    /// startup sequence that `run` follows.
    pub fn launch(&self) -> (r: Result<Launch, EngineError>)
        ensures
            match config_error(
                self@.collectors.len(),
                self@.strategies.len(),
                self@.executors.len(),
            ) {
                Some(e) => r == Err::<Launch, EngineError>(EngineError::Config(e)),
                None => r matches Ok(l) && l@ == (LaunchView {
                    collectors: self@.collectors.len(),
                    strategies: self@.strategies.len(),
                    executors: self@.executors.len(),
                    position: 0,
                    done: false,
                }),
            },
    {
        if self.executors.len() == 0 {
            return Err(EngineError::Config(ConfigError::NoExecutors));
        }
        if self.collectors.len() == 0 {
            return Err(EngineError::Config(ConfigError::NoCollectors));
        }
        if self.strategies.len() == 0 {
            return Err(EngineError::Config(ConfigError::NoStrategies));
        }
        Ok(
            Launch {
                n_collectors: self.collectors.len(),
                n_strategies: self.strategies.len(),
                n_executors: self.executors.len(),
                phase: Phase::SubscribeExecutors,
                index: 0,
            },
        )
    }

    /// Gives the components up, in registration order.
    pub fn into_parts(self) -> (r: (Vec<C>, Vec<S>, Vec<X>))
        ensures
            r.0@ == self@.collectors,
            r.1@ == self@.strategies,
            r.2@ == self@.executors,
    {
        (self.collectors, self.strategies, self.executors)
    }
}

impl<C, S, X> Default for Engine<C, S, X> {
    fn default() -> (r: Self)
        ensures
            r@.collectors.len() == 0,
            r@.strategies.len() == 0,
            r@.executors.len() == 0,
            r@.event_channel_capacity == DEFAULT_CHANNEL_CAPACITY,
            r@.action_channel_capacity == DEFAULT_CHANNEL_CAPACITY,
    {
        Engine::new()
    }
}

/// One step of starting the engine; indices are registration positions.
#[derive(Debug, Clone, Copy, PartialEq, Eq, Structural)]
pub enum LaunchStep {
    /// Subscribe executor `i` to the action bus (its task is spawned later).
    SubscribeExecutor(usize),
    /// Subscribe strategy `i` to the event bus and await its `sync_state`.
    SyncStrategy(usize),
    /// Spawn the task of executor `i` on its subscription.
    SpawnExecutor(usize),
    /// Spawn the task of strategy `i` on its subscription.
    SpawnStrategy(usize),
    /// Spawn the task of collector `i`.
    SpawnCollector(usize),
    /// Every step is done; the engine runs.
    Finished,
    /// A strategy failed to sync: startup stops with the given error.
    Abort(EngineError),
}

/// How the previous step went.
#[derive(Debug, Clone, Copy, PartialEq, Eq, Structural)]
pub enum StepOutcome {
    Completed,
    SyncFailed,
}

impl LaunchStep {
    pub open spec fn spawns(self) -> bool {
        self is SpawnExecutor || self is SpawnStrategy || self is SpawnCollector
    }
}

/// Total number of steps in a startup with these list sizes.
pub open spec fn plan_len(collectors: nat, strategies: nat, executors: nat) -> nat {
    2 * executors + 2 * strategies + collectors
}

/// Step `k` of a startup: all executors are subscribed first, so that no action
/// submitted during `sync_state` is lost; then every strategy syncs; only then
/// are the executor, strategy and collector tasks spawned, in that order.
pub open spec fn plan_step(collectors: nat, strategies: nat, executors: nat, k: int) -> LaunchStep {
    let e = executors as int;
    let s = strategies as int;
    if k < e {
        LaunchStep::SubscribeExecutor(k as usize)
    } else if k < e + s {
        LaunchStep::SyncStrategy((k - e) as usize)
    } else if k < 2 * e + s {
        LaunchStep::SpawnExecutor((k - e - s) as usize)
    } else if k < 2 * e + 2 * s {
        LaunchStep::SpawnStrategy((k - 2 * e - s) as usize)
    } else {
        LaunchStep::SpawnCollector((k - 2 * e - 2 * s) as usize)
    }
}

/// Where a startup stands: the list sizes, how many steps were handed out,
/// and whether it has ended.
pub ghost struct LaunchView {
    pub collectors: nat,
    pub strategies: nat,
    pub executors: nat,
    pub position: nat,
    pub done: bool,
}

impl LaunchView {
    pub open spec fn len(self) -> nat {
        plan_len(self.collectors, self.strategies, self.executors)
    }

    pub open spec fn step(self, k: int) -> LaunchStep {
        plan_step(self.collectors, self.strategies, self.executors, k)
    }
}

#[derive(Debug, Clone, Copy, PartialEq, Eq, Structural)]
enum Phase {
    SubscribeExecutors,
    SyncStrategies,
    SpawnExecutors,
    SpawnStrategies,
    SpawnCollectors,
    Done,
}

/// The startup of an engine as a state machine: `advance` takes how the last
/// step went and gives the next step to perform.
pub struct Launch {
    n_collectors: usize,
    n_strategies: usize,
    n_executors: usize,
    phase: Phase,
    index: usize,
}

spec fn rank(p: Phase) -> nat {
    match p {
        Phase::SubscribeExecutors => 5,
        Phase::SyncStrategies => 4,
        Phase::SpawnExecutors => 3,
        Phase::SpawnStrategies => 2,
        Phase::SpawnCollectors => 1,
        Phase::Done => 0,
    }
}

impl Launch {
    spec fn phase_len(&self, p: Phase) -> nat {
        match p {
            Phase::SubscribeExecutors => self.n_executors as nat,
            Phase::SyncStrategies => self.n_strategies as nat,
            Phase::SpawnExecutors => self.n_executors as nat,
            Phase::SpawnStrategies => self.n_strategies as nat,
            Phase::SpawnCollectors => self.n_collectors as nat,
            Phase::Done => 0,
        }
    }

    spec fn offset(&self, p: Phase) -> int {
        let e = self.n_executors as int;
        let s = self.n_strategies as int;
        let c = self.n_collectors as int;
        match p {
            Phase::SubscribeExecutors => 0,
            Phase::SyncStrategies => e,
            Phase::SpawnExecutors => e + s,
            Phase::SpawnStrategies => 2 * e + s,
            Phase::SpawnCollectors => 2 * e + 2 * s,
            Phase::Done => 2 * e + 2 * s + c,
        }
    }

    #[verifier::type_invariant]
    spec fn inv(&self) -> bool {
        self.index <= self.phase_len(self.phase)
    }

    fn phase_len_exec(&self, p: Phase) -> (r: usize)
        ensures
            r == self.phase_len(p),
    {
        match p {
            Phase::SubscribeExecutors => self.n_executors,
            Phase::SyncStrategies => self.n_strategies,
            Phase::SpawnExecutors => self.n_executors,
            Phase::SpawnStrategies => self.n_strategies,
            Phase::SpawnCollectors => self.n_collectors,
            Phase::Done => 0,
        }
    }
}

impl View for Launch {
    type V = LaunchView;

    closed spec fn view(&self) -> LaunchView {
        LaunchView {
            collectors: self.n_collectors as nat,
            strategies: self.n_strategies as nat,
            executors: self.n_executors as nat,
            position: (self.offset(self.phase) + self.index) as nat,
            done: self.phase is Done,
        }
    }
}

fn next_phase(p: Phase) -> (r: Phase)
    requires
        !(p is Done),
    ensures
        rank(r) + 1 == rank(p),
{
    match p {
        Phase::SubscribeExecutors => Phase::SyncStrategies,
        Phase::SyncStrategies => Phase::SpawnExecutors,
        Phase::SpawnExecutors => Phase::SpawnStrategies,
        Phase::SpawnStrategies => Phase::SpawnCollectors,
        _ => Phase::Done,
    }
}

impl Launch {
    /// Hands out the next startup step.
    ///
    /// Once the startup has ended (finished or aborted) it only says
    /// `Finished`. A failed `sync_state` aborts it with `Init`. Otherwise the
    /// steps come out in plan order, then `Finished`.
    pub fn advance(&mut self, outcome: StepOutcome) -> (r: LaunchStep)
        ensures
            final(self)@.collectors == old(self)@.collectors,
            final(self)@.strategies == old(self)@.strategies,
            final(self)@.executors == old(self)@.executors,
            old(self)@.done ==> r == LaunchStep::Finished && final(self)@ == old(self)@,
            !old(self)@.done && outcome == StepOutcome::SyncFailed ==> r == LaunchStep::Abort(
                EngineError::Init,
            ) && final(self)@.done,
            !old(self)@.done && outcome == StepOutcome::Completed ==> if old(self)@.position
                < old(self)@.len() {
                &&& r == old(self)@.step(old(self)@.position as int)
                &&& final(self)@.position == old(self)@.position + 1
                &&& !final(self)@.done
            } else {
                &&& r == LaunchStep::Finished
                &&& final(self)@.done
            },
    {
        proof {
            use_type_invariant(&*self);
        }
        if self.phase == Phase::Done {
            return LaunchStep::Finished;
        }
        if outcome == StepOutcome::SyncFailed {
            self.index = 0;
            self.phase = Phase::Done;
            return LaunchStep::Abort(EngineError::Init);
        }
        let ghost start = self@.position;
        loop
            invariant_except_break
                !(self.phase is Done),
            invariant
                self.index <= self.phase_len(self.phase),
                self.offset(self.phase) + self.index == start,
                self.n_collectors == old(self).n_collectors,
                self.n_strategies == old(self).n_strategies,
                self.n_executors == old(self).n_executors,
                start == old(self)@.position,
                outcome == StepOutcome::Completed,
                !old(self)@.done,
            ensures
                self.index < self.phase_len(self.phase),
            decreases rank(self.phase),
        {
            if self.index < self.phase_len_exec(self.phase) {
                break;
            }
            let p = next_phase(self.phase);
            self.index = 0;
            self.phase = p;
            if p == Phase::Done {
                return LaunchStep::Finished;
            }
        }
        let i = self.index;
        let step = match self.phase {
            Phase::SubscribeExecutors => LaunchStep::SubscribeExecutor(i),
            Phase::SyncStrategies => LaunchStep::SyncStrategy(i),
            Phase::SpawnExecutors => LaunchStep::SpawnExecutor(i),
            Phase::SpawnStrategies => LaunchStep::SpawnStrategy(i),
            _ => LaunchStep::SpawnCollector(i),
        };
        self.index = i + 1;
        step
    }
}

/// No task is spawned before every strategy has finished `sync_state`: each
/// sync step comes before each spawn step. So a failed sync, which aborts the
/// startup, leaves no task behind, and no strategy can see an event before
/// its own `sync_state` has returned.
pub proof fn lemma_sync_before_any_spawn(
    collectors: nat,
    strategies: nat,
    executors: nat,
    sync_at: int,
    spawn_at: int,
)
    requires
        0 <= sync_at < plan_len(collectors, strategies, executors),
        0 <= spawn_at < plan_len(collectors, strategies, executors),
        plan_step(collectors, strategies, executors, sync_at) is SyncStrategy,
        plan_step(collectors, strategies, executors, spawn_at).spawns(),
    ensures
        sync_at < spawn_at,
{
}

/// A startup whose last step handed out was a sync has spawned nothing yet:
/// when that `sync_state` fails and the startup aborts, no task is running.
pub proof fn lemma_abort_after_sync_leaves_no_task(l: LaunchView, k: int)
    requires
        0 <= k < l.position,
        l.position <= l.len(),
        l.step(l.position - 1) is SyncStrategy,
    ensures
        !l.step(k).spawns(),
{
    if l.step(k).spawns() {
        lemma_sync_before_any_spawn(l.collectors, l.strategies, l.executors, l.position - 1, k);
    }
}

/// Every executor is subscribed to the action bus before any strategy syncs
/// and before any collector starts, so the actions those produce reach it.
pub proof fn lemma_executors_subscribed_first(
    collectors: nat,
    strategies: nat,
    executors: nat,
    subscribe_at: int,
    other_at: int,
)
    requires
        0 <= subscribe_at < plan_len(collectors, strategies, executors),
        0 <= other_at < plan_len(collectors, strategies, executors),
        plan_step(collectors, strategies, executors, subscribe_at) is SubscribeExecutor,
        plan_step(collectors, strategies, executors, other_at) is SyncStrategy || plan_step(
            collectors,
            strategies,
            executors,
            other_at,
        ) is SpawnCollector,
    ensures
        subscribe_at < other_at,
{
}

/// Strategy `s` has exactly one sync step and exactly one spawn step, and the
/// sync comes first.
pub proof fn lemma_strategy_synced_then_spawned(
    collectors: nat,
    strategies: nat,
    executors: nat,
    s: usize,
) -> (at: (int, int))
    requires
        s < strategies,
        collectors <= usize::MAX,
        strategies <= usize::MAX,
        executors <= usize::MAX,
    ensures
        0 <= at.0 < at.1 < plan_len(collectors, strategies, executors),
        plan_step(collectors, strategies, executors, at.0) == LaunchStep::SyncStrategy(s),
        plan_step(collectors, strategies, executors, at.1) == LaunchStep::SpawnStrategy(s),
        forall|k: int|
            0 <= k < plan_len(collectors, strategies, executors) && #[trigger] plan_step(
                collectors,
                strategies,
                executors,
                k,
            ) == LaunchStep::SyncStrategy(s) ==> k == at.0,
        forall|k: int|
            0 <= k < plan_len(collectors, strategies, executors) && #[trigger] plan_step(
                collectors,
                strategies,
                executors,
                k,
            ) == LaunchStep::SpawnStrategy(s) ==> k == at.1,
{
    let e = executors as int;
    let n = strategies as int;
    (e + s as int, 2 * e + n + s as int)
}

/// Every collector and every executor gets exactly one task.
pub proof fn lemma_each_task_spawned_once(
    collectors: nat,
    strategies: nat,
    executors: nat,
    c: usize,
    x: usize,
) -> (at: (int, int))
    requires
        c < collectors,
        x < executors,
        collectors <= usize::MAX,
        strategies <= usize::MAX,
        executors <= usize::MAX,
    ensures
        0 <= at.0 < plan_len(collectors, strategies, executors),
        0 <= at.1 < plan_len(collectors, strategies, executors),
        plan_step(collectors, strategies, executors, at.0) == LaunchStep::SpawnCollector(c),
        plan_step(collectors, strategies, executors, at.1) == LaunchStep::SpawnExecutor(x),
        forall|k: int|
            0 <= k < plan_len(collectors, strategies, executors) && #[trigger] plan_step(
                collectors,
                strategies,
                executors,
                k,
            ) == LaunchStep::SpawnCollector(c) ==> k == at.0,
        forall|k: int|
            0 <= k < plan_len(collectors, strategies, executors) && #[trigger] plan_step(
                collectors,
                strategies,
                executors,
                k,
            ) == LaunchStep::SpawnExecutor(x) ==> k == at.1,
{
    let e = executors as int;
    let n = strategies as int;
    (2 * e + 2 * n + c as int, e + n + x as int)
}

/// What a subscriber's receive call on a bus gave.
#[derive(Debug, PartialEq, Eq)]
pub enum Received<T> {
    /// The next item.
    Item(T),
    /// The subscriber fell behind; this many items were skipped.
    Lagged(u64),
    /// Every sender is gone.
    Closed,
}

/// What a strategy or executor task does with what it received.
#[derive(Debug, PartialEq, Eq)]
pub enum TaskAction<T> {
    /// Hand the item to the component, then receive again.
    Handle(T),
    /// Log a warning with the number of skipped items, then receive again.
    ReportLag(u64),
    /// Log an error and end the task.
    Stop,
}

/// The receive loop's decision: items are handed on one for one, a lag is
/// reported and survived, a closed bus ends the task.
pub fn on_receive<T>(received: Received<T>) -> (r: TaskAction<T>)
    ensures
        match received {
            Received::Item(t) => r == TaskAction::Handle(t),
            Received::Lagged(n) => r == TaskAction::<T>::ReportLag(n),
            Received::Closed => r == TaskAction::<T>::Stop,
        },
{
    match received {
        Received::Item(t) => TaskAction::Handle(t),
        Received::Lagged(n) => TaskAction::ReportLag(n),
        Received::Closed => TaskAction::Stop,
    }
}

} // verus!
