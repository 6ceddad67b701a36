use vstd::prelude::*;

verus! {

/// A handle through which a strategy emits actions without waiting.
pub trait ActionSubmitter<A>: Send + Sync {
    fn submit(&self, action: A);
}

/// A collector whose events pass through a total function on their way to
/// the bus: with an enum variant as the function, it injects the collector's
/// events into the engine's event type.
pub struct CollectorMap<C, F> {
    inner: C,
    f: F,
}

impl<C, F> CollectorMap<C, F> {
    /// The wrapped collector.
    pub closed spec fn spec_inner(&self) -> C {
        self.inner
    }

    /// The function applied to each event.
    pub closed spec fn spec_fn(&self) -> F {
        self.f
    }

    pub fn new(collector: C, f: F) -> (r: Self)
        ensures
            r.spec_inner() == collector,
            r.spec_fn() == f,
    {
        CollectorMap { inner: collector, f }
    }

    pub fn inner(&self) -> (r: &C)
        ensures
            *r == self.spec_inner(),
    {
        &self.inner
    }

    /// The event that goes on the bus for an event of the inner collector.
    pub fn map_event<E1, E2>(&self, event: E1) -> (r: E2) where F: Fn(E1) -> E2
        requires
            self.spec_fn().requires((event,)),
        ensures
            self.spec_fn().ensures((event,), r),
    {
        (self.f)(event)
    }
}

/// A collector whose events pass through a partial function: events it maps
/// to `None` are dropped, the others go on the bus.
pub struct CollectorFilterMap<C, F> {
    inner: C,
    f: F,
}

impl<C, F> CollectorFilterMap<C, F> {
    /// The wrapped collector.
    pub closed spec fn spec_inner(&self) -> C {
        self.inner
    }

    /// The function applied to each event.
    pub closed spec fn spec_fn(&self) -> F {
        self.f
    }

    pub fn new(collector: C, f: F) -> (r: Self)
        ensures
            r.spec_inner() == collector,
            r.spec_fn() == f,
    {
        CollectorFilterMap { inner: collector, f }
    }

    pub fn inner(&self) -> (r: &C)
        ensures
            *r == self.spec_inner(),
    {
        &self.inner
    }

    /// The event that goes on the bus for an event of the inner collector, if any.
    pub fn filter_event<E1, E2>(&self, event: E1) -> (r: Option<E2>) where
        F: Fn(E1) -> Option<E2>,

        requires
            self.spec_fn().requires((event,)),
        ensures
            self.spec_fn().ensures((event,), r),
    {
        (self.f)(event)
    }
}

/// An executor of a narrow action type registered on a bus of a wider one: a
/// projection picks the actions it handles (with an enum variant, those of
/// that variant) and the rest succeed without reaching it.
pub struct ExecutorMap<X, F> {
    inner: X,
    f: F,
}

impl<X, F> ExecutorMap<X, F> {
    /// The wrapped executor.
    pub closed spec fn spec_inner(&self) -> X {
        self.inner
    }

    /// The projection applied to each action.
    pub closed spec fn spec_fn(&self) -> F {
        self.f
    }

    pub fn new(executor: X, f: F) -> (r: Self)
        ensures
            r.spec_inner() == executor,
            r.spec_fn() == f,
    {
        ExecutorMap { inner: executor, f }
    }

    pub fn inner(&self) -> (r: &X)
        ensures
            *r == self.spec_inner(),
    {
        &self.inner
    }

    /// The action the inner executor is given for `action`; `None` means it
    /// is not invoked and the execution succeeds.
    pub fn route<A1, A2>(&self, action: A1) -> (r: Option<A2>) where F: Fn(A1) -> Option<A2>
        requires
            self.spec_fn().requires((action,)),
        ensures
            self.spec_fn().ensures((action,), r),
    {
        (self.f)(action)
    }
}

} // verus!
