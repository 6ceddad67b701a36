use vstd::prelude::*;

use crate::types::ActionSubmitter;

verus! {

/// A submitter that adapts actions of one type to a submitter of another:
/// actions the function maps to `None` are dropped without a word.
#[verifier::reject_recursive_types(A1)]
#[verifier::reject_recursive_types(A2)]
pub struct ActionSubmitterMap<A1, A2, S, F> where F: Fn(A1) -> Option<A2> {
    submitter: S,
    f: F,
    _phantom: core::marker::PhantomData<(A1, A2)>,
}

impl<A1, A2, S, F> ActionSubmitterMap<A1, A2, S, F> where F: Fn(A1) -> Option<A2> {
    #[verifier::type_invariant]
    spec fn total(&self) -> bool {
        forall|a: A1| #[trigger] self.f.requires((a,))
    }

    /// The submitter that receives the mapped actions.
    pub closed spec fn spec_submitter(&self) -> S {
        self.submitter
    }

    /// The function applied to each action.
    pub closed spec fn spec_fn(&self) -> F {
        self.f
    }

    pub fn new(submitter: S, f: F) -> (r: Self)
        requires
            forall|a: A1| #[trigger] f.requires((a,)),
        ensures
            r.spec_submitter() == submitter,
            r.spec_fn() == f,
    {
        ActionSubmitterMap { submitter, f, _phantom: core::marker::PhantomData }
    }

    /// The action handed to the inner submitter for `action`, if any.
    pub fn route(&self, action: A1) -> (r: Option<A2>)
        ensures
            self.spec_fn().ensures((action,), r),
    {
        proof {
            use_type_invariant(self);
        }
        (self.f)(action)
    }
}

impl<A1, A2, S, F> ActionSubmitter<A1> for ActionSubmitterMap<A1, A2, S, F> where
    A1: Send + Sync,
    A2: Send + Sync,
    S: ActionSubmitter<A2>,
    F: Fn(A1) -> Option<A2> + Send + Sync,
 {
    fn submit(&self, action: A1) {
        match self.route(action) {
            Some(a) => self.submitter.submit(a),
            None => {},
        }
    }
}

} // verus!
