//! The engine: the entry point that routes snapshot and action requests to
//! the platform backend it was built with.

use vstd::prelude::*;

use crate::domain::ActionExecutor;
use crate::domain::ActionOutcome;
use crate::domain::ActionRequest;
use crate::domain::CapabilityMatrix;
use crate::domain::TaskmanResult;

verus! {

/// The orchestrator over one backend.
pub struct TaskmanEngine<B> {
    backend: B,
}

impl<B: ActionExecutor> TaskmanEngine<B> {
    /// The backend that the engine routes to.
    pub closed spec fn spec_backend(&self) -> B {
        self.backend
    }

    /// An engine over `backend`.
    pub fn new(backend: B) -> (e: Self)
        ensures
            e.spec_backend() == backend,
    {
        TaskmanEngine { backend }
    }

    /// The backend that the engine routes to.
    pub fn backend(&self) -> (b: &B)
        ensures
            *b == self.spec_backend(),
    {
        &self.backend
    }

    /// Carries out `request` on the backend and hands back its answer.
    pub fn run_action(&self, request: ActionRequest) -> (res: TaskmanResult<ActionOutcome>)
        ensures
            call_ensures(B::run_action, (&self.spec_backend(), request), res),
    {
        self.backend.run_action(request)
    }

    /// The actions that the backend can carry out.
    pub fn capabilities(&self) -> (m: CapabilityMatrix)
        ensures
            call_ensures(B::capabilities, (&self.spec_backend(),), m),
    {
        self.backend.capabilities()
    }
}

} // verus!
