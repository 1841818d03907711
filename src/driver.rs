use crate::patch::{patch_document, StatusPatch};
use crate::state::{
    hook_of, is_terminal, next_state, phase_of, reason_of, step, step_of, Hook, PodState,
    Transition,
};
use vstd::prelude::*;

verus! {

/// Walks the lifecycle graph for one workload. The caller runs the hook that
/// `pending_hook` names, reports whether it succeeded with `record`, persists
/// `patch` of the state entered, and stops on `Transition::Complete`.
pub struct Driver {
    current: PodState,
}

impl View for Driver {
    type V = PodState;

    closed spec fn view(&self) -> PodState {
        self.current
    }
}

/// The state reached from `s` after steps whose hooks had the given outcomes.
pub open spec fn state_after(s: PodState, outcomes: Seq<bool>) -> PodState
    decreases outcomes.len(),
{
    if outcomes.len() == 0 {
        s
    } else {
        state_after(next_state(s, outcomes[0]), outcomes.drop_first())
    }
}

impl Driver {
    /// A driver at the start of the lifecycle, in `Registered`.
    pub fn new() -> (r: Driver)
        ensures
            r@ == PodState::Registered,
    {
        Driver { current: PodState::Registered }
    }

    /// A driver that resumes the lifecycle in `state`.
    pub fn resume_at(state: PodState) -> (r: Driver)
        ensures
            r@ == state,
    {
        Driver { current: state }
    }

    /// The state the driver is in.
    pub fn current(&self) -> (r: PodState)
        ensures
            r == self@,
    {
        self.current
    }

    /// The hook to run before the next step; none in a sink state.
    pub fn pending_hook(&self) -> (r: Option<Hook>)
        ensures
            r == hook_of(self@),
    {
        self.current.hook()
    }

    /// Takes one step of the current state, given whether its hook
    /// succeeded, and moves to the state that the transition names.
    pub fn record(&mut self, hook_succeeded: bool) -> (r: Transition)
        ensures
            r == step_of(old(self)@, hook_succeeded),
            final(self)@ == next_state(old(self)@, hook_succeeded),
    {
        let t = step(self.current, hook_succeeded);
        match &t {
            Transition::Advance(s) => {
                self.current = *s;
            },
            Transition::Error(s) => {
                self.current = *s;
            },
            Transition::Complete(_) => {},
        }
        t
    }

    /// The status patch document of the current state.
    pub fn patch(&self) -> (r: String)
        ensures
            r@ == patch_document(Seq::<char>::empty(), phase_of(self@), reason_of(self@)),
    {
        StatusPatch::for_state(self.current).to_json()
    }
}

/// Once in a sink state the machine stays there: whatever the hooks report,
/// every further step completes successfully and no hook is called.
pub proof fn lemma_terminal_idempotent(s: PodState, outcomes: Seq<bool>, hook_succeeded: bool)
    requires
        is_terminal(s),
    ensures
        state_after(s, outcomes) == s,
        step_of(state_after(s, outcomes), hook_succeeded) == Transition::Complete(Ok(())),
        hook_of(state_after(s, outcomes)) == None::<Hook>,
    decreases outcomes.len(),
{
    if outcomes.len() > 0 {
        lemma_terminal_idempotent(s, outcomes.drop_first(), hook_succeeded);
    }
}

/// Whether, on the run from `s` with the given hook outcomes, every step
/// taken in `ImagePull` had its hook fail.
pub open spec fn image_pulls_fail(s: PodState, outcomes: Seq<bool>) -> bool
    decreases outcomes.len(),
{
    outcomes.len() == 0 || ((s == PodState::ImagePull ==> !outcomes[0]) && image_pulls_fail(
        next_state(s, outcomes[0]),
        outcomes.drop_first(),
    ))
}

/// While image pulls keep failing, a machine that is pulling images, or
/// backing off from a failed pull, only moves between `ImagePull` and
/// `ImagePullBackoff`: a failed pull routes to the backoff state, and the
/// backoff state loops on itself or retries the pull.
pub proof fn lemma_image_pull_failures_loop(s: PodState, outcomes: Seq<bool>)
    requires
        s == PodState::ImagePull || s == PodState::ImagePullBackoff,
        image_pulls_fail(s, outcomes),
    ensures
        state_after(s, outcomes) == PodState::ImagePull || state_after(s, outcomes)
            == PodState::ImagePullBackoff,
    decreases outcomes.len(),
{
    if outcomes.len() > 0 {
        lemma_image_pull_failures_loop(next_state(s, outcomes[0]), outcomes.drop_first());
    }
}

} // verus!
