use crate::phase::Phase;
use vstd::prelude::*;
use vstd::string::*;

verus! {

/// Delay, in seconds, that the default backoff and error hooks wait before
/// reporting success.
pub const BACKOFF_DELAY_SECS: u64 = 30;

/// A node of the default lifecycle graph.
#[derive(Clone, Copy, Debug, PartialEq, Eq, Structural)]
pub enum PodState {
    /// The node agent is aware of the workload.
    Registered,
    /// Container images are being pulled.
    ImagePull,
    /// Image pull failed; waiting before pulling again.
    ImagePullBackoff,
    /// Volumes are being provisioned.
    VolumeMount,
    /// Volume mount failed; waiting before mounting again.
    VolumeMountBackoff,
    /// Containers are being started.
    Starting,
    /// The workload is running.
    Running,
    /// The workload hit an error; waiting before starting again.
    Error,
    /// The workload was terminated before it completed.
    Terminated,
    /// The workload completed with no errors.
    Finished,
}

/// A lifecycle hook of the capability set.
#[derive(Clone, Copy, Debug, PartialEq, Eq, Structural)]
pub enum Hook {
    Registered,
    ImagePull,
    ImagePullBackoff,
    VolumeMount,
    VolumeMountBackoff,
    Starting,
    Running,
    Error,
}

/// Outcome of one step of a state.
#[derive(Debug, PartialEq, Eq)]
pub enum Transition {
    /// Follow the success edge to the given state.
    Advance(PodState),
    /// Follow the failure edge to the given state.
    Error(PodState),
    /// Stop the machine with the given result.
    Complete(Result<(), String>),
}

/// The two sink states, which call no hook and complete the machine.
pub open spec fn is_terminal(s: PodState) -> bool {
    s == PodState::Terminated || s == PodState::Finished
}

/// The state entered when the state's hook succeeds.
pub open spec fn advance_edge(s: PodState) -> Option<PodState> {
    match s {
        PodState::Registered => Some(PodState::ImagePull),
        PodState::ImagePull => Some(PodState::VolumeMount),
        PodState::ImagePullBackoff => Some(PodState::ImagePull),
        PodState::VolumeMount => Some(PodState::Starting),
        PodState::VolumeMountBackoff => Some(PodState::VolumeMount),
        PodState::Starting => Some(PodState::Running),
        PodState::Running => Some(PodState::Finished),
        PodState::Error => Some(PodState::Starting),
        PodState::Terminated => None,
        PodState::Finished => None,
    }
}

/// The state entered when the state's hook fails.
pub open spec fn error_edge(s: PodState) -> Option<PodState> {
    match s {
        PodState::Registered => Some(PodState::Error),
        PodState::ImagePull => Some(PodState::ImagePullBackoff),
        PodState::ImagePullBackoff => Some(PodState::ImagePullBackoff),
        PodState::VolumeMount => Some(PodState::VolumeMountBackoff),
        PodState::VolumeMountBackoff => Some(PodState::VolumeMountBackoff),
        PodState::Starting => Some(PodState::Error),
        PodState::Running => Some(PodState::Error),
        PodState::Error => Some(PodState::Error),
        PodState::Terminated => None,
        PodState::Finished => None,
    }
}

/// The hook that a state calls; the sink states call none.
pub open spec fn hook_of(s: PodState) -> Option<Hook> {
    match s {
        PodState::Registered => Some(Hook::Registered),
        PodState::ImagePull => Some(Hook::ImagePull),
        PodState::ImagePullBackoff => Some(Hook::ImagePullBackoff),
        PodState::VolumeMount => Some(Hook::VolumeMount),
        PodState::VolumeMountBackoff => Some(Hook::VolumeMountBackoff),
        PodState::Starting => Some(Hook::Starting),
        PodState::Running => Some(Hook::Running),
        PodState::Error => Some(Hook::Error),
        PodState::Terminated => None,
        PodState::Finished => None,
    }
}

/// The phase reported while in a state.
pub open spec fn phase_of(s: PodState) -> Phase {
    match s {
        PodState::Running => Phase::Running,
        PodState::Error => Phase::Failed,
        PodState::Terminated => Phase::Failed,
        PodState::Finished => Phase::Succeeded,
        _ => Phase::Pending,
    }
}

/// The name of a state.
pub open spec fn state_name(s: PodState) -> Seq<char> {
    match s {
        PodState::Registered => "Registered"@,
        PodState::ImagePull => "ImagePull"@,
        PodState::ImagePullBackoff => "ImagePullBackoff"@,
        PodState::VolumeMount => "VolumeMount"@,
        PodState::VolumeMountBackoff => "VolumeMountBackoff"@,
        PodState::Starting => "Starting"@,
        PodState::Running => "Running"@,
        PodState::Error => "Error"@,
        PodState::Terminated => "Terminated"@,
        PodState::Finished => "Finished"@,
    }
}

/// The reason reported while in a state: its name, except for the two sink
/// states, which both report "Failed".
pub open spec fn reason_of(s: PodState) -> Seq<char> {
    if is_terminal(s) {
        "Failed"@
    } else {
        state_name(s)
    }
}

/// What a step of state `s` yields, given whether its hook succeeded.
pub open spec fn step_of(s: PodState, hook_succeeded: bool) -> Transition {
    if is_terminal(s) {
        Transition::Complete(Ok(()))
    } else if hook_succeeded {
        Transition::Advance(advance_edge(s).unwrap())
    } else {
        Transition::Error(error_edge(s).unwrap())
    }
}

/// The state the machine is in after a step of `s`; a completed machine
/// stays where it is.
pub open spec fn next_state(s: PodState, hook_succeeded: bool) -> PodState {
    match step_of(s, hook_succeeded) {
        Transition::Advance(t) => t,
        Transition::Error(t) => t,
        Transition::Complete(_) => s,
    }
}

/// The delay that a hook waits, by default, before it reports success.
pub open spec fn default_delay_of(h: Hook) -> u64 {
    match h {
        Hook::ImagePullBackoff => BACKOFF_DELAY_SECS,
        Hook::VolumeMountBackoff => BACKOFF_DELAY_SECS,
        Hook::Error => BACKOFF_DELAY_SECS,
        _ => 0,
    }
}

impl Hook {
    /// Seconds that the default implementation of this hook waits before it
    /// succeeds.
    pub fn default_delay_secs(&self) -> (r: u64)
        ensures
            r == default_delay_of(*self),
    {
        match self {
            Hook::ImagePullBackoff | Hook::VolumeMountBackoff | Hook::Error => BACKOFF_DELAY_SECS,
            _ => 0,
        }
    }
}

impl PodState {
    /// Whether this is one of the two sink states.
    pub fn is_terminal(&self) -> (r: bool)
        ensures
            r == is_terminal(*self),
    {
        match self {
            PodState::Terminated | PodState::Finished => true,
            _ => false,
        }
    }

    /// The success edge of this state.
    pub fn advance_target(&self) -> (r: Option<PodState>)
        ensures
            r == advance_edge(*self),
    {
        match self {
            PodState::Registered => Some(PodState::ImagePull),
            PodState::ImagePull => Some(PodState::VolumeMount),
            PodState::ImagePullBackoff => Some(PodState::ImagePull),
            PodState::VolumeMount => Some(PodState::Starting),
            PodState::VolumeMountBackoff => Some(PodState::VolumeMount),
            PodState::Starting => Some(PodState::Running),
            PodState::Running => Some(PodState::Finished),
            PodState::Error => Some(PodState::Starting),
            PodState::Terminated | PodState::Finished => None,
        }
    }

    /// The failure edge of this state.
    pub fn error_target(&self) -> (r: Option<PodState>)
        ensures
            r == error_edge(*self),
    {
        match self {
            PodState::Registered | PodState::Starting | PodState::Running | PodState::Error => Some(
                PodState::Error,
            ),
            PodState::ImagePull | PodState::ImagePullBackoff => Some(PodState::ImagePullBackoff),
            PodState::VolumeMount | PodState::VolumeMountBackoff => Some(
                PodState::VolumeMountBackoff,
            ),
            PodState::Terminated | PodState::Finished => None,
        }
    }

    /// The hook this state calls, if any.
    pub fn hook(&self) -> (r: Option<Hook>)
        ensures
            r == hook_of(*self),
    {
        match self {
            PodState::Registered => Some(Hook::Registered),
            PodState::ImagePull => Some(Hook::ImagePull),
            PodState::ImagePullBackoff => Some(Hook::ImagePullBackoff),
            PodState::VolumeMount => Some(Hook::VolumeMount),
            PodState::VolumeMountBackoff => Some(Hook::VolumeMountBackoff),
            PodState::Starting => Some(Hook::Starting),
            PodState::Running => Some(Hook::Running),
            PodState::Error => Some(Hook::Error),
            PodState::Terminated | PodState::Finished => None,
        }
    }

    /// The phase reported while in this state.
    pub fn phase(&self) -> (r: Phase)
        ensures
            r == phase_of(*self),
    {
        match self {
            PodState::Running => Phase::Running,
            PodState::Error | PodState::Terminated => Phase::Failed,
            PodState::Finished => Phase::Succeeded,
            _ => Phase::Pending,
        }
    }

    /// The name of this state.
    pub fn name(&self) -> (r: &'static str)
        ensures
            r@ == state_name(*self),
    {
        match self {
            PodState::Registered => "Registered",
            PodState::ImagePull => "ImagePull",
            PodState::ImagePullBackoff => "ImagePullBackoff",
            PodState::VolumeMount => "VolumeMount",
            PodState::VolumeMountBackoff => "VolumeMountBackoff",
            PodState::Starting => "Starting",
            PodState::Running => "Running",
            PodState::Error => "Error",
            PodState::Terminated => "Terminated",
            PodState::Finished => "Finished",
        }
    }

    /// The reason reported while in this state.
    pub fn reason(&self) -> (r: &'static str)
        ensures
            r@ == reason_of(*self),
    {
        if self.is_terminal() {
            "Failed"
        } else {
            self.name()
        }
    }
}

/// One step of `state`: the sink states complete successfully whatever
/// happened; any other state follows its success edge when its hook
/// succeeded and its failure edge when it failed.
pub fn step(state: PodState, hook_succeeded: bool) -> (r: Transition)
    ensures
        r == step_of(state, hook_succeeded),
{
    if state.is_terminal() {
        return Transition::Complete(Ok(()));
    }
    let target = if hook_succeeded {
        state.advance_target()
    } else {
        state.error_target()
    };
    match target {
        Some(t) => if hook_succeeded {
            Transition::Advance(t)
        } else {
            Transition::Error(t)
        },
        None => Transition::Complete(Ok(())),
    }
}

/// The text logged when the hook of `state` fails for the workload named
/// `pod_name` with the given error detail.
pub fn failure_report(pod_name: &str, state: PodState, detail: &str) -> (r: String)
    ensures
        r@ == "Pod "@ + pod_name@ + " encountered an error in state "@ + state_name(state)
            + ": "@ + detail@,
{
    let mut out = String::from_str("Pod ");
    out.append(pod_name);
    out.append(" encountered an error in state ");
    out.append(state.name());
    out.append(": ");
    out.append(detail);
    out
}

/// The graph is closed: a non-sink state has a hook and both edges, a sink
/// state has none, and a step either follows the edge that matches the
/// hook's outcome or, from a sink state only, completes successfully.
pub proof fn lemma_graph_closed(s: PodState, hook_succeeded: bool)
    ensures
        !is_terminal(s) ==> advance_edge(s).is_some() && error_edge(s).is_some() && hook_of(
            s,
        ).is_some(),
        is_terminal(s) ==> advance_edge(s).is_none() && error_edge(s).is_none() && hook_of(
            s,
        ).is_none(),
        (match step_of(s, hook_succeeded) {
            Transition::Advance(t) => hook_succeeded && advance_edge(s) == Some(t),
            Transition::Error(t) => !hook_succeeded && error_edge(s) == Some(t),
            Transition::Complete(res) => is_terminal(s) && res == Ok::<(), String>(()),
        }),
{
}

} // verus!
