use vstd::prelude::*;

verus! {

/// Externally visible phase of a workload.
#[derive(Clone, Copy, Debug, PartialEq, Eq, Structural)]
pub enum Phase {
    Pending,
    Running,
    Succeeded,
    Failed,
}

/// The name under which a phase is reported.
pub open spec fn phase_name(p: Phase) -> Seq<char> {
    match p {
        Phase::Pending => "Pending"@,
        Phase::Running => "Running"@,
        Phase::Succeeded => "Succeeded"@,
        Phase::Failed => "Failed"@,
    }
}

impl Phase {
    /// The name under which this phase is reported.
    pub fn as_str(&self) -> (r: &'static str)
        ensures
            r@ == phase_name(*self),
    {
        match self {
            Phase::Pending => "Pending",
            Phase::Running => "Running",
            Phase::Succeeded => "Succeeded",
            Phase::Failed => "Failed",
        }
    }
}

} // verus!
