use crate::phase::{phase_name, Phase};
use crate::state::{phase_of, reason_of, PodState};
use vstd::prelude::*;
use vstd::string::*;

verus! {

/// The JSON string literal that serde_json writes for the given text.
pub uninterp spec fn json_string_of(s: Seq<char>) -> Seq<char>;

/// Relies on serde_json::to_string on a `str`: it writes the text as one
/// escaped JSON string literal. Serialising a `str` into memory has no error
/// path in serde_json, so the error arm is never taken.
#[verifier::external_body]
fn json_string(s: &str) -> (r: String)
    ensures
        r@ == json_string_of(s@),
{
    match serde_json::to_string(s) {
        Ok(t) => t,
        Err(_) => String::new(),
    }
}

/// Partial update describing the externally visible condition of a workload.
/// Its document also carries two container-status lists, which are always
/// empty.
pub struct StatusPatch {
    /// Concurrency-control version token; empty unless the resource-update
    /// collaborator fills it.
    pub resource_version: String,
    pub phase: Phase,
    pub reason: String,
}

/// The JSON document of a patch with the given version token, phase and
/// reason.
pub open spec fn patch_document(resource_version: Seq<char>, phase: Phase, reason: Seq<char>) -> Seq<
    char,
> {
    "{\"metadata\":{\"resourceVersion\":"@ + json_string_of(resource_version)
        + "},\"status\":{\"phase\":"@ + json_string_of(phase_name(phase)) + ",\"reason\":"@
        + json_string_of(reason) + ",\"containerStatuses\":[],\"initContainerStatuses\":[]}}"@
}

impl StatusPatch {
    /// The patch reported while in `state`: empty version token, the state's
    /// phase and reason.
    pub fn for_state(state: PodState) -> (r: StatusPatch)
        ensures
            r.resource_version@ == Seq::<char>::empty(),
            r.phase == phase_of(state),
            r.reason@ == reason_of(state),
    {
        StatusPatch {
            resource_version: String::new(),
            phase: state.phase(),
            reason: String::from_str(state.reason()),
        }
    }

    /// The JSON document of this patch.
    pub fn to_json(&self) -> (r: String)
        ensures
            r@ == patch_document(self.resource_version@, self.phase, self.reason@),
    {
        let mut out = String::from_str("{\"metadata\":{\"resourceVersion\":");
        let version = json_string(self.resource_version.as_str());
        out.append(version.as_str());
        out.append("},\"status\":{\"phase\":");
        let phase = json_string(self.phase.as_str());
        out.append(phase.as_str());
        out.append(",\"reason\":");
        let reason = json_string(self.reason.as_str());
        out.append(reason.as_str());
        out.append(",\"containerStatuses\":[],\"initContainerStatuses\":[]}}");
        out
    }
}

/// The JSON document of the patch reported while in `state`.
pub fn status_patch(state: PodState) -> (r: String)
    ensures
        r@ == patch_document(Seq::<char>::empty(), phase_of(state), reason_of(state)),
{
    StatusPatch::for_state(state).to_json()
}

} // verus!
