use vstd::prelude::*;

verus! {

/// Why an operation of the workspace was refused.
#[derive(Clone, Copy, Debug, PartialEq, Eq, Structural)]
pub enum WorkspaceError {
    /// The actor's role does not allow the action.
    Forbidden,
    /// The mission's status does not allow the transition.
    InvalidState,
    /// The crew is full.
    Capacity,
    /// The actor is not a member of the crew.
    NotMember,
    /// The referenced mission, task or submission does not exist.
    NotFound,
    /// A storage or upload step failed.
    UpstreamFailure,
}

} // verus!
