use vstd::prelude::*;

verus! {

/// The standing of an actor towards one mission.
#[derive(Clone, Copy, Debug, PartialEq, Eq, Structural)]
pub enum ActorRole {
    /// The member who created the mission.
    Chief,
    /// A member of the mission's crew.
    Member,
    /// Anyone else.
    NonMember,
}

/// What an actor may attempt on a mission.
#[derive(Clone, Copy, Debug, PartialEq, Eq, Structural)]
pub enum Action {
    CreateMission,
    EditMission,
    Join,
    Leave,
    ManageCrew,
    SubmitWork,
    ViewWorkspace,
    EditOwnSubmission,
    EditOthersSubmission,
}

/// The standing of `actor` on a mission led by `chief_id`, given whether the
/// actor is in its crew. The chief is never counted as a crew member.
pub open spec fn role_of(chief_id: int, is_joined: bool, actor: int) -> ActorRole {
    if actor == chief_id {
        ActorRole::Chief
    } else if is_joined {
        ActorRole::Member
    } else {
        ActorRole::NonMember
    }
}

/// The decision table of the workspace.
pub open spec fn allowed(role: ActorRole, action: Action) -> bool {
    match role {
        ActorRole::Chief => match action {
            Action::CreateMission | Action::EditMission | Action::ManageCrew
            | Action::ViewWorkspace | Action::EditOthersSubmission => true,
            _ => false,
        },
        ActorRole::Member => match action {
            Action::Join | Action::Leave | Action::SubmitWork | Action::ViewWorkspace
            | Action::EditOwnSubmission => true,
            _ => false,
        },
        ActorRole::NonMember => action == Action::Join,
    }
}

/// Classifies `actor` towards a mission led by `chief_id`.
pub fn actor_role(chief_id: i32, is_joined: bool, actor: i32) -> (r: ActorRole)
    ensures
        r == role_of(chief_id as int, is_joined, actor as int),
{
    if actor == chief_id {
        ActorRole::Chief
    } else if is_joined {
        ActorRole::Member
    } else {
        ActorRole::NonMember
    }
}

/// Looks `action` up in the decision table for `role`.
pub fn is_allowed(role: ActorRole, action: Action) -> (r: bool)
    ensures
        r == allowed(role, action),
{
    match role {
        ActorRole::Chief => match action {
            Action::CreateMission | Action::EditMission | Action::ManageCrew
            | Action::ViewWorkspace | Action::EditOthersSubmission => true,
            _ => false,
        },
        ActorRole::Member => match action {
            Action::Join | Action::Leave | Action::SubmitWork | Action::ViewWorkspace
            | Action::EditOwnSubmission => true,
            _ => false,
        },
        ActorRole::NonMember => match action {
            Action::Join => true,
            _ => false,
        },
    }
}

} // verus!
