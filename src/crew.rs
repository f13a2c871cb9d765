use vstd::prelude::*;

use crate::clock::local_now;
use crate::error::WorkspaceError;
use crate::membership::{member_role, CrewMemberShips, MemberRow};
use crate::mission::MissionDetail;
use crate::status::{joinable, leavable};
use crate::workspace::{kept_by, other_than, with_role, SubmissionFilter, Workspace, WorkspaceView};

verus! {

/// What joining asks of the crew, for `actor` and a mission seen as `d`:
/// `Ok(true)` when a membership is to be added, `Ok(false)` when the actor
/// is in the crew already.
pub open spec fn join_decision(d: MissionDetail, actor: i32) -> Result<bool, WorkspaceError> {
    if d.is_joined {
        Ok(false)
    } else if d.chief_id == actor {
        Err(WorkspaceError::Forbidden)
    } else if !joinable(d.status) {
        Err(WorkspaceError::InvalidState)
    } else if d.member_count as int >= d.max_members as int {
        Err(WorkspaceError::Capacity)
    } else {
        Ok(true)
    }
}

/// Whether a crew member may leave a mission seen as `d`.
pub open spec fn leave_decision(d: MissionDetail) -> Result<(), WorkspaceError> {
    if !d.is_joined {
        Err(WorkspaceError::NotMember)
    } else if !leavable(d.status) {
        Err(WorkspaceError::InvalidState)
    } else {
        Ok(())
    }
}

/// Whether `acting` may remove `target` from the crew of a mission seen as `d`.
pub open spec fn kick_decision(d: MissionDetail, target: i32, acting: i32) -> Result<(), WorkspaceError> {
    if d.chief_id != acting {
        Err(WorkspaceError::Forbidden)
    } else if d.chief_id == target {
        Err(WorkspaceError::Forbidden)
    } else {
        Ok(())
    }
}

/// Decides a join of `actor` on a mission seen as `d`.
pub fn decide_join(d: &MissionDetail, actor: i32) -> (r: Result<bool, WorkspaceError>)
    ensures
        r == join_decision(*d, actor),
{
    if d.is_joined {
        return Ok(false);
    }
    if d.chief_id == actor {
        return Err(WorkspaceError::Forbidden);
    }
    if !d.status.is_joinable() {
        return Err(WorkspaceError::InvalidState);
    }
    if d.max_members <= 0 || d.member_count >= d.max_members as usize {
        return Err(WorkspaceError::Capacity);
    }
    Ok(true)
}

/// Decides whether the actor for whom `d` was read may leave.
pub fn decide_leave(d: &MissionDetail) -> (r: Result<(), WorkspaceError>)
    ensures
        r == leave_decision(*d),
{
    if !d.is_joined {
        return Err(WorkspaceError::NotMember);
    }
    if !d.status.is_leavable() {
        return Err(WorkspaceError::InvalidState);
    }
    Ok(())
}

/// Decides whether `acting` may remove `target` from the crew.
pub fn decide_kick(d: &MissionDetail, target: i32, acting: i32) -> (r: Result<(), WorkspaceError>)
    ensures
        r == kick_decision(*d, target, acting),
{
    if d.chief_id != acting {
        return Err(WorkspaceError::Forbidden);
    }
    if d.chief_id == target {
        return Err(WorkspaceError::Forbidden);
    }
    Ok(())
}

/// `actor` joins the crew of mission `m`.
pub open spec fn join_spec(s: WorkspaceView, m: i32, actor: i32) -> (Result<(), WorkspaceError>, WorkspaceView) {
    if !s.live(m) {
        (Err(WorkspaceError::NotFound), s)
    } else {
        match join_decision(s.detail(m, Some(actor)), actor) {
            Err(e) => (Err(e), s),
            Ok(add) => if add {
                (
                    Ok(()),
                    s.with_members(
                        s.members.push(MemberRow { mission_id: m, brawler_id: actor, role: member_role() }),
                    ),
                )
            } else {
                (Ok(()), s)
            },
        }
    }
}

/// `actor` leaves the crew of mission `m`.
pub open spec fn leave_spec(s: WorkspaceView, m: i32, actor: i32) -> (Result<(), WorkspaceError>, WorkspaceView) {
    if !s.live(m) {
        (Err(WorkspaceError::NotFound), s)
    } else {
        match leave_decision(s.detail(m, Some(actor))) {
            Err(e) => (Err(e), s),
            Ok(_) => (Ok(()), s.with_members(s.members.filter(other_than(m, actor)))),
        }
    }
}

/// `acting` gives `target` the role `role` in the crew of mission `m`.
pub open spec fn update_role_spec(s: WorkspaceView, m: i32, target: i32, role: Seq<char>, acting: i32) -> (Result<(), WorkspaceError>, WorkspaceView) {
    if !s.live(m) {
        (Err(WorkspaceError::NotFound), s)
    } else if s.mission(m).chief_id != acting {
        (Err(WorkspaceError::Forbidden), s)
    } else {
        (Ok(()), s.with_members(s.members.map_values(with_role(m, target, role))))
    }
}

/// The chief `acting` removes `target` from the crew of mission `m`,
/// together with the target's submissions to that mission.
pub open spec fn kick_spec(s: WorkspaceView, m: i32, target: i32, acting: i32) -> (Result<(), WorkspaceError>, WorkspaceView) {
    if !s.live(m) {
        (Err(WorkspaceError::NotFound), s)
    } else {
        match kick_decision(s.detail(m, None), target, acting) {
            Err(e) => (Err(e), s),
            Ok(_) => (
                Ok(()),
                s.with_submissions(
                    s.submissions.filter(kept_by(SubmissionFilter::Member(m, target))),
                ).with_members(s.members.filter(other_than(m, target))),
            ),
        }
    }
}

/// Membership changes of a mission's crew.
pub struct CrewOperationUseCase {}

impl CrewOperationUseCase {
    pub fn new() -> Self {
        CrewOperationUseCase {}
    }

    /// `brawler_id` joins the crew of `mission_id`, as a plain member. Joining
    /// twice is no error and adds nothing.
    pub fn join(&self, ws: &mut Workspace, mission_id: i32, brawler_id: i32) -> (r: Result<(), WorkspaceError>)
        requires
            old(ws)@.wf(),
        ensures
            final(ws)@.wf(),
            (r, final(ws)@) == join_spec(old(ws)@, mission_id, brawler_id),
    {
        let mission = match ws.view_detail(mission_id, Some(brawler_id)) {
            Ok(d) => d,
            Err(e) => return Err(e),
        };
        match decide_join(&mission, brawler_id) {
            Err(e) => Err(e),
            Ok(add) => {
                if add {
                    ws.insert_membership(
                        CrewMemberShips {
                            mission_id,
                            brawler_id,
                            joined_at: local_now(),
                            role: "Member".to_string(),
                        },
                    );
                }
                Ok(())
            },
        }
    }

    /// `brawler_id` leaves the crew of `mission_id`.
    pub fn leave(&self, ws: &mut Workspace, mission_id: i32, brawler_id: i32) -> (r: Result<(), WorkspaceError>)
        requires
            old(ws)@.wf(),
        ensures
            final(ws)@.wf(),
            (r, final(ws)@) == leave_spec(old(ws)@, mission_id, brawler_id),
    {
        let mission = match ws.view_detail(mission_id, Some(brawler_id)) {
            Ok(d) => d,
            Err(e) => return Err(e),
        };
        match decide_leave(&mission) {
            Err(e) => Err(e),
            Ok(_) => {
                ws.remove_membership(mission_id, brawler_id);
                Ok(())
            },
        }
    }

    /// The chief `chief_id` gives `brawler_id` the role `role`.
    pub fn update_role(&self, ws: &mut Workspace, mission_id: i32, brawler_id: i32, role: String, chief_id: i32) -> (r: Result<(), WorkspaceError>)
        requires
            old(ws)@.wf(),
        ensures
            final(ws)@.wf(),
            (r, final(ws)@) == update_role_spec(old(ws)@, mission_id, brawler_id, role@, chief_id),
    {
        let mission = match ws.view_detail(mission_id, None) {
            Ok(d) => d,
            Err(e) => return Err(e),
        };
        if mission.chief_id != chief_id {
            return Err(WorkspaceError::Forbidden);
        }
        ws.set_role(mission_id, brawler_id, &role);
        Ok(())
    }

    /// The chief `chief_id` removes `brawler_id` from the crew; the member's
    /// submissions to the mission go first.
    pub fn kick(&self, ws: &mut Workspace, mission_id: i32, brawler_id: i32, chief_id: i32) -> (r: Result<(), WorkspaceError>)
        requires
            old(ws)@.wf(),
        ensures
            final(ws)@.wf(),
            (r, final(ws)@) == kick_spec(old(ws)@, mission_id, brawler_id, chief_id),
    {
        let mission = match ws.view_detail(mission_id, None) {
            Ok(d) => d,
            Err(e) => return Err(e),
        };
        match decide_kick(&mission, brawler_id, chief_id) {
            Err(e) => Err(e),
            Ok(_) => {
                ws.remove_submissions(SubmissionFilter::Member(mission_id, brawler_id));
                ws.remove_membership(mission_id, brawler_id);
                Ok(())
            },
        }
    }
}

} // verus!
