//! Properties that hold across the operations of the workspace.
use vstd::prelude::*;

use crate::crew::{join_spec, kick_spec, leave_spec};
use crate::error::WorkspaceError;
use crate::status::{joinable, MissionStatuses, TaskStatus};
use crate::submission_workflow::{delete_submission_spec, reopen_change, review_change, submit_spec};
use crate::submission::NewMissionSubmission;
use crate::task::TaskRow;
use crate::workspace::{
    find_submission, find_task, in_mission, lemma_find_changed, membership_of, other_than,
    WorkspaceView,
};

verus! {

/// A full crew turns newcomers away: on a live mission that can be joined and
/// whose crew has as many members as it may have, a join by anyone who is
/// neither in the crew nor its chief fails for lack of room, and changes
/// nothing.
pub proof fn full_crew_refuses_join(s: WorkspaceView, m: i32, actor: i32)
    requires
        s.wf(),
        s.live(m),
        s.member_count(m) == s.mission(m).max_members,
        joinable(s.mission(m).status),
        !s.is_member(m, actor),
        actor != s.mission(m).chief_id,
    ensures
        join_spec(s, m, actor) == (Err::<(), WorkspaceError>(WorkspaceError::Capacity), s),
{
}

/// A join never takes a crew beyond its capacity: a crew within its
/// capacity stays within it.
pub proof fn join_respects_capacity(s: WorkspaceView, m: i32, actor: i32)
    requires
        s.wf(),
        s.live(m),
        s.member_count(m) <= s.mission(m).max_members,
    ensures
        join_spec(s, m, actor).1.member_count(m) <= s.mission(m).max_members,
        join_spec(s, m, actor).1.missions == s.missions,
{
    let s1 = join_spec(s, m, actor).1;
    if s1.members != s.members {
        reveal(Seq::filter);
        assert(s1.members.drop_last() =~= s.members);
        assert(s1.members.filter(in_mission(m)) == s.members.filter(in_mission(m)).push(
            s1.members.last(),
        ));
    }
}

/// Joining is idempotent: for a member of the crew a join succeeds and
/// changes nothing.
pub proof fn join_when_joined_changes_nothing(s: WorkspaceView, m: i32, actor: i32)
    requires
        s.wf(),
        s.live(m),
        s.is_member(m, actor),
    ensures
        join_spec(s, m, actor) == (Ok::<(), WorkspaceError>(()), s),
{
}

/// Joining twice in a row: once the first join succeeded, the second one
/// succeeds too and changes nothing; a newcomer ends with exactly one
/// membership, and other memberships are untouched.
pub proof fn join_twice_adds_one_membership(s: WorkspaceView, m: i32, actor: i32)
    requires
        s.wf(),
        join_spec(s, m, actor).0 is Ok,
    ensures
        ({
            let s1 = join_spec(s, m, actor).1;
            &&& s1.is_member(m, actor)
            &&& join_spec(s1, m, actor) == (Ok::<(), WorkspaceError>(()), s1)
            &&& s1.members.filter(other_than(m, actor)) == s.members.filter(other_than(m, actor))
            &&& !s.is_member(m, actor) ==> s1.members.filter(membership_of(m, actor)).len() == 1
        }),
{
    let s1 = join_spec(s, m, actor).1;
    if !s.is_member(m, actor) {
        let k = s.members.len() as int;
        let p = membership_of(m, actor);
        assert(s1.members[k].mission_id == m && s1.members[k].brawler_id == actor);
        reveal(Seq::filter);
        assert(s1.members.drop_last() =~= s.members);
        if s.members.filter(p).len() > 0 {
            let e = s.members.filter(p)[0];
            assert(s.members.filter(p).contains(e));
            s.members.lemma_filter_contains_rev(p, e);
            let j = choose|j: int| 0 <= j < s.members.len() && s.members[j] == e;
            assert(s.members[j].mission_id == m && s.members[j].brawler_id == actor);
        }
    }
}

/// A chief is never in the crew of their own mission: no membership row of a
/// well-formed workspace names its mission's chief, and every operation keeps
/// the workspace well formed.
pub proof fn chief_never_in_crew(s: WorkspaceView, i: int)
    requires
        s.wf(),
        0 <= i < s.members.len(),
    ensures
        s.has_mission(s.members[i].mission_id),
        s.members[i].brawler_id != s.mission(s.members[i].mission_id).chief_id,
{
}

/// A chief who tries to join their own mission's crew is refused.
pub proof fn chief_join_forbidden(s: WorkspaceView, m: i32)
    requires
        s.wf(),
        s.live(m),
    ensures
        join_spec(s, m, s.mission(m).chief_id) == (Err::<(), WorkspaceError>(WorkspaceError::Forbidden), s),
{
    let c = s.mission(m).chief_id;
    if s.is_member(m, c) {
        let i = choose|i: int|
            #![trigger s.members[i]]
            0 <= i < s.members.len() && s.members[i].mission_id == m && s.members[i].brawler_id == c;
        assert(s.member_ok(s.members[i]));
    }
}

/// No one leaves the crew of a completed mission.
pub proof fn completed_mission_cannot_be_left(s: WorkspaceView, m: i32, actor: i32)
    requires
        s.wf(),
        s.live(m),
        s.mission(m).status == MissionStatuses::Completed,
        s.is_member(m, actor),
    ensures
        leave_spec(s, m, actor) == (Err::<(), WorkspaceError>(WorkspaceError::InvalidState), s),
{
}

/// Only the chief removes crew members: whoever else asks, member of the
/// crew or not, is refused and nothing changes.
pub proof fn kick_by_non_chief_forbidden(s: WorkspaceView, m: i32, target: i32, acting: i32)
    requires
        s.wf(),
        s.live(m),
        acting != s.mission(m).chief_id,
    ensures
        kick_spec(s, m, target, acting) == (Err::<(), WorkspaceError>(WorkspaceError::Forbidden), s),
{
}

/// Deleting a submission that refers to a task sends that task back to
/// work: its status becomes in progress and it no longer has a submission.
pub proof fn deleting_submission_reopens_task(s: WorkspaceView, id: i32, user: i32, t: i32)
    requires
        s.wf(),
        find_submission(s.submissions, id) is Some,
        find_submission(s.submissions, id).unwrap().task_id == Some(t),
        delete_submission_spec(s, id, user).0 is Ok,
        find_task(s.tasks, t) is Some,
    ensures
        find_task(delete_submission_spec(s, id, user).1.tasks, t) == Some(
            TaskRow {
                status: TaskStatus::InProgress,
                has_submission: false,
                ..find_task(s.tasks, t).unwrap()
            },
        ),
{
    lemma_find_changed(s.tasks, t, reopen_change());
}

/// Submitting work against a task puts that task up for review: its status
/// becomes review and it has a submission.
pub proof fn submission_puts_task_in_review(s: WorkspaceView, n: NewMissionSubmission, t: i32)
    requires
        s.wf(),
        n.task_id == Some(t),
        submit_spec(s, n).0 is Ok,
    ensures
        find_task(submit_spec(s, n).1.tasks, t) == Some(
            TaskRow {
                status: TaskStatus::Review,
                has_submission: true,
                ..find_task(s.tasks, t).unwrap()
            },
        ),
{
    lemma_find_changed(s.tasks, t, review_change());
}

} // verus!
