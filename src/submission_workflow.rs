use vstd::prelude::*;

use crate::encoding::{base64_of, encode_base64};
use crate::error::WorkspaceError;
use crate::policy::{actor_role, allowed, is_allowed, role_of, Action};
use crate::status::TaskStatus;
use crate::submission::{submitted_row, MissionSubmission, NewMissionSubmission, SubmissionRow};
use crate::task::UpdateTaskEntity;
use crate::task_lifecycle::may_view;
use crate::workspace::{
    described, find_submission, find_task, kept_by, latest_for_task, submission_in_mission,
    submission_rows, task_changed, SubmissionFilter, Workspace, WorkspaceView,
};

verus! {

/// What a new submission does to the task it refers to.
pub open spec fn review_change() -> UpdateTaskEntity {
    UpdateTaskEntity {
        title: None,
        description: None,
        member_id: None,
        status: Some(TaskStatus::Review),
        priority: None,
        updated_at: None,
        has_submission: Some(true),
    }
}

/// What deleting a submission does to the task it referred to.
pub open spec fn reopen_change() -> UpdateTaskEntity {
    UpdateTaskEntity {
        title: None,
        description: None,
        member_id: None,
        status: Some(TaskStatus::InProgress),
        priority: None,
        updated_at: None,
        has_submission: Some(false),
    }
}

/// `s` after the change `e` to task `t`, if there is one.
pub open spec fn touch_task(s: WorkspaceView, t: Option<i32>, e: UpdateTaskEntity) -> WorkspaceView {
    match t {
        Some(id) => s.with_tasks(s.tasks.map_values(task_changed(id, e))),
        None => s,
    }
}

/// Whether `user` may submit work to mission `m`: only its crew may.
pub open spec fn may_submit(s: WorkspaceView, m: i32, user: i32) -> bool {
    allowed(role_of(s.mission(m).chief_id as int, s.is_member(m, user), user as int), Action::SubmitWork)
}

/// A task reference that a submission to mission `m` may hold: none, or a
/// task of `m`.
pub open spec fn task_fits(s: WorkspaceView, m: i32, t: Option<i32>) -> bool {
    match t {
        None => true,
        Some(id) => match find_task(s.tasks, id) {
            Some(task) => task.mission_id == m,
            None => false,
        },
    }
}

/// Whether `user` may edit or delete the submission `r`: its chief and its
/// author may.
pub open spec fn may_edit_submission(s: WorkspaceView, r: SubmissionRow, user: i32) -> bool {
    s.mission(r.mission_id).chief_id == user || r.brawler_id == user
}

pub open spec fn upload_spec(s: WorkspaceView, m: i32, user: i32, file: Seq<u8>) -> Result<Seq<char>, WorkspaceError> {
    if !s.live(m) {
        Err(WorkspaceError::NotFound)
    } else if !may_submit(s, m, user) {
        Err(WorkspaceError::Forbidden)
    } else {
        Ok(base64_of(file))
    }
}

/// `user` submits the uploaded file `n` to mission `m`; a task it refers to
/// goes to review.
pub open spec fn submit_spec(s: WorkspaceView, n: NewMissionSubmission) -> (Result<SubmissionRow, WorkspaceError>, WorkspaceView) {
    if !s.live(n.mission_id) {
        (Err(WorkspaceError::NotFound), s)
    } else if !may_submit(s, n.mission_id, n.brawler_id) {
        (Err(WorkspaceError::Forbidden), s)
    } else if !task_fits(s, n.mission_id, n.task_id) {
        (Err(WorkspaceError::NotFound), s)
    } else if s.next_submission_id == i32::MAX {
        (Err(WorkspaceError::UpstreamFailure), s)
    } else {
        (
            Ok(submitted_row(s.next_submission_id, n)),
            touch_task(s.with_new_submission(n), n.task_id, review_change()),
        )
    }
}

pub open spec fn submissions_spec(s: WorkspaceView, m: i32, user: i32) -> Result<Seq<SubmissionRow>, WorkspaceError> {
    if !s.live(m) {
        Err(WorkspaceError::NotFound)
    } else if !may_view(s, m, user) {
        Err(WorkspaceError::Forbidden)
    } else {
        Ok(s.submissions.filter(submission_in_mission(m)))
    }
}

/// `user` deletes submission `id`; a task it referred to goes back to work.
pub open spec fn delete_submission_spec(s: WorkspaceView, id: i32, user: i32) -> (Result<(), WorkspaceError>, WorkspaceView) {
    match find_submission(s.submissions, id) {
        None => (Err(WorkspaceError::NotFound), s),
        Some(r) => if !s.live(r.mission_id) {
            (Err(WorkspaceError::NotFound), s)
        } else if !may_edit_submission(s, r, user) {
            (Err(WorkspaceError::Forbidden), s)
        } else {
            (
                Ok(()),
                touch_task(
                    s.with_submissions(s.submissions.filter(kept_by(SubmissionFilter::Id(id)))),
                    r.task_id,
                    reopen_change(),
                ),
            )
        },
    }
}

/// `user` gives submission `id` the description `text`.
pub open spec fn describe_spec(s: WorkspaceView, id: i32, user: i32, text: Seq<char>) -> (Result<(), WorkspaceError>, WorkspaceView) {
    match find_submission(s.submissions, id) {
        None => (Err(WorkspaceError::NotFound), s),
        Some(r) => if !s.live(r.mission_id) {
            (Err(WorkspaceError::NotFound), s)
        } else if !may_edit_submission(s, r, user) {
            (Err(WorkspaceError::Forbidden), s)
        } else {
            (Ok(()), s.with_submissions(s.submissions.map_values(described(id, text))))
        },
    }
}

pub open spec fn text_result(r: Result<String, WorkspaceError>) -> Result<Seq<char>, WorkspaceError> {
    match r {
        Ok(t) => Ok(t@),
        Err(e) => Err(e),
    }
}

pub open spec fn submission_result(r: Result<MissionSubmission, WorkspaceError>) -> Result<SubmissionRow, WorkspaceError> {
    match r {
        Ok(t) => Ok(t@),
        Err(e) => Err(e),
    }
}

pub open spec fn submission_list_result(r: Result<Vec<MissionSubmission>, WorkspaceError>) -> Result<Seq<SubmissionRow>, WorkspaceError> {
    match r {
        Ok(v) => Ok(submission_rows(v@)),
        Err(e) => Err(e),
    }
}

/// Work submitted by the crews.
pub struct MissionSubmissionUseCase {}

impl MissionSubmissionUseCase {
    pub fn new() -> Self {
        MissionSubmissionUseCase {}
    }

    /// The base64 text of `file`, to be handed to the upload service, once
    /// `brawler_id` is known to be allowed to submit work to `mission_id`.
    pub fn upload_payload(&self, ws: &Workspace, mission_id: i32, brawler_id: i32, file: &Vec<u8>) -> (r: Result<String, WorkspaceError>)
        requires
            ws@.wf(),
            file@.len() <= usize::MAX / 2,
        ensures
            text_result(r) == upload_spec(ws@, mission_id, brawler_id, file@),
    {
        let mission = match ws.view_detail(mission_id, Some(brawler_id)) {
            Ok(d) => d,
            Err(e) => return Err(e),
        };
        if !is_allowed(actor_role(mission.chief_id, mission.is_joined, brawler_id), Action::SubmitWork) {
            return Err(WorkspaceError::Forbidden);
        }
        Ok(encode_base64(file))
    }

    /// `brawler_id` records the file uploaded to `file_url` as work for
    /// `mission_id`; a task it refers to goes to review.
    pub fn submit_work(
        &self,
        ws: &mut Workspace,
        mission_id: i32,
        brawler_id: i32,
        task_id: Option<i32>,
        file_url: String,
        file_name: String,
        file_type: String,
    ) -> (r: Result<MissionSubmission, WorkspaceError>)
        requires
            old(ws)@.wf(),
        ensures
            final(ws)@.wf(),
            (submission_result(r), final(ws)@) == submit_spec(
                old(ws)@,
                NewMissionSubmission {
                    mission_id,
                    brawler_id,
                    file_url,
                    file_name,
                    file_type,
                    task_id,
                    description: None,
                },
            ),
    {
        let mission = match ws.view_detail(mission_id, Some(brawler_id)) {
            Ok(d) => d,
            Err(e) => return Err(e),
        };
        if !is_allowed(actor_role(mission.chief_id, mission.is_joined, brawler_id), Action::SubmitWork) {
            return Err(WorkspaceError::Forbidden);
        }
        match task_id {
            Some(t) => match ws.get_task(t) {
                Some(task) => {
                    if task.mission_id != mission_id {
                        return Err(WorkspaceError::NotFound);
                    }
                },
                None => return Err(WorkspaceError::NotFound),
            },
            None => {},
        }
        let n = NewMissionSubmission {
            mission_id,
            brawler_id,
            file_url,
            file_name,
            file_type,
            task_id,
            description: None,
        };
        let submission = match ws.create_submission(n) {
            Ok(s) => s,
            Err(e) => return Err(e),
        };
        match task_id {
            Some(t) => {
                let change = UpdateTaskEntity {
                    title: None,
                    description: None,
                    member_id: None,
                    status: Some(TaskStatus::Review),
                    priority: None,
                    updated_at: Some(crate::clock::local_now()),
                    has_submission: Some(true),
                };
                ws.update_task(t, &change);
            },
            None => {},
        }
        Ok(submission)
    }

    /// The submissions to `mission_id`, for its chief or a member of its crew.
    pub fn get_submissions(&self, ws: &Workspace, mission_id: i32, brawler_id: i32) -> (r: Result<Vec<MissionSubmission>, WorkspaceError>)
        requires
            ws@.wf(),
        ensures
            submission_list_result(r) == submissions_spec(ws@, mission_id, brawler_id),
    {
        let mission = match ws.view_detail(mission_id, Some(brawler_id)) {
            Ok(d) => d,
            Err(e) => return Err(e),
        };
        if !is_allowed(actor_role(mission.chief_id, mission.is_joined, brawler_id), Action::ViewWorkspace) {
            return Err(WorkspaceError::Forbidden);
        }
        Ok(ws.submissions_of_mission(mission_id))
    }

    /// The most recent submission for task `task_id`, if any.
    pub fn get_task_submission(&self, ws: &Workspace, task_id: i32, brawler_id: i32) -> (r: Option<MissionSubmission>)
        ensures
            crate::workspace::submission_view(r) == latest_for_task(ws@.submissions, task_id),
    {
        ws.latest_submission_for_task(task_id)
    }

    /// The chief or the author `brawler_id` deletes submission `id`; a task
    /// it referred to goes back to work.
    pub fn delete_submission(&self, ws: &mut Workspace, id: i32, brawler_id: i32) -> (r: Result<(), WorkspaceError>)
        requires
            old(ws)@.wf(),
        ensures
            final(ws)@.wf(),
            (r, final(ws)@) == delete_submission_spec(old(ws)@, id, brawler_id),
    {
        let submission = match ws.get_submission(id) {
            Some(s) => s,
            None => return Err(WorkspaceError::NotFound),
        };
        let mission = match ws.view_detail(submission.mission_id, Some(brawler_id)) {
            Ok(d) => d,
            Err(e) => return Err(e),
        };
        if mission.chief_id != brawler_id && submission.brawler_id != brawler_id {
            return Err(WorkspaceError::Forbidden);
        }
        ws.remove_submissions(SubmissionFilter::Id(id));
        match submission.task_id {
            Some(t) => {
                let change = UpdateTaskEntity {
                    title: None,
                    description: None,
                    member_id: None,
                    status: Some(TaskStatus::InProgress),
                    priority: None,
                    updated_at: Some(crate::clock::local_now()),
                    has_submission: Some(false),
                };
                ws.update_task(t, &change);
            },
            None => {},
        }
        Ok(())
    }

    /// The chief or the author `brawler_id` gives submission `id` the
    /// description `description`.
    pub fn update_description(&self, ws: &mut Workspace, id: i32, brawler_id: i32, description: String) -> (r: Result<(), WorkspaceError>)
        requires
            old(ws)@.wf(),
        ensures
            final(ws)@.wf(),
            (r, final(ws)@) == describe_spec(old(ws)@, id, brawler_id, description@),
    {
        let submission = match ws.get_submission(id) {
            Some(s) => s,
            None => return Err(WorkspaceError::NotFound),
        };
        let mission = match ws.view_detail(submission.mission_id, Some(brawler_id)) {
            Ok(d) => d,
            Err(e) => return Err(e),
        };
        if mission.chief_id != brawler_id && submission.brawler_id != brawler_id {
            return Err(WorkspaceError::Forbidden);
        }
        ws.set_description(id, &description);
        Ok(())
    }
}

} // verus!
