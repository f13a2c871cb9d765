use vstd::prelude::*;

use crate::clock::local_now;
use crate::error::WorkspaceError;
use crate::mission::opt_text;
use crate::policy::{actor_role, allowed, is_allowed, role_of, Action};
use crate::status::TaskStatus;
use crate::task::{
    updated_row, CreateTaskEntity, CreateTaskModel, TaskModel, TaskRow, UpdateTaskEntity,
    UpdateTaskModel,
};
use crate::workspace::{
    find_task, kept_by, lemma_find_changed, task_changed, task_in_mission, task_other_than,
    task_rows, SubmissionFilter, Workspace, WorkspaceView,
};

verus! {

/// The priority of a task created without one.
pub open spec fn default_priority() -> Seq<char> {
    "Medium"@
}

/// The task that `user` asks for in mission `m`, stored under `id`: pending,
/// and of medium priority unless the request gives one.
pub open spec fn requested_task(id: i32, m: i32, user: i32, model: CreateTaskModel) -> TaskRow {
    TaskRow {
        id,
        mission_id: m,
        member_id: model.member_id,
        title: model.title@,
        description: opt_text(model.description),
        start_date: model.start_date,
        end_date: model.end_date,
        priority: match model.priority {
            Some(p) => p@,
            None => default_priority(),
        },
        status: TaskStatus::Pending,
        created_by: user,
        has_submission: false,
    }
}

/// The change that a chief's edit `model` makes to a task.
pub open spec fn task_edit(model: UpdateTaskModel) -> UpdateTaskEntity {
    UpdateTaskEntity {
        title: model.title,
        description: model.description,
        member_id: model.member_id,
        status: model.status,
        priority: model.priority,
        updated_at: None,
        has_submission: None,
    }
}

/// Whether `user` leads mission `m`; only its chief edits its tasks.
pub open spec fn may_edit(s: WorkspaceView, m: i32, user: i32) -> bool {
    allowed(role_of(s.mission(m).chief_id as int, false, user as int), Action::EditMission)
}

/// Whether `user` may read the tasks and submissions of mission `m`: its
/// chief and its crew may.
pub open spec fn may_view(s: WorkspaceView, m: i32, user: i32) -> bool {
    allowed(role_of(s.mission(m).chief_id as int, s.is_member(m, user), user as int), Action::ViewWorkspace)
}

pub open spec fn task_result(r: Result<TaskModel, WorkspaceError>) -> Result<TaskRow, WorkspaceError> {
    match r {
        Ok(t) => Ok(t@),
        Err(e) => Err(e),
    }
}

pub open spec fn task_list_result(r: Result<Vec<TaskModel>, WorkspaceError>) -> Result<Seq<TaskRow>, WorkspaceError> {
    match r {
        Ok(v) => Ok(task_rows(v@)),
        Err(e) => Err(e),
    }
}

/// `user` creates a task in mission `m`.
pub open spec fn create_task_spec(s: WorkspaceView, m: i32, user: i32, model: CreateTaskModel) -> (Result<TaskRow, WorkspaceError>, WorkspaceView) {
    if !s.live(m) {
        (Err(WorkspaceError::NotFound), s)
    } else if !may_edit(s, m, user) {
        (Err(WorkspaceError::Forbidden), s)
    } else if s.next_task_id == i32::MAX {
        (Err(WorkspaceError::UpstreamFailure), s)
    } else {
        let t = requested_task(s.next_task_id, m, user, model);
        (Ok(t), s.with_new_task(t))
    }
}

/// `user` changes task `id` by `model`.
pub open spec fn update_task_spec(s: WorkspaceView, id: i32, user: i32, model: UpdateTaskModel) -> (Result<TaskRow, WorkspaceError>, WorkspaceView) {
    match find_task(s.tasks, id) {
        None => (Err(WorkspaceError::NotFound), s),
        Some(t) => if !s.live(t.mission_id) {
            (Err(WorkspaceError::NotFound), s)
        } else if !may_edit(s, t.mission_id, user) {
            (Err(WorkspaceError::Forbidden), s)
        } else {
            (
                Ok(updated_row(t, task_edit(model))),
                s.with_tasks(s.tasks.map_values(task_changed(id, task_edit(model)))),
            )
        },
    }
}

/// `user` deletes task `id`, and the submissions that refer to it first.
pub open spec fn delete_task_spec(s: WorkspaceView, id: i32, user: i32) -> (Result<(), WorkspaceError>, WorkspaceView) {
    match find_task(s.tasks, id) {
        None => (Err(WorkspaceError::NotFound), s),
        Some(t) => if !s.live(t.mission_id) {
            (Err(WorkspaceError::NotFound), s)
        } else if !may_edit(s, t.mission_id, user) {
            (Err(WorkspaceError::Forbidden), s)
        } else {
            (
                Ok(()),
                s.with_submissions(
                    s.submissions.filter(kept_by(SubmissionFilter::Task(id))),
                ).with_tasks(s.tasks.filter(task_other_than(id))),
            )
        },
    }
}

/// The tasks of mission `m`, as `user` may read them.
pub open spec fn mission_tasks_spec(s: WorkspaceView, m: i32, user: i32) -> Result<Seq<TaskRow>, WorkspaceError> {
    if !s.live(m) {
        Err(WorkspaceError::NotFound)
    } else if !may_view(s, m, user) {
        Err(WorkspaceError::Forbidden)
    } else {
        Ok(s.tasks.filter(task_in_mission(m)))
    }
}

/// The tasks of the missions.
pub struct TaskUseCase {}

impl TaskUseCase {
    pub fn new() -> Self {
        TaskUseCase {}
    }

    /// The chief `user_id` creates a task in `mission_id`.
    pub fn create(&self, ws: &mut Workspace, mission_id: i32, user_id: i32, model: CreateTaskModel) -> (r: Result<TaskModel, WorkspaceError>)
        requires
            old(ws)@.wf(),
        ensures
            final(ws)@.wf(),
            (task_result(r), final(ws)@) == create_task_spec(old(ws)@, mission_id, user_id, model),
    {
        let mission = match ws.view_detail(mission_id, None) {
            Ok(d) => d,
            Err(e) => return Err(e),
        };
        if !is_allowed(actor_role(mission.chief_id, false, user_id), Action::EditMission) {
            return Err(WorkspaceError::Forbidden);
        }
        let priority = match model.priority {
            Some(p) => p,
            None => "Medium".to_string(),
        };
        let entity = CreateTaskEntity {
            mission_id,
            title: model.title,
            description: model.description,
            member_id: model.member_id,
            created_by: user_id,
            status: TaskStatus::Pending,
            priority,
            start_date: model.start_date,
            end_date: model.end_date,
        };
        ws.create_task(entity)
    }

    /// The chief `user_id` changes task `task_id`; fields that `model` leaves
    /// out stay as they are.
    pub fn update(&self, ws: &mut Workspace, task_id: i32, user_id: i32, model: UpdateTaskModel) -> (r: Result<TaskModel, WorkspaceError>)
        requires
            old(ws)@.wf(),
        ensures
            final(ws)@.wf(),
            (task_result(r), final(ws)@) == update_task_spec(old(ws)@, task_id, user_id, model),
    {
        let task = match ws.get_task(task_id) {
            Some(t) => t,
            None => return Err(WorkspaceError::NotFound),
        };
        let mission = match ws.view_detail(task.mission_id, None) {
            Ok(d) => d,
            Err(e) => return Err(e),
        };
        if !is_allowed(actor_role(mission.chief_id, false, user_id), Action::EditMission) {
            return Err(WorkspaceError::Forbidden);
        }
        let ghost before = ws@;
        let entity = UpdateTaskEntity {
            title: model.title,
            description: model.description,
            member_id: model.member_id,
            status: model.status,
            priority: model.priority,
            updated_at: Some(local_now()),
            has_submission: None,
        };
        assert(crate::workspace::without_time(entity) == task_edit(model));
        ws.update_task(task_id, &entity);
        proof {
            lemma_find_changed(before.tasks, task_id, task_edit(model));
        }
        match ws.get_task(task_id) {
            Some(t) => Ok(t),
            None => Err(WorkspaceError::NotFound),
        }
    }

    /// The chief `user_id` deletes task `task_id`, after the submissions
    /// that refer to it.
    pub fn delete(&self, ws: &mut Workspace, task_id: i32, user_id: i32) -> (r: Result<(), WorkspaceError>)
        requires
            old(ws)@.wf(),
        ensures
            final(ws)@.wf(),
            (r, final(ws)@) == delete_task_spec(old(ws)@, task_id, user_id),
    {
        let task = match ws.get_task(task_id) {
            Some(t) => t,
            None => return Err(WorkspaceError::NotFound),
        };
        let mission = match ws.view_detail(task.mission_id, None) {
            Ok(d) => d,
            Err(e) => return Err(e),
        };
        if !is_allowed(actor_role(mission.chief_id, false, user_id), Action::EditMission) {
            return Err(WorkspaceError::Forbidden);
        }
        ws.remove_submissions(SubmissionFilter::Task(task_id));
        ws.remove_task(task_id);
        Ok(())
    }

    /// The tasks of `mission_id`, for its chief or a member of its crew.
    pub fn get_by_mission(&self, ws: &Workspace, mission_id: i32, user_id: i32) -> (r: Result<Vec<TaskModel>, WorkspaceError>)
        requires
            ws@.wf(),
        ensures
            task_list_result(r) == mission_tasks_spec(ws@, mission_id, user_id),
    {
        let mission = match ws.view_detail(mission_id, Some(user_id)) {
            Ok(d) => d,
            Err(e) => return Err(e),
        };
        if !is_allowed(actor_role(mission.chief_id, mission.is_joined, user_id), Action::ViewWorkspace) {
            return Err(WorkspaceError::Forbidden);
        }
        Ok(ws.tasks_of_mission(mission_id))
    }
}

} // verus!
