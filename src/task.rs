use vstd::prelude::*;

use crate::clock::Timestamp;
use crate::mission::{clone_text, opt_text};
use crate::status::TaskStatus;

verus! {

/// A stored task.
#[derive(Clone, Debug)]
pub struct TaskModel {
    pub id: i32,
    pub mission_id: i32,
    pub member_id: Option<i32>,
    pub title: String,
    pub description: Option<String>,
    pub start_date: Option<Timestamp>,
    pub end_date: Option<Timestamp>,
    pub priority: String,
    pub status: TaskStatus,
    pub created_by: i32,
    pub created_at: Timestamp,
    pub updated_at: Timestamp,
    pub has_submission: bool,
}

/// What the coordination rules read of a task.
pub struct TaskRow {
    pub id: i32,
    pub mission_id: i32,
    pub member_id: Option<i32>,
    pub title: Seq<char>,
    pub description: Option<Seq<char>>,
    pub start_date: Option<Timestamp>,
    pub end_date: Option<Timestamp>,
    pub priority: Seq<char>,
    pub status: TaskStatus,
    pub created_by: i32,
    pub has_submission: bool,
}

impl View for TaskModel {
    type V = TaskRow;

    open spec fn view(&self) -> TaskRow {
        TaskRow {
            id: self.id,
            mission_id: self.mission_id,
            member_id: self.member_id,
            title: self.title@,
            description: opt_text(self.description),
            start_date: self.start_date,
            end_date: self.end_date,
            priority: self.priority@,
            status: self.status,
            created_by: self.created_by,
            has_submission: self.has_submission,
        }
    }
}

impl TaskModel {
    /// A copy of the task.
    pub fn duplicate(&self) -> (r: TaskModel)
        ensures
            r == *self,
    {
        TaskModel {
            id: self.id,
            mission_id: self.mission_id,
            member_id: self.member_id,
            title: self.title.clone(),
            description: clone_text(&self.description),
            start_date: self.start_date,
            end_date: self.end_date,
            priority: self.priority.clone(),
            status: self.status,
            created_by: self.created_by,
            created_at: self.created_at,
            updated_at: self.updated_at,
            has_submission: self.has_submission,
        }
    }
}

/// A chief's request for a new task.
#[derive(Clone, Debug)]
pub struct CreateTaskModel {
    pub title: String,
    pub description: Option<String>,
    pub member_id: Option<i32>,
    pub priority: Option<String>,
    pub start_date: Option<Timestamp>,
    pub end_date: Option<Timestamp>,
}

/// A chief's change to a task; absent fields stay as they are.
#[derive(Clone, Debug)]
pub struct UpdateTaskModel {
    pub title: Option<String>,
    pub description: Option<String>,
    pub member_id: Option<i32>,
    pub status: Option<TaskStatus>,
    pub priority: Option<String>,
}

/// A task ready to be stored.
#[derive(Clone, Debug)]
pub struct CreateTaskEntity {
    pub mission_id: i32,
    pub title: String,
    pub description: Option<String>,
    pub member_id: Option<i32>,
    pub created_by: i32,
    pub status: TaskStatus,
    pub priority: String,
    pub start_date: Option<Timestamp>,
    pub end_date: Option<Timestamp>,
}

/// A change to a stored task; absent fields stay as they are.
#[derive(Clone, Debug)]
pub struct UpdateTaskEntity {
    pub title: Option<String>,
    pub description: Option<String>,
    pub member_id: Option<i32>,
    pub status: Option<TaskStatus>,
    pub priority: Option<String>,
    pub updated_at: Option<Timestamp>,
    pub has_submission: Option<bool>,
}

/// The task stored for `e` under the identity `id`.
pub open spec fn created_row(id: i32, e: CreateTaskEntity) -> TaskRow {
    TaskRow {
        id,
        mission_id: e.mission_id,
        member_id: e.member_id,
        title: e.title@,
        description: opt_text(e.description),
        start_date: e.start_date,
        end_date: e.end_date,
        priority: e.priority@,
        status: e.status,
        created_by: e.created_by,
        has_submission: false,
    }
}

/// `t` after the change `e`: each field that `e` sets is replaced.
pub open spec fn updated_row(t: TaskRow, e: UpdateTaskEntity) -> TaskRow {
    TaskRow {
        title: match e.title {
            Some(x) => x@,
            None => t.title,
        },
        description: match e.description {
            Some(x) => Some(x@),
            None => t.description,
        },
        member_id: match e.member_id {
            Some(x) => Some(x),
            None => t.member_id,
        },
        status: match e.status {
            Some(x) => x,
            None => t.status,
        },
        priority: match e.priority {
            Some(x) => x@,
            None => t.priority,
        },
        has_submission: match e.has_submission {
            Some(x) => x,
            None => t.has_submission,
        },
        ..t
    }
}

} // verus!
