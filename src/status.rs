use vstd::prelude::*;

verus! {

/// The states of a mission's lifecycle.
#[derive(Clone, Copy, Debug, PartialEq, Eq, Structural)]
pub enum MissionStatuses {
    Open,
    InProgress,
    Completed,
    Failed,
}

/// The states of a task's lifecycle.
#[derive(Clone, Copy, Debug, PartialEq, Eq, Structural)]
pub enum TaskStatus {
    Pending,
    InProgress,
    Review,
    Completed,
}

/// A crew can be joined while the mission is open, or after it failed.
pub open spec fn joinable(s: MissionStatuses) -> bool {
    s == MissionStatuses::Open || s == MissionStatuses::Failed
}

/// A crew can be left at any time but after the mission completed.
pub open spec fn leavable(s: MissionStatuses) -> bool {
    s == MissionStatuses::Open || s == MissionStatuses::InProgress || s == MissionStatuses::Failed
}

/// The mission status that a stored name stands for.
pub open spec fn mission_status_named(s: Seq<char>) -> Option<MissionStatuses> {
    if s == "Open"@ {
        Some(MissionStatuses::Open)
    } else if s == "InProgress"@ {
        Some(MissionStatuses::InProgress)
    } else if s == "Completed"@ {
        Some(MissionStatuses::Completed)
    } else if s == "Failed"@ {
        Some(MissionStatuses::Failed)
    } else {
        None
    }
}

/// The task status that a stored name stands for.
pub open spec fn task_status_named(s: Seq<char>) -> Option<TaskStatus> {
    if s == "Pending"@ {
        Some(TaskStatus::Pending)
    } else if s == "In Progress"@ {
        Some(TaskStatus::InProgress)
    } else if s == "Review"@ {
        Some(TaskStatus::Review)
    } else if s == "Completed"@ {
        Some(TaskStatus::Completed)
    } else {
        None
    }
}

fn same_text(s: &String, lit: &str) -> (r: bool)
    ensures
        r == (s@ == lit@),
{
    let t = lit.to_string();
    *s == t
}

impl MissionStatuses {
    pub fn is_joinable(&self) -> (r: bool)
        ensures
            r == joinable(*self),
    {
        match self {
            MissionStatuses::Open | MissionStatuses::Failed => true,
            _ => false,
        }
    }

    pub fn is_leavable(&self) -> (r: bool)
        ensures
            r == leavable(*self),
    {
        match self {
            MissionStatuses::Completed => false,
            _ => true,
        }
    }

    /// Reads a status from its stored name.
    pub fn parse(s: &String) -> (r: Option<MissionStatuses>)
        ensures
            r == mission_status_named(s@),
    {
        if same_text(s, "Open") {
            Some(MissionStatuses::Open)
        } else if same_text(s, "InProgress") {
            Some(MissionStatuses::InProgress)
        } else if same_text(s, "Completed") {
            Some(MissionStatuses::Completed)
        } else if same_text(s, "Failed") {
            Some(MissionStatuses::Failed)
        } else {
            None
        }
    }
}

impl TaskStatus {
    /// Reads a status from its stored name.
    pub fn parse(s: &String) -> (r: Option<TaskStatus>)
        ensures
            r == task_status_named(s@),
    {
        if same_text(s, "Pending") {
            Some(TaskStatus::Pending)
        } else if same_text(s, "In Progress") {
            Some(TaskStatus::InProgress)
        } else if same_text(s, "Review") {
            Some(TaskStatus::Review)
        } else if same_text(s, "Completed") {
            Some(TaskStatus::Completed)
        } else {
            None
        }
    }
}

} // verus!
