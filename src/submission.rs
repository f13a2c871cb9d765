use vstd::prelude::*;

use crate::clock::Timestamp;
use crate::mission::{clone_text, opt_text};

verus! {

/// A stored work artifact.
#[derive(Clone, Debug)]
pub struct MissionSubmission {
    pub id: i32,
    pub mission_id: i32,
    pub brawler_id: i32,
    pub file_url: String,
    pub file_name: String,
    pub file_type: String,
    pub submitted_at: Timestamp,
    pub task_id: Option<i32>,
    pub description: Option<String>,
}

/// What the coordination rules read of a submission.
pub struct SubmissionRow {
    pub id: i32,
    pub mission_id: i32,
    pub brawler_id: i32,
    pub file_url: Seq<char>,
    pub file_name: Seq<char>,
    pub file_type: Seq<char>,
    pub task_id: Option<i32>,
    pub description: Option<Seq<char>>,
}

impl View for MissionSubmission {
    type V = SubmissionRow;

    open spec fn view(&self) -> SubmissionRow {
        SubmissionRow {
            id: self.id,
            mission_id: self.mission_id,
            brawler_id: self.brawler_id,
            file_url: self.file_url@,
            file_name: self.file_name@,
            file_type: self.file_type@,
            task_id: self.task_id,
            description: opt_text(self.description),
        }
    }
}

impl MissionSubmission {
    /// A copy of the submission.
    pub fn duplicate(&self) -> (r: MissionSubmission)
        ensures
            r == *self,
    {
        MissionSubmission {
            id: self.id,
            mission_id: self.mission_id,
            brawler_id: self.brawler_id,
            file_url: self.file_url.clone(),
            file_name: self.file_name.clone(),
            file_type: self.file_type.clone(),
            submitted_at: self.submitted_at,
            task_id: self.task_id,
            description: clone_text(&self.description),
        }
    }
}

/// A submission ready to be stored.
#[derive(Clone, Debug)]
pub struct NewMissionSubmission {
    pub mission_id: i32,
    pub brawler_id: i32,
    pub file_url: String,
    pub file_name: String,
    pub file_type: String,
    pub task_id: Option<i32>,
    pub description: Option<String>,
}

/// The submission stored for `n` under the identity `id`.
pub open spec fn submitted_row(id: i32, n: NewMissionSubmission) -> SubmissionRow {
    SubmissionRow {
        id,
        mission_id: n.mission_id,
        brawler_id: n.brawler_id,
        file_url: n.file_url@,
        file_name: n.file_name@,
        file_type: n.file_type@,
        task_id: n.task_id,
        description: opt_text(n.description),
    }
}

} // verus!
