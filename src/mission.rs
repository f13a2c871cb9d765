use vstd::prelude::*;

use crate::clock::Timestamp;
use crate::status::MissionStatuses;

verus! {

/// The characters of an optional text.
pub open spec fn opt_text(o: Option<String>) -> Option<Seq<char>> {
    match o {
        Some(s) => Some(s@),
        None => None,
    }
}

pub fn clone_text(o: &Option<String>) -> (r: Option<String>)
    ensures
        r == *o,
{
    match o {
        Some(s) => Some(s.clone()),
        None => None,
    }
}

/// A stored mission.
#[derive(Clone, Debug)]
pub struct MissionEntity {
    pub id: i32,
    pub chief_id: i32,
    pub name: String,
    pub status: MissionStatuses,
    pub description: Option<String>,
    pub created_at: Timestamp,
    pub updated_at: Timestamp,
    pub deleted_at: Option<Timestamp>,
    pub max_members: i32,
}

/// What the coordination rules read of a stored mission.
pub struct MissionRow {
    pub id: i32,
    pub chief_id: i32,
    pub name: Seq<char>,
    pub status: MissionStatuses,
    pub description: Option<Seq<char>>,
    pub max_members: i32,
    pub deleted: bool,
}

impl View for MissionEntity {
    type V = MissionRow;

    open spec fn view(&self) -> MissionRow {
        MissionRow {
            id: self.id,
            chief_id: self.chief_id,
            name: self.name@,
            status: self.status,
            description: opt_text(self.description),
            max_members: self.max_members,
            deleted: self.deleted_at.is_some(),
        }
    }
}

/// A mission as it is shown to one actor.
#[derive(Clone, Debug)]
pub struct MissionModel {
    pub id: i32,
    pub name: String,
    pub description: Option<String>,
    pub status: MissionStatuses,
    pub chief_id: i32,
    pub chief_display_name: String,
    pub member_count: i64,
    pub max_members: i32,
    pub created_at: Timestamp,
    pub updated_at: Timestamp,
    pub is_joined: bool,
}

/// What a listing shows of a mission.
pub struct MissionCard {
    pub id: i32,
    pub name: Seq<char>,
    pub description: Option<Seq<char>>,
    pub status: MissionStatuses,
    pub chief_id: i32,
    pub chief_display_name: Seq<char>,
    pub member_count: i64,
    pub max_members: i32,
    pub is_joined: bool,
}

impl View for MissionModel {
    type V = MissionCard;

    open spec fn view(&self) -> MissionCard {
        MissionCard {
            id: self.id,
            name: self.name@,
            description: opt_text(self.description),
            status: self.status,
            chief_id: self.chief_id,
            chief_display_name: self.chief_display_name@,
            member_count: self.member_count,
            max_members: self.max_members,
            is_joined: self.is_joined,
        }
    }
}

impl MissionEntity {
    /// The mission as shown to someone outside its crew.
    pub fn to_model(&self, chief_display_name: String, member_count: i64) -> (r: MissionModel)
        ensures
            r.id == self.id,
            r.name == self.name,
            r.description == self.description,
            r.status == self.status,
            r.chief_id == self.chief_id,
            r.chief_display_name == chief_display_name,
            r.member_count == member_count,
            r.max_members == self.max_members,
            r.created_at == self.created_at,
            r.updated_at == self.updated_at,
            !r.is_joined,
    {
        MissionModel {
            id: self.id,
            name: self.name.clone(),
            description: clone_text(&self.description),
            status: self.status,
            chief_id: self.chief_id,
            chief_display_name,
            member_count,
            max_members: self.max_members,
            created_at: self.created_at,
            updated_at: self.updated_at,
            is_joined: false,
        }
    }
}

/// What the membership and task rules read of a mission, for one actor.
#[derive(Clone, Copy, Debug, PartialEq, Eq, Structural)]
pub struct MissionDetail {
    pub id: i32,
    pub chief_id: i32,
    pub status: MissionStatuses,
    pub max_members: i32,
    /// How many crew members the mission has now.
    pub member_count: usize,
    /// Whether the actor is in the crew.
    pub is_joined: bool,
}

/// The crew size that a new mission gets when none is asked for.
pub const DEFAULT_MAX_MEMBERS: i32 = 10;

/// A request to create a mission.
#[derive(Clone, Debug)]
pub struct AddMissionModel {
    pub name: String,
    pub description: Option<String>,
    pub max_members: Option<i32>,
    pub status: Option<String>,
}

/// A mission ready to be stored.
#[derive(Clone, Debug)]
pub struct AddMissionEntity {
    pub chief_id: i32,
    pub name: String,
    pub status: String,
    pub description: Option<String>,
    pub max_members: i32,
}

impl AddMissionModel {
    /// The mission that `chief_id` asks for: open, with a crew of ten, unless
    /// the request says otherwise.
    pub fn to_entity(&self, chief_id: i32) -> (r: AddMissionEntity)
        ensures
            r.chief_id == chief_id,
            r.name == self.name,
            r.description == self.description,
            r.status@ == (match self.status {
                Some(s) => s@,
                None => "Open"@,
            }),
            r.max_members == (match self.max_members {
                Some(m) => m,
                None => DEFAULT_MAX_MEMBERS,
            }),
    {
        let status = match &self.status {
            Some(s) => s.clone(),
            None => "Open".to_string(),
        };
        let max_members = match self.max_members {
            Some(m) => m,
            None => DEFAULT_MAX_MEMBERS,
        };
        AddMissionEntity {
            chief_id,
            name: self.name.clone(),
            status,
            description: clone_text(&self.description),
            max_members,
        }
    }
}

/// A request to change a mission; absent fields stay as they are.
#[derive(Clone, Debug)]
pub struct EditMissionModel {
    pub name: Option<String>,
    pub description: Option<String>,
    pub max_members: Option<i32>,
    pub status: Option<String>,
}

/// A change to a stored mission; absent fields stay as they are.
#[derive(Clone, Debug)]
pub struct EditMissionEntity {
    pub chief_id: i32,
    pub name: Option<String>,
    pub description: Option<String>,
    pub max_members: Option<i32>,
    pub status: Option<String>,
}

impl EditMissionModel {
    pub fn to_entity(&self, chief_id: i32) -> (r: EditMissionEntity)
        ensures
            r.chief_id == chief_id,
            r.name == self.name,
            r.description == self.description,
            r.max_members == self.max_members,
            r.status == self.status,
    {
        EditMissionEntity {
            name: clone_text(&self.name),
            description: clone_text(&self.description),
            max_members: self.max_members,
            chief_id,
            status: clone_text(&self.status),
        }
    }
}

} // verus!
