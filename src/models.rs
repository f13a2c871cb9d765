use vstd::prelude::*;

verus! {

/// A sign-up request.
#[derive(Clone, Debug)]
pub struct RegisterBrawlerModel {
    pub username: String,
    pub password: String,
    pub display_name: String,
}

/// A member account ready to be stored.
#[derive(Clone, Debug)]
pub struct RegisterBrawlerEntity {
    pub username: String,
    pub password: String,
    pub display_name: String,
}

impl RegisterBrawlerModel {
    pub fn to_entity(&self) -> (r: RegisterBrawlerEntity)
        ensures
            r.username == self.username,
            r.password == self.password,
            r.display_name == self.display_name,
    {
        RegisterBrawlerEntity {
            username: self.username.clone(),
            password: self.password.clone(),
            display_name: self.display_name.clone(),
        }
    }
}

/// A member as listed in a crew.
#[derive(Clone, Debug)]
pub struct BrawlerModel {
    pub id: i32,
    pub display_name: String,
    pub avatar_url: String,
    pub mission_success_count: i64,
    pub mission_join_count: i64,
    pub bio: Option<String>,
    pub role: String,
}

/// A change to a member's profile; absent fields stay as they are.
#[derive(Clone, Debug)]
pub struct UpdateBrawlerModel {
    pub display_name: Option<String>,
    pub bio: Option<String>,
}

/// Activity of one day.
#[derive(Clone, Debug)]
pub struct ActivityPoint {
    pub date: String,
    pub created: i64,
    pub joined: i64,
    pub completed: i64,
    pub active: i64,
}

/// A member's mission figures.
#[derive(Clone, Debug)]
pub struct DashboardSummary {
    pub created_missions_count: i64,
    pub joined_missions_count: i64,
    pub active_missions_count: i64,
    pub completed_missions_count: i64,
    pub chart_data: Vec<ActivityPoint>,
}

/// The task that an upload is submitted for, if any.
#[derive(Clone, Copy, Debug)]
pub struct SubmitQuery {
    pub task_id: Option<i32>,
}

/// A new description for a submission.
#[derive(Clone, Debug)]
pub struct UpdateDetailsRequest {
    pub description: String,
}

/// A mission's crew with its size and capacity.
#[derive(Clone, Debug)]
pub struct CrewListResponse {
    pub members: Vec<BrawlerModel>,
    pub count: usize,
    pub max_count: i32,
}

/// A new role for a crew member.
#[derive(Clone, Debug)]
pub struct UpdateRoleRequest {
    pub role: String,
}

/// A new capacity for a mission's crew.
#[derive(Clone, Copy, Debug)]
pub struct UpdateSettingsRequest {
    pub max_members: i32,
}

} // verus!
