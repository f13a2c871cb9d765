//! Coordination core for collaborative missions: crew membership, tasks and
//! submitted work, with the authorization and status rules that govern them.
mod clock;
pub mod crew;
pub mod dashboard;
pub mod encoding;
pub mod error;
pub mod laws;
pub mod membership;
pub mod mission;
pub mod models;
pub mod policy;
pub mod repos;
pub mod status;
pub mod submission;
pub mod submission_workflow;
pub mod task;
pub mod task_lifecycle;
pub mod workspace;

pub use clock::Timestamp;
pub use crew::{decide_join, decide_kick, decide_leave, CrewOperationUseCase};
pub use dashboard::{build_chart, DateCount, MAX_CHART_COUNT, MAX_CHART_YEAR, MIN_CHART_YEAR};
pub use error::WorkspaceError;
pub use membership::CrewMemberShips;
pub use mission::{
    AddMissionEntity, AddMissionModel, EditMissionEntity, EditMissionModel, MissionDetail,
    MissionEntity, MissionModel,
};
pub use models::{
    ActivityPoint, BrawlerModel, CrewListResponse, DashboardSummary, RegisterBrawlerEntity,
    RegisterBrawlerModel, SubmitQuery, UpdateBrawlerModel, UpdateDetailsRequest,
    UpdateRoleRequest, UpdateSettingsRequest,
};
pub use policy::{actor_role, is_allowed, Action, ActorRole};
pub use repos::{BrawlerPostgres, DashboardPostgres, DashboardUseCase, MissionViewingPostgres};
pub use status::{MissionStatuses, TaskStatus};
pub use submission::{MissionSubmission, NewMissionSubmission};
pub use submission_workflow::MissionSubmissionUseCase;
pub use task::{CreateTaskEntity, CreateTaskModel, TaskModel, UpdateTaskEntity, UpdateTaskModel};
pub use task_lifecycle::TaskUseCase;
pub use workspace::{SubmissionFilter, Workspace};
