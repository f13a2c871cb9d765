use mission_workspace::{
    actor_role, is_allowed, Action, ActorRole, AddMissionModel, CreateTaskModel,
    CrewOperationUseCase, MissionStatuses, MissionSubmissionUseCase, RegisterBrawlerModel,
    TaskStatus, TaskUseCase, UpdateTaskModel, Workspace, WorkspaceError,
};

const CHIEF: i32 = 1;
const MEMBER: i32 = 2;
const OTHER: i32 = 3;
const OUTSIDER: i32 = 9;

fn setup() -> (Workspace, i32) {
    let mut ws = Workspace::new();
    let model = AddMissionModel {
        name: "Raid".to_string(),
        description: None,
        max_members: Some(4),
        status: None,
    };
    let m = ws.add_mission(&model.to_entity(CHIEF)).unwrap();
    let crew = CrewOperationUseCase::new();
    assert_eq!(crew.join(&mut ws, m, MEMBER), Ok(()));
    assert_eq!(crew.join(&mut ws, m, OTHER), Ok(()));
    (ws, m)
}

fn task_request(title: &str) -> CreateTaskModel {
    CreateTaskModel {
        title: title.to_string(),
        description: None,
        member_id: Some(MEMBER),
        priority: None,
        start_date: None,
        end_date: None,
    }
}

fn submit(ws: &mut Workspace, m: i32, who: i32, task: Option<i32>) -> Result<i32, WorkspaceError> {
    let s = MissionSubmissionUseCase::new();
    s.submit_work(
        ws,
        m,
        who,
        task,
        "https://files.example/report.pdf".to_string(),
        "report.pdf".to_string(),
        "application/pdf".to_string(),
    )
    .map(|r| r.id)
}

#[test]
fn task_review_cycle_scenario() {
    let (mut ws, m) = setup();
    let tasks = TaskUseCase::new();
    let subs = MissionSubmissionUseCase::new();
    let t = tasks.create(&mut ws, m, CHIEF, task_request("Scout")).unwrap();
    assert_eq!(t.status, TaskStatus::Pending);
    assert!(!t.has_submission);
    let sid = submit(&mut ws, m, MEMBER, Some(t.id)).unwrap();
    let after = ws.get_task(t.id).unwrap();
    assert_eq!(after.status, TaskStatus::Review);
    assert!(after.has_submission);
    assert_eq!(subs.delete_submission(&mut ws, sid, CHIEF), Ok(()));
    let back = ws.get_task(t.id).unwrap();
    assert_eq!(back.status, TaskStatus::InProgress);
    assert!(!back.has_submission);
    assert!(ws.get_submission(sid).is_none());
}

#[test]
fn author_deletes_own_submission_reopening_task() {
    let (mut ws, m) = setup();
    let tasks = TaskUseCase::new();
    let subs = MissionSubmissionUseCase::new();
    let t = tasks.create(&mut ws, m, CHIEF, task_request("Map")).unwrap();
    let sid = submit(&mut ws, m, MEMBER, Some(t.id)).unwrap();
    assert_eq!(subs.delete_submission(&mut ws, sid, OTHER), Err(WorkspaceError::Forbidden));
    assert_eq!(ws.get_task(t.id).unwrap().status, TaskStatus::Review);
    assert_eq!(subs.delete_submission(&mut ws, sid, MEMBER), Ok(()));
    assert_eq!(ws.get_task(t.id).unwrap().status, TaskStatus::InProgress);
    assert_eq!(subs.delete_submission(&mut ws, sid, MEMBER), Err(WorkspaceError::NotFound));
}

#[test]
fn non_member_cannot_read_submissions() {
    let (mut ws, m) = setup();
    let subs = MissionSubmissionUseCase::new();
    submit(&mut ws, m, MEMBER, None).unwrap();
    assert_eq!(subs.get_submissions(&ws, m, OUTSIDER).map(|v| v.len()), Err(WorkspaceError::Forbidden));
    assert_eq!(subs.get_submissions(&ws, m, CHIEF).map(|v| v.len()), Ok(1));
    assert_eq!(subs.get_submissions(&ws, m, OTHER).map(|v| v.len()), Ok(1));
}

#[test]
fn only_crew_submits() {
    let (mut ws, m) = setup();
    assert_eq!(submit(&mut ws, m, CHIEF, None), Err(WorkspaceError::Forbidden));
    assert_eq!(submit(&mut ws, m, OUTSIDER, None), Err(WorkspaceError::Forbidden));
    assert_eq!(submit(&mut ws, 42, MEMBER, None), Err(WorkspaceError::NotFound));
    assert_eq!(submit(&mut ws, m, MEMBER, None), Ok(1));
    assert_eq!(submit(&mut ws, m, OTHER, None), Ok(2));
}

#[test]
fn submission_task_must_belong_to_mission() {
    let (mut ws, m) = setup();
    let other = ws
        .add_mission(
            &AddMissionModel {
                name: "Elsewhere".to_string(),
                description: None,
                max_members: None,
                status: None,
            }
            .to_entity(OUTSIDER),
        )
        .unwrap();
    let tasks = TaskUseCase::new();
    let foreign = tasks.create(&mut ws, other, OUTSIDER, task_request("Far")).unwrap();
    assert_eq!(submit(&mut ws, m, MEMBER, Some(foreign.id)), Err(WorkspaceError::NotFound));
    assert_eq!(submit(&mut ws, m, MEMBER, Some(77)), Err(WorkspaceError::NotFound));
    assert_eq!(ws.get_task(foreign.id).unwrap().status, TaskStatus::Pending);
}

#[test]
fn submitted_fields_are_kept() {
    let (mut ws, m) = setup();
    let s = MissionSubmissionUseCase::new();
    let r = s
        .submit_work(&mut ws, m, MEMBER, None, "u".to_string(), "n.txt".to_string(), "text/plain".to_string())
        .unwrap();
    assert_eq!(r.mission_id, m);
    assert_eq!(r.brawler_id, MEMBER);
    assert_eq!(r.file_url, "u");
    assert_eq!(r.file_name, "n.txt");
    assert_eq!(r.file_type, "text/plain");
    assert_eq!(r.task_id, None);
    assert_eq!(r.description, None);
}

#[test]
fn upload_payload_is_base64_for_crew_only() {
    let (ws, m) = setup();
    let s = MissionSubmissionUseCase::new();
    let file = b"hi".to_vec();
    assert_eq!(s.upload_payload(&ws, m, MEMBER, &file), Ok("aGk=".to_string()));
    assert_eq!(s.upload_payload(&ws, m, MEMBER, &b"Man".to_vec()), Ok("TWFu".to_string()));
    assert_eq!(s.upload_payload(&ws, m, MEMBER, &Vec::new()), Ok(String::new()));
    assert_eq!(s.upload_payload(&ws, m, CHIEF, &file), Err(WorkspaceError::Forbidden));
    assert_eq!(s.upload_payload(&ws, m, OUTSIDER, &file), Err(WorkspaceError::Forbidden));
}

#[test]
fn latest_submission_for_task() {
    let (mut ws, m) = setup();
    let tasks = TaskUseCase::new();
    let subs = MissionSubmissionUseCase::new();
    let t = tasks.create(&mut ws, m, CHIEF, task_request("Scout")).unwrap();
    assert!(subs.get_task_submission(&ws, t.id, MEMBER).is_none());
    let first = submit(&mut ws, m, MEMBER, Some(t.id)).unwrap();
    let second = submit(&mut ws, m, OTHER, Some(t.id)).unwrap();
    assert!(second > first);
    assert_eq!(subs.get_task_submission(&ws, t.id, MEMBER).unwrap().id, second);
}

#[test]
fn update_description_by_chief_or_author() {
    let (mut ws, m) = setup();
    let subs = MissionSubmissionUseCase::new();
    let sid = submit(&mut ws, m, MEMBER, None).unwrap();
    assert_eq!(subs.update_description(&mut ws, sid, OTHER, "x".to_string()), Err(WorkspaceError::Forbidden));
    assert_eq!(subs.update_description(&mut ws, sid, MEMBER, "first".to_string()), Ok(()));
    assert_eq!(ws.get_submission(sid).unwrap().description, Some("first".to_string()));
    assert_eq!(subs.update_description(&mut ws, sid, CHIEF, "checked".to_string()), Ok(()));
    assert_eq!(ws.get_submission(sid).unwrap().description, Some("checked".to_string()));
    assert_eq!(subs.update_description(&mut ws, 99, CHIEF, "y".to_string()), Err(WorkspaceError::NotFound));
}

#[test]
fn kick_removes_member_submissions() {
    let (mut ws, m) = setup();
    let crew = CrewOperationUseCase::new();
    let subs = MissionSubmissionUseCase::new();
    submit(&mut ws, m, MEMBER, None).unwrap();
    submit(&mut ws, m, MEMBER, None).unwrap();
    submit(&mut ws, m, OTHER, None).unwrap();
    assert_eq!(crew.kick(&mut ws, m, MEMBER, CHIEF), Ok(()));
    let left = subs.get_submissions(&ws, m, CHIEF).unwrap();
    assert_eq!(left.len(), 1);
    assert_eq!(left[0].brawler_id, OTHER);
}

#[test]
fn task_creation_defaults_and_rights() {
    let (mut ws, m) = setup();
    let tasks = TaskUseCase::new();
    assert_eq!(tasks.create(&mut ws, m, MEMBER, task_request("No")).map(|t| t.id), Err(WorkspaceError::Forbidden));
    assert_eq!(tasks.create(&mut ws, 50, CHIEF, task_request("No")).map(|t| t.id), Err(WorkspaceError::NotFound));
    let t = tasks.create(&mut ws, m, CHIEF, task_request("Scout")).unwrap();
    assert_eq!(t.priority, "Medium");
    assert_eq!(t.mission_id, m);
    assert_eq!(t.created_by, CHIEF);
    assert_eq!(t.member_id, Some(MEMBER));
    let mut urgent = task_request("Hold");
    urgent.priority = Some("High".to_string());
    let u = tasks.create(&mut ws, m, CHIEF, urgent).unwrap();
    assert_eq!(u.priority, "High");
    assert!(u.id > t.id);
}

#[test]
fn task_update_changes_given_fields_only() {
    let (mut ws, m) = setup();
    let tasks = TaskUseCase::new();
    let t = tasks.create(&mut ws, m, CHIEF, task_request("Scout")).unwrap();
    let change = UpdateTaskModel {
        title: None,
        description: Some("north side".to_string()),
        member_id: None,
        status: Some(TaskStatus::Completed),
        priority: None,
    };
    assert_eq!(
        tasks
            .update(&mut ws, t.id, MEMBER, UpdateTaskModel { title: None, description: None, member_id: None, status: None, priority: None })
            .map(|x| x.id),
        Err(WorkspaceError::Forbidden)
    );
    let u = tasks.update(&mut ws, t.id, CHIEF, change).unwrap();
    assert_eq!(u.title, "Scout");
    assert_eq!(u.description, Some("north side".to_string()));
    assert_eq!(u.status, TaskStatus::Completed);
    assert_eq!(u.priority, "Medium");
    assert_eq!(u.member_id, Some(MEMBER));
    assert_eq!(
        tasks
            .update(&mut ws, 99, CHIEF, UpdateTaskModel { title: None, description: None, member_id: None, status: None, priority: None })
            .map(|x| x.id),
        Err(WorkspaceError::NotFound)
    );
}

#[test]
fn task_delete_removes_its_submissions_first() {
    let (mut ws, m) = setup();
    let tasks = TaskUseCase::new();
    let subs = MissionSubmissionUseCase::new();
    let t = tasks.create(&mut ws, m, CHIEF, task_request("Scout")).unwrap();
    let keep = submit(&mut ws, m, OTHER, None).unwrap();
    let gone = submit(&mut ws, m, MEMBER, Some(t.id)).unwrap();
    assert_eq!(tasks.delete(&mut ws, t.id, MEMBER), Err(WorkspaceError::Forbidden));
    assert_eq!(tasks.delete(&mut ws, t.id, CHIEF), Ok(()));
    assert!(ws.get_task(t.id).is_none());
    assert!(ws.get_submission(gone).is_none());
    assert!(ws.get_submission(keep).is_some());
    assert_eq!(subs.get_submissions(&ws, m, CHIEF).unwrap().len(), 1);
    assert_eq!(tasks.delete(&mut ws, t.id, CHIEF), Err(WorkspaceError::NotFound));
}

#[test]
fn tasks_readable_by_chief_and_crew() {
    let (mut ws, m) = setup();
    let tasks = TaskUseCase::new();
    tasks.create(&mut ws, m, CHIEF, task_request("A")).unwrap();
    tasks.create(&mut ws, m, CHIEF, task_request("B")).unwrap();
    let seen = tasks.get_by_mission(&ws, m, MEMBER).unwrap();
    assert_eq!(seen.len(), 2);
    assert_eq!(seen[0].title, "A");
    assert_eq!(seen[1].title, "B");
    assert_eq!(tasks.get_by_mission(&ws, m, CHIEF).map(|v| v.len()), Ok(2));
    assert_eq!(tasks.get_by_mission(&ws, m, OUTSIDER).map(|v| v.len()), Err(WorkspaceError::Forbidden));
}

#[test]
fn status_names() {
    assert_eq!(MissionStatuses::parse(&"Open".to_string()), Some(MissionStatuses::Open));
    assert_eq!(MissionStatuses::parse(&"InProgress".to_string()), Some(MissionStatuses::InProgress));
    assert_eq!(MissionStatuses::parse(&"Completed".to_string()), Some(MissionStatuses::Completed));
    assert_eq!(MissionStatuses::parse(&"Failed".to_string()), Some(MissionStatuses::Failed));
    assert_eq!(MissionStatuses::parse(&"open".to_string()), None);
    assert_eq!(TaskStatus::parse(&"In Progress".to_string()), Some(TaskStatus::InProgress));
    assert_eq!(TaskStatus::parse(&"Review".to_string()), Some(TaskStatus::Review));
    assert_eq!(TaskStatus::parse(&"Pending".to_string()), Some(TaskStatus::Pending));
    assert_eq!(TaskStatus::parse(&"Done".to_string()), None);
    assert!(MissionStatuses::Open.is_joinable());
    assert!(MissionStatuses::Failed.is_joinable());
    assert!(!MissionStatuses::InProgress.is_joinable());
    assert!(MissionStatuses::InProgress.is_leavable());
    assert!(!MissionStatuses::Completed.is_leavable());
}

#[test]
fn authorization_table() {
    assert_eq!(actor_role(1, false, 1), ActorRole::Chief);
    assert_eq!(actor_role(1, true, 2), ActorRole::Member);
    assert_eq!(actor_role(1, false, 2), ActorRole::NonMember);
    assert!(is_allowed(ActorRole::Chief, Action::ManageCrew));
    assert!(!is_allowed(ActorRole::Chief, Action::Join));
    assert!(!is_allowed(ActorRole::Chief, Action::SubmitWork));
    assert!(is_allowed(ActorRole::Chief, Action::EditOthersSubmission));
    assert!(is_allowed(ActorRole::Member, Action::SubmitWork));
    assert!(!is_allowed(ActorRole::Member, Action::ManageCrew));
    assert!(!is_allowed(ActorRole::Member, Action::EditOthersSubmission));
    assert!(is_allowed(ActorRole::NonMember, Action::Join));
    assert!(!is_allowed(ActorRole::NonMember, Action::ViewWorkspace));
    assert!(!is_allowed(ActorRole::NonMember, Action::Leave));
}

#[test]
fn register_model_to_entity() {
    let m = RegisterBrawlerModel {
        username: "kai".to_string(),
        password: "hashed".to_string(),
        display_name: "Kai".to_string(),
    };
    let e = m.to_entity();
    assert_eq!(e.username, "kai");
    assert_eq!(e.password, "hashed");
    assert_eq!(e.display_name, "Kai");
}
