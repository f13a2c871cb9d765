use mission_workspace::{
    decide_join, decide_kick, decide_leave, AddMissionModel, CrewOperationUseCase,
    EditMissionModel, MissionDetail, MissionStatuses, Workspace, WorkspaceError,
};

const CHIEF: i32 = 1;

fn open_mission(ws: &mut Workspace, max: i32, status: &str) -> i32 {
    let model = AddMissionModel {
        name: "Raid".to_string(),
        description: Some("Take the tower".to_string()),
        max_members: Some(max),
        status: Some(status.to_string()),
    };
    ws.add_mission(&model.to_entity(CHIEF)).unwrap()
}

#[test]
fn capacity_scenario_leave_then_join() {
    let mut ws = Workspace::new();
    let crew = CrewOperationUseCase::new();
    let m = open_mission(&mut ws, 2, "Open");
    assert_eq!(crew.join(&mut ws, m, 2), Ok(()));
    assert_eq!(crew.join(&mut ws, m, 3), Ok(()));
    assert_eq!(crew.join(&mut ws, m, 4), Err(WorkspaceError::Capacity));
    assert_eq!(crew.leave(&mut ws, m, 2), Ok(()));
    assert_eq!(crew.join(&mut ws, m, 4), Ok(()));
    assert_eq!(ws.member_counting(m), 2);
    assert!(ws.is_joined(m, 4));
    assert!(!ws.is_joined(m, 2));
}

#[test]
fn full_crew_refuses_every_newcomer() {
    let mut ws = Workspace::new();
    let crew = CrewOperationUseCase::new();
    let m = open_mission(&mut ws, 1, "Failed");
    assert_eq!(crew.join(&mut ws, m, 2), Ok(()));
    for actor in 3..8 {
        assert_eq!(crew.join(&mut ws, m, actor), Err(WorkspaceError::Capacity));
    }
    assert_eq!(ws.member_counting(m), 1);
}

#[test]
fn join_twice_keeps_one_membership() {
    let mut ws = Workspace::new();
    let crew = CrewOperationUseCase::new();
    let m = open_mission(&mut ws, 5, "Open");
    assert_eq!(crew.join(&mut ws, m, 2), Ok(()));
    assert_eq!(crew.join(&mut ws, m, 2), Ok(()));
    assert_eq!(ws.member_counting(m), 1);
    let rows = ws.crew_of(m);
    assert_eq!(rows.len(), 1);
    assert_eq!(rows[0].role, "Member");
}

#[test]
fn join_when_full_but_already_joined_succeeds() {
    let mut ws = Workspace::new();
    let crew = CrewOperationUseCase::new();
    let m = open_mission(&mut ws, 1, "Open");
    assert_eq!(crew.join(&mut ws, m, 2), Ok(()));
    assert_eq!(crew.join(&mut ws, m, 2), Ok(()));
    assert_eq!(ws.member_counting(m), 1);
}

#[test]
fn chief_cannot_join_own_mission() {
    let mut ws = Workspace::new();
    let crew = CrewOperationUseCase::new();
    let m = open_mission(&mut ws, 5, "Open");
    assert_eq!(crew.join(&mut ws, m, CHIEF), Err(WorkspaceError::Forbidden));
    assert_eq!(ws.member_counting(m), 0);
    assert!(!ws.is_joined(m, CHIEF));
}

#[test]
fn join_needs_joinable_status() {
    let mut ws = Workspace::new();
    let crew = CrewOperationUseCase::new();
    let busy = open_mission(&mut ws, 5, "InProgress");
    let done = open_mission(&mut ws, 5, "Completed");
    let failed = open_mission(&mut ws, 5, "Failed");
    assert_eq!(crew.join(&mut ws, busy, 2), Err(WorkspaceError::InvalidState));
    assert_eq!(crew.join(&mut ws, done, 2), Err(WorkspaceError::InvalidState));
    assert_eq!(crew.join(&mut ws, failed, 2), Ok(()));
}

#[test]
fn join_unknown_mission_not_found() {
    let mut ws = Workspace::new();
    let crew = CrewOperationUseCase::new();
    assert_eq!(crew.join(&mut ws, 7, 2), Err(WorkspaceError::NotFound));
}

#[test]
fn leave_completed_mission_invalid_state() {
    let mut ws = Workspace::new();
    let crew = CrewOperationUseCase::new();
    let m = open_mission(&mut ws, 5, "Open");
    assert_eq!(crew.join(&mut ws, m, 2), Ok(()));
    let edit = EditMissionModel {
        name: None,
        description: None,
        max_members: None,
        status: Some("Completed".to_string()),
    };
    assert_eq!(ws.edit_mission(m, &edit.to_entity(CHIEF)), Ok(()));
    assert_eq!(crew.leave(&mut ws, m, 2), Err(WorkspaceError::InvalidState));
    assert!(ws.is_joined(m, 2));
}

#[test]
fn leave_in_progress_mission_allowed() {
    let mut ws = Workspace::new();
    let crew = CrewOperationUseCase::new();
    let m = open_mission(&mut ws, 5, "Open");
    assert_eq!(crew.join(&mut ws, m, 2), Ok(()));
    let edit = EditMissionModel {
        name: None,
        description: None,
        max_members: None,
        status: Some("InProgress".to_string()),
    };
    assert_eq!(ws.edit_mission(m, &edit.to_entity(CHIEF)), Ok(()));
    assert_eq!(crew.leave(&mut ws, m, 2), Ok(()));
    assert_eq!(ws.member_counting(m), 0);
}

#[test]
fn leave_without_membership_not_member() {
    let mut ws = Workspace::new();
    let crew = CrewOperationUseCase::new();
    let m = open_mission(&mut ws, 5, "Open");
    assert_eq!(crew.leave(&mut ws, m, 2), Err(WorkspaceError::NotMember));
    assert_eq!(crew.leave(&mut ws, m, CHIEF), Err(WorkspaceError::NotMember));
}

#[test]
fn kick_by_non_chief_forbidden() {
    let mut ws = Workspace::new();
    let crew = CrewOperationUseCase::new();
    let m = open_mission(&mut ws, 5, "Open");
    assert_eq!(crew.join(&mut ws, m, 2), Ok(()));
    assert_eq!(crew.join(&mut ws, m, 3), Ok(()));
    assert_eq!(crew.update_role(&mut ws, m, 2, "Captain".to_string(), CHIEF), Ok(()));
    // a member with a raised role, a plain member and an outsider
    assert_eq!(crew.kick(&mut ws, m, 3, 2), Err(WorkspaceError::Forbidden));
    assert_eq!(crew.kick(&mut ws, m, 2, 3), Err(WorkspaceError::Forbidden));
    assert_eq!(crew.kick(&mut ws, m, 2, 9), Err(WorkspaceError::Forbidden));
    assert_eq!(ws.member_counting(m), 2);
}

#[test]
fn chief_cannot_kick_self() {
    let mut ws = Workspace::new();
    let crew = CrewOperationUseCase::new();
    let m = open_mission(&mut ws, 5, "Open");
    assert_eq!(crew.kick(&mut ws, m, CHIEF, CHIEF), Err(WorkspaceError::Forbidden));
}

#[test]
fn chief_kicks_member() {
    let mut ws = Workspace::new();
    let crew = CrewOperationUseCase::new();
    let m = open_mission(&mut ws, 5, "Open");
    assert_eq!(crew.join(&mut ws, m, 2), Ok(()));
    assert_eq!(crew.join(&mut ws, m, 3), Ok(()));
    assert_eq!(crew.kick(&mut ws, m, 2, CHIEF), Ok(()));
    assert!(!ws.is_joined(m, 2));
    assert!(ws.is_joined(m, 3));
    assert_eq!(ws.member_counting(m), 1);
}

#[test]
fn update_role_by_chief_only() {
    let mut ws = Workspace::new();
    let crew = CrewOperationUseCase::new();
    let m = open_mission(&mut ws, 5, "Open");
    assert_eq!(crew.join(&mut ws, m, 2), Ok(()));
    assert_eq!(crew.update_role(&mut ws, m, 2, "Scout".to_string(), 2), Err(WorkspaceError::Forbidden));
    assert_eq!(crew.update_role(&mut ws, m, 2, "Scout".to_string(), CHIEF), Ok(()));
    let rows = ws.crew_of(m);
    assert_eq!(rows.len(), 1);
    assert_eq!(rows[0].role, "Scout");
}

#[test]
fn deleted_mission_is_not_found() {
    let mut ws = Workspace::new();
    let crew = CrewOperationUseCase::new();
    let m = open_mission(&mut ws, 5, "Open");
    assert_eq!(ws.delete_mission(m, 2), Err(WorkspaceError::Forbidden));
    assert_eq!(ws.delete_mission(m, CHIEF), Ok(()));
    assert_eq!(crew.join(&mut ws, m, 2), Err(WorkspaceError::NotFound));
    assert_eq!(ws.view_detail(m, None), Err(WorkspaceError::NotFound));
    assert_eq!(ws.delete_mission(m, CHIEF), Err(WorkspaceError::NotFound));
}

#[test]
fn edit_mission_rules() {
    let mut ws = Workspace::new();
    let m = open_mission(&mut ws, 5, "Open");
    let bad = EditMissionModel {
        name: None,
        description: None,
        max_members: None,
        status: Some("Paused".to_string()),
    };
    assert_eq!(ws.edit_mission(m, &bad.to_entity(CHIEF)), Err(WorkspaceError::InvalidState));
    let grow = EditMissionModel {
        name: Some("Siege".to_string()),
        description: None,
        max_members: Some(8),
        status: None,
    };
    assert_eq!(ws.edit_mission(m, &grow.to_entity(2)), Err(WorkspaceError::Forbidden));
    assert_eq!(ws.edit_mission(m, &grow.to_entity(CHIEF)), Ok(()));
    let d = ws.view_detail(m, None).unwrap();
    assert_eq!(d.max_members, 8);
    assert_eq!(d.status, MissionStatuses::Open);
}

#[test]
fn add_mission_defaults_and_unknown_status() {
    let mut ws = Workspace::new();
    let plain = AddMissionModel {
        name: "Patrol".to_string(),
        description: None,
        max_members: None,
        status: None,
    };
    let e = plain.to_entity(CHIEF);
    assert_eq!(e.status, "Open");
    assert_eq!(e.max_members, 10);
    assert_eq!(e.chief_id, CHIEF);
    let m = ws.add_mission(&e).unwrap();
    assert_eq!(m, 1);
    let d = ws.view_detail(m, Some(2)).unwrap();
    assert_eq!(
        d,
        MissionDetail {
            id: 1,
            chief_id: CHIEF,
            status: MissionStatuses::Open,
            max_members: 10,
            member_count: 0,
            is_joined: false
        }
    );
    let odd = AddMissionModel {
        name: "Patrol".to_string(),
        description: None,
        max_members: None,
        status: Some("Sleeping".to_string()),
    };
    assert_eq!(ws.add_mission(&odd.to_entity(CHIEF)), Err(WorkspaceError::InvalidState));
}

fn detail(is_joined: bool, status: MissionStatuses, count: usize, max: i32) -> MissionDetail {
    MissionDetail { id: 1, chief_id: CHIEF, status, max_members: max, member_count: count, is_joined }
}

#[test]
fn decisions_on_detail() {
    assert_eq!(decide_join(&detail(false, MissionStatuses::Open, 3, 3), 5), Err(WorkspaceError::Capacity));
    assert_eq!(decide_join(&detail(false, MissionStatuses::Open, 2, 3), 5), Ok(true));
    assert_eq!(decide_join(&detail(true, MissionStatuses::Open, 3, 3), 5), Ok(false));
    assert_eq!(decide_join(&detail(false, MissionStatuses::Open, 0, 3), CHIEF), Err(WorkspaceError::Forbidden));
    assert_eq!(decide_join(&detail(false, MissionStatuses::Completed, 0, 3), 5), Err(WorkspaceError::InvalidState));
    assert_eq!(decide_join(&detail(false, MissionStatuses::Open, 0, 0), 5), Err(WorkspaceError::Capacity));
    assert_eq!(decide_leave(&detail(true, MissionStatuses::Completed, 1, 3)), Err(WorkspaceError::InvalidState));
    assert_eq!(decide_leave(&detail(false, MissionStatuses::Open, 1, 3)), Err(WorkspaceError::NotMember));
    assert_eq!(decide_leave(&detail(true, MissionStatuses::Failed, 1, 3)), Ok(()));
    assert_eq!(decide_kick(&detail(false, MissionStatuses::Open, 1, 3), 4, 5), Err(WorkspaceError::Forbidden));
    assert_eq!(decide_kick(&detail(false, MissionStatuses::Open, 1, 3), CHIEF, CHIEF), Err(WorkspaceError::Forbidden));
    assert_eq!(decide_kick(&detail(false, MissionStatuses::Open, 1, 3), 4, CHIEF), Ok(()));
}

#[test]
fn missions_led_by_chief_with_counts() {
    let mut ws = Workspace::new();
    let crew = CrewOperationUseCase::new();
    let a = open_mission(&mut ws, 5, "Open");
    let other = AddMissionModel {
        name: "Other".to_string(),
        description: None,
        max_members: Some(3),
        status: None,
    };
    let b = ws.add_mission(&other.to_entity(7)).unwrap();
    let c = open_mission(&mut ws, 2, "Failed");
    assert_eq!(crew.join(&mut ws, a, 2), Ok(()));
    assert_eq!(crew.join(&mut ws, a, 3), Ok(()));
    assert_eq!(crew.join(&mut ws, b, 2), Ok(()));
    assert_eq!(ws.delete_mission(c, CHIEF), Ok(()));
    let list = ws.missions_led_by(CHIEF, &"Boss".to_string());
    assert_eq!(list.len(), 1);
    assert_eq!(list[0].id, a);
    assert_eq!(list[0].member_count, 2);
    assert_eq!(list[0].max_members, 5);
    assert_eq!(list[0].chief_display_name, "Boss");
    assert_eq!(list[0].name, "Raid");
    assert_eq!(list[0].description, Some("Take the tower".to_string()));
    assert!(!list[0].is_joined);
    assert_eq!(ws.missions_led_by(7, &"Seven".to_string()).len(), 1);
    assert_eq!(ws.missions_led_by(2, &"Two".to_string()).len(), 0);
}
