use vstd::prelude::*;

use crate::clock::{local_now, Timestamp};
use crate::error::WorkspaceError;
use crate::membership::{CrewMemberShips, MemberRow};
use crate::mission::{
    clone_text, AddMissionEntity, EditMissionEntity, MissionCard, MissionDetail, MissionEntity,
    MissionModel, MissionRow,
};
use crate::status::{mission_status_named, MissionStatuses};
use crate::submission::{submitted_row, MissionSubmission, NewMissionSubmission, SubmissionRow};
use crate::task::{created_row, updated_row, CreateTaskEntity, TaskModel, TaskRow, UpdateTaskEntity};

verus! {

/// The contents of a workspace, as the coordination rules read them.
pub struct WorkspaceView {
    /// Missions in order of creation; the mission with identity `k` stands at `k - 1`.
    pub missions: Seq<MissionRow>,
    pub members: Seq<MemberRow>,
    pub tasks: Seq<TaskRow>,
    pub submissions: Seq<SubmissionRow>,
    /// The identity that the next task gets.
    pub next_task_id: i32,
    /// The identity that the next submission gets.
    pub next_submission_id: i32,
}

/// Rows of crew `m`.
pub open spec fn in_mission(m: i32) -> spec_fn(MemberRow) -> bool {
    |r: MemberRow| r.mission_id == m
}

/// Rows other than the membership of `a` in crew `m`.
pub open spec fn other_than(m: i32, a: i32) -> spec_fn(MemberRow) -> bool {
    |r: MemberRow| !(r.mission_id == m && r.brawler_id == a)
}

/// Rows of the membership of `a` in crew `m`.
pub open spec fn membership_of(m: i32, a: i32) -> spec_fn(MemberRow) -> bool {
    |r: MemberRow| r.mission_id == m && r.brawler_id == a
}

/// Gives the membership of `a` in crew `m` the role `role`.
pub open spec fn with_role(m: i32, a: i32, role: Seq<char>) -> spec_fn(MemberRow) -> MemberRow {
    |r: MemberRow|
        if r.mission_id == m && r.brawler_id == a {
            MemberRow { role, ..r }
        } else {
            r
        }
}

pub open spec fn mission_rows(v: Seq<MissionEntity>) -> Seq<MissionRow> {
    v.map_values(|m: MissionEntity| m@)
}

pub open spec fn member_rows(v: Seq<CrewMemberShips>) -> Seq<MemberRow> {
    v.map_values(|r: CrewMemberShips| r@)
}

pub open spec fn task_rows(v: Seq<TaskModel>) -> Seq<TaskRow> {
    v.map_values(|t: TaskModel| t@)
}

pub open spec fn submission_rows(v: Seq<MissionSubmission>) -> Seq<SubmissionRow> {
    v.map_values(|s: MissionSubmission| s@)
}

impl WorkspaceView {
    pub open spec fn has_mission(self, m: i32) -> bool {
        1 <= m <= self.missions.len()
    }

    pub open spec fn mission(self, m: i32) -> MissionRow {
        self.missions[m - 1]
    }

    /// Mission `m` exists and is not deleted.
    pub open spec fn live(self, m: i32) -> bool {
        self.has_mission(m) && !self.mission(m).deleted
    }

    /// `a` is in the crew of mission `m`.
    pub open spec fn is_member(self, m: i32, a: i32) -> bool {
        exists|i: int|
            #![trigger self.members[i]]
            0 <= i < self.members.len() && self.members[i].mission_id == m
                && self.members[i].brawler_id == a
    }

    /// How many rows the crew of mission `m` has.
    pub open spec fn member_count(self, m: i32) -> nat {
        self.members.filter(in_mission(m)).len()
    }

    /// Mission `m` as the rules see it for `actor`.
    pub open spec fn detail(self, m: i32, actor: Option<i32>) -> MissionDetail {
        MissionDetail {
            id: m,
            chief_id: self.mission(m).chief_id,
            status: self.mission(m).status,
            max_members: self.mission(m).max_members,
            member_count: self.member_count(m) as usize,
            is_joined: match actor {
                Some(a) => self.is_member(m, a),
                None => false,
            },
        }
    }

    /// A membership row that belongs to an existing mission and is not its chief.
    pub open spec fn member_ok(self, r: MemberRow) -> bool {
        self.has_mission(r.mission_id) && r.brawler_id != self.mission(r.mission_id).chief_id
    }

    /// The workspace's invariant. Among others, a chief never stands in the
    /// crew of their own mission.
    pub open spec fn wf(self) -> bool {
        &&& self.missions.len() < i32::MAX
        &&& forall|i: int| 0 <= i < self.missions.len() ==> #[trigger] self.missions[i].id == i + 1
        &&& forall|i: int| 0 <= i < self.members.len() ==> self.member_ok(#[trigger] self.members[i])
        &&& 0 < self.next_task_id
        &&& forall|i: int|
            0 <= i < self.tasks.len() ==> 0 < #[trigger] self.tasks[i].id < self.next_task_id
        &&& 0 < self.next_submission_id
        &&& forall|i: int|
            0 <= i < self.submissions.len() ==> 0 < #[trigger] self.submissions[i].id
                < self.next_submission_id
    }

    /// The workspace after a mission was stored for `e` with the status `st`.
    pub open spec fn with_mission(self, e: AddMissionEntity, st: MissionStatuses) -> WorkspaceView {
        WorkspaceView {
            missions: self.missions.push(
                MissionRow {
                    id: (self.missions.len() + 1) as i32,
                    chief_id: e.chief_id,
                    name: e.name@,
                    status: st,
                    description: crate::mission::opt_text(e.description),
                    max_members: e.max_members,
                    deleted: false,
                },
            ),
            ..self
        }
    }

    pub open spec fn with_members(self, members: Seq<MemberRow>) -> WorkspaceView {
        WorkspaceView { members, ..self }
    }

    pub open spec fn with_tasks(self, tasks: Seq<TaskRow>) -> WorkspaceView {
        WorkspaceView { tasks, ..self }
    }

    pub open spec fn with_submissions(self, submissions: Seq<SubmissionRow>) -> WorkspaceView {
        WorkspaceView { submissions, ..self }
    }

    /// The workspace after `t` was stored as a new task.
    pub open spec fn with_new_task(self, t: TaskRow) -> WorkspaceView {
        WorkspaceView {
            tasks: self.tasks.push(t),
            next_task_id: (self.next_task_id + 1) as i32,
            ..self
        }
    }

    /// The workspace after submission `n` was stored under the next identity.
    pub open spec fn with_new_submission(self, n: NewMissionSubmission) -> WorkspaceView {
        WorkspaceView {
            submissions: self.submissions.push(submitted_row(self.next_submission_id, n)),
            next_submission_id: (self.next_submission_id + 1) as i32,
            ..self
        }
    }
}

/// Which submissions a removal takes away.
#[derive(Clone, Copy, Debug, PartialEq, Eq, Structural)]
pub enum SubmissionFilter {
    /// The submission with the given identity.
    Id(i32),
    /// The submissions that refer to the given task.
    Task(i32),
    /// The submissions of the given member to the given mission.
    Member(i32, i32),
}

pub open spec fn selects(sel: SubmissionFilter, r: SubmissionRow) -> bool {
    match sel {
        SubmissionFilter::Id(id) => r.id == id,
        SubmissionFilter::Task(t) => r.task_id == Some(t),
        SubmissionFilter::Member(m, a) => r.mission_id == m && r.brawler_id == a,
    }
}

/// The submissions that a removal by `sel` keeps.
pub open spec fn kept_by(sel: SubmissionFilter) -> spec_fn(SubmissionRow) -> bool {
    |r: SubmissionRow| !selects(sel, r)
}

/// Live missions led by `chief_id`.
pub open spec fn led_by(chief_id: i32) -> spec_fn(MissionRow) -> bool {
    |r: MissionRow| r.chief_id == chief_id && !r.deleted
}

/// A crew size as a listing shows it, capped at the largest `i64`.
pub open spec fn shown_count(n: nat) -> i64 {
    if n > i64::MAX {
        i64::MAX
    } else {
        n as i64
    }
}

/// How a listing of `s` shows mission `r` led by `name`, to someone outside its crew.
pub open spec fn card_of(s: WorkspaceView, name: Seq<char>) -> spec_fn(MissionRow) -> MissionCard {
    |r: MissionRow|
        MissionCard {
            id: r.id,
            name: r.name,
            description: r.description,
            status: r.status,
            chief_id: r.chief_id,
            chief_display_name: name,
            member_count: shown_count(s.member_count(r.id)),
            max_members: r.max_members,
            is_joined: false,
        }
}

pub open spec fn mission_cards(v: Seq<MissionModel>) -> Seq<MissionCard> {
    v.map_values(|m: MissionModel| m@)
}

/// Tasks other than task `id`.
pub open spec fn task_other_than(id: i32) -> spec_fn(TaskRow) -> bool {
    |t: TaskRow| t.id != id
}

/// Tasks of mission `m`.
pub open spec fn task_in_mission(m: i32) -> spec_fn(TaskRow) -> bool {
    |t: TaskRow| t.mission_id == m
}

/// Submissions to mission `m`.
pub open spec fn submission_in_mission(m: i32) -> spec_fn(SubmissionRow) -> bool {
    |r: SubmissionRow| r.mission_id == m
}

/// Applies the change `e` to task `id`.
pub open spec fn task_changed(id: i32, e: UpdateTaskEntity) -> spec_fn(TaskRow) -> TaskRow {
    |t: TaskRow|
        if t.id == id {
            updated_row(t, e)
        } else {
            t
        }
}

/// The change `e` without its time stamp, which the rules do not read.
pub open spec fn without_time(e: UpdateTaskEntity) -> UpdateTaskEntity {
    UpdateTaskEntity { updated_at: None, ..e }
}

/// Gives submission `id` the description `text`.
pub open spec fn described(id: i32, text: Seq<char>) -> spec_fn(SubmissionRow) -> SubmissionRow {
    |r: SubmissionRow|
        if r.id == id {
            SubmissionRow { description: Some(text), ..r }
        } else {
            r
        }
}

/// The first task with identity `id`.
pub open spec fn find_task(rows: Seq<TaskRow>, id: i32) -> Option<TaskRow>
    decreases rows.len(),
{
    if rows.len() == 0 {
        None
    } else if rows[0].id == id {
        Some(rows[0])
    } else {
        find_task(rows.drop_first(), id)
    }
}

/// The first submission with identity `id`.
pub open spec fn find_submission(rows: Seq<SubmissionRow>, id: i32) -> Option<SubmissionRow>
    decreases rows.len(),
{
    if rows.len() == 0 {
        None
    } else if rows[0].id == id {
        Some(rows[0])
    } else {
        find_submission(rows.drop_first(), id)
    }
}

/// The last stored submission that refers to task `t`.
pub open spec fn latest_for_task(rows: Seq<SubmissionRow>, t: i32) -> Option<SubmissionRow>
    decreases rows.len(),
{
    if rows.len() == 0 {
        None
    } else if rows.last().task_id == Some(t) {
        Some(rows.last())
    } else {
        latest_for_task(rows.drop_last(), t)
    }
}

pub open spec fn task_view(o: Option<TaskModel>) -> Option<TaskRow> {
    match o {
        Some(t) => Some(t@),
        None => None,
    }
}

pub open spec fn submission_view(o: Option<MissionSubmission>) -> Option<SubmissionRow> {
    match o {
        Some(r) => Some(r@),
        None => None,
    }
}

/// Storing a new mission: refused for an unknown status name, or when no
/// identity is left.
pub open spec fn add_mission_spec(s: WorkspaceView, e: AddMissionEntity) -> (Result<i32, WorkspaceError>, WorkspaceView) {
    match mission_status_named(e.status@) {
        None => (Err(WorkspaceError::InvalidState), s),
        Some(st) => if s.missions.len() + 1 >= i32::MAX {
            (Err(WorkspaceError::UpstreamFailure), s)
        } else {
            (Ok((s.missions.len() + 1) as i32), s.with_mission(e, st))
        },
    }
}

/// Changing task `id` changes what a lookup of `id` finds, and nothing else.
/// The chief `e.chief_id` changes mission `m`; fields that `e` leaves out
/// stay as they are, and an unknown status name is refused.
pub open spec fn edit_mission_spec(s: WorkspaceView, m: i32, e: EditMissionEntity) -> (Result<(), WorkspaceError>, WorkspaceView) {
    if !s.live(m) {
        (Err(WorkspaceError::NotFound), s)
    } else if s.mission(m).chief_id != e.chief_id {
        (Err(WorkspaceError::Forbidden), s)
    } else {
        let old_row = s.mission(m);
        let status = match e.status {
            Some(t) => mission_status_named(t@),
            None => Some(old_row.status),
        };
        match status {
            None => (Err(WorkspaceError::InvalidState), s),
            Some(st) => (
                Ok(()),
                WorkspaceView {
                    missions: s.missions.update(
                        m - 1,
                        MissionRow {
                            name: match e.name {
                                Some(x) => x@,
                                None => old_row.name,
                            },
                            description: match e.description {
                                Some(x) => Some(x@),
                                None => old_row.description,
                            },
                            max_members: match e.max_members {
                                Some(x) => x,
                                None => old_row.max_members,
                            },
                            status: st,
                            ..old_row
                        },
                    ),
                    ..s
                },
            ),
        }
    }
}

/// The chief `chief_id` deletes mission `m`; it is kept, marked as deleted.
pub open spec fn delete_mission_spec(s: WorkspaceView, m: i32, chief_id: i32) -> (Result<(), WorkspaceError>, WorkspaceView) {
    if !s.live(m) {
        (Err(WorkspaceError::NotFound), s)
    } else if s.mission(m).chief_id != chief_id {
        (Err(WorkspaceError::Forbidden), s)
    } else {
        (
            Ok(()),
            WorkspaceView {
                missions: s.missions.update(m - 1, MissionRow { deleted: true, ..s.mission(m) }),
                ..s
            },
        )
    }
}

pub proof fn lemma_find_changed(rows: Seq<TaskRow>, id: i32, e: UpdateTaskEntity)
    ensures
        find_task(rows.map_values(task_changed(id, e)), id) == (match find_task(rows, id) {
            Some(t) => Some(updated_row(t, e)),
            None => None,
        }),
    decreases rows.len(),
{
    if rows.len() > 0 {
        assert(rows.map_values(task_changed(id, e)).drop_first() =~= rows.drop_first().map_values(
            task_changed(id, e),
        ));
        lemma_find_changed(rows.drop_first(), id, e);
    }
}

pub proof fn lemma_filter_step<A>(s: Seq<A>, p: spec_fn(A) -> bool, i: int)
    requires
        0 <= i < s.len(),
    ensures
        s.subrange(0, i + 1).filter(p) == (if p(s[i]) {
            s.subrange(0, i).filter(p).push(s[i])
        } else {
            s.subrange(0, i).filter(p)
        }),
{
    reveal(Seq::filter);
    assert(s.subrange(0, i + 1).drop_last() =~= s.subrange(0, i));
}

/// The missions, crews, tasks and submissions of one workspace.
pub struct Workspace {
    missions: Vec<MissionEntity>,
    memberships: Vec<CrewMemberShips>,
    tasks: Vec<TaskModel>,
    submissions: Vec<MissionSubmission>,
    next_task_id: i32,
    next_submission_id: i32,
}

impl View for Workspace {
    type V = WorkspaceView;

    closed spec fn view(&self) -> WorkspaceView {
        WorkspaceView {
            missions: mission_rows(self.missions@),
            members: member_rows(self.memberships@),
            tasks: task_rows(self.tasks@),
            submissions: submission_rows(self.submissions@),
            next_task_id: self.next_task_id,
            next_submission_id: self.next_submission_id,
        }
    }
}

impl Workspace {
    /// An empty workspace.
    pub fn new() -> (r: Workspace)
        ensures
            r@.wf(),
            r@.missions.len() == 0,
            r@.members.len() == 0,
            r@.tasks.len() == 0,
            r@.submissions.len() == 0,
    {
        let r = Workspace {
            missions: Vec::new(),
            memberships: Vec::new(),
            tasks: Vec::new(),
            submissions: Vec::new(),
            next_task_id: 1,
            next_submission_id: 1,
        };
        assert(r@.missions =~= Seq::<MissionRow>::empty());
        assert(r@.members =~= Seq::<MemberRow>::empty());
        assert(r@.tasks =~= Seq::<TaskRow>::empty());
        assert(r@.submissions =~= Seq::<SubmissionRow>::empty());
        r
    }

    /// Stores a mission led by `e.chief_id` and returns its identity.
    pub fn add_mission(&mut self, e: &AddMissionEntity) -> (r: Result<i32, WorkspaceError>)
        requires
            old(self)@.wf(),
        ensures
            final(self)@.wf(),
            (r, final(self)@) == add_mission_spec(old(self)@, *e),
    {
        let st = match MissionStatuses::parse(&e.status) {
            Some(st) => st,
            None => return Err(WorkspaceError::InvalidState),
        };
        let n = self.missions.len();
        if n >= (i32::MAX - 1) as usize {
            return Err(WorkspaceError::UpstreamFailure);
        }
        let now = local_now();
        let id = (n + 1) as i32;
        let ghost before = self@;
        self.missions.push(
            MissionEntity {
                id,
                chief_id: e.chief_id,
                name: e.name.clone(),
                status: st,
                description: clone_text(&e.description),
                created_at: now,
                updated_at: now,
                deleted_at: None,
                max_members: e.max_members,
            },
        );
        assert(self@.missions =~= before.with_mission(*e, st).missions);
        assert(self@ == before.with_mission(*e, st));
        Ok(id)
    }

    /// Mission `mission_id` as the rules see it for `actor`; missions that
    /// do not exist or were deleted are not found.
    pub fn view_detail(&self, mission_id: i32, actor: Option<i32>) -> (r: Result<MissionDetail, WorkspaceError>)
        requires
            self@.wf(),
        ensures
            r == (if self@.live(mission_id) {
                Ok::<MissionDetail, WorkspaceError>(self@.detail(mission_id, actor))
            } else {
                Err(WorkspaceError::NotFound)
            }),
    {
        if mission_id < 1 || mission_id as usize > self.missions.len() {
            return Err(WorkspaceError::NotFound);
        }
        let k = (mission_id - 1) as usize;
        let m = &self.missions[k];
        if m.deleted_at.is_some() {
            return Err(WorkspaceError::NotFound);
        }
        let count = self.member_counting(mission_id);
        let is_joined = match actor {
            Some(a) => self.is_joined(mission_id, a),
            None => false,
        };
        Ok(
            MissionDetail {
                id: mission_id,
                chief_id: m.chief_id,
                status: m.status,
                max_members: m.max_members,
                member_count: count,
                is_joined,
            },
        )
    }

    /// How many members the crew of `mission_id` has.
    pub fn member_counting(&self, mission_id: i32) -> (r: usize)
        ensures
            r == self@.member_count(mission_id),
    {
        let ghost rows = self@.members;
        let mut count: usize = 0;
        let mut i: usize = 0;
        while i < self.memberships.len()
            invariant
                i <= self.memberships.len(),
                rows == self@.members,
                count == rows.subrange(0, i as int).filter(in_mission(mission_id)).len(),
            decreases self.memberships.len() - i,
        {
            proof {
                lemma_filter_step(rows, in_mission(mission_id), i as int);
                rows.subrange(0, i as int).lemma_filter_len(in_mission(mission_id));
            }
            if self.memberships[i].mission_id == mission_id {
                count = count + 1;
            }
            i = i + 1;
        }
        assert(rows.subrange(0, i as int) =~= rows);
        count
    }

    /// Whether `brawler_id` is in the crew of `mission_id`.
    pub fn is_joined(&self, mission_id: i32, brawler_id: i32) -> (r: bool)
        ensures
            r == self@.is_member(mission_id, brawler_id),
    {
        let mut i: usize = 0;
        while i < self.memberships.len()
            invariant
                i <= self.memberships.len(),
                forall|j: int|
                    0 <= j < i ==> !(#[trigger] self@.members[j].mission_id == mission_id
                        && self@.members[j].brawler_id == brawler_id),
            decreases self.memberships.len() - i,
        {
            if self.memberships[i].mission_id == mission_id && self.memberships[i].brawler_id
                == brawler_id {
                assert(self@.members[i as int] == self.memberships@[i as int]@);
                return true;
            }
            i = i + 1;
        }
        false
    }

    /// Adds `row` to its mission's crew.
    pub(crate) fn insert_membership(&mut self, row: CrewMemberShips)
        requires
            old(self)@.wf(),
            old(self)@.member_ok(row@),
        ensures
            final(self)@.wf(),
            final(self)@ == old(self)@.with_members(old(self)@.members.push(row@)),
    {
        let ghost before = self@;
        self.memberships.push(row);
        assert(self@.members =~= before.members.push(row@));
        assert(self@ == before.with_members(before.members.push(row@)));
    }

    /// Takes `brawler_id` out of the crew of `mission_id`.
    pub(crate) fn remove_membership(&mut self, mission_id: i32, brawler_id: i32)
        requires
            old(self)@.wf(),
        ensures
            final(self)@.wf(),
            final(self)@ == old(self)@.with_members(
                old(self)@.members.filter(other_than(mission_id, brawler_id)),
            ),
    {
        let ghost before = self@;
        let ghost rows = self@.members;
        let ghost keep = other_than(mission_id, brawler_id);
        let mut kept: Vec<CrewMemberShips> = Vec::new();
        let mut i: usize = 0;
        while i < self.memberships.len()
            invariant
                i <= self.memberships.len(),
                self@ == before,
                rows == before.members,
                before.wf(),
                keep == other_than(mission_id, brawler_id),
                member_rows(kept@) == rows.subrange(0, i as int).filter(keep),
                forall|j: int| 0 <= j < kept@.len() ==> before.member_ok(#[trigger] kept@[j]@),
            decreases self.memberships.len() - i,
        {
            proof {
                lemma_filter_step(rows, keep, i as int);
            }
            let r = &self.memberships[i];
            assert(rows[i as int] == r@);
            if !(r.mission_id == mission_id && r.brawler_id == brawler_id) {
                let ghost prev = kept@;
                kept.push(
                    CrewMemberShips {
                        mission_id: r.mission_id,
                        brawler_id: r.brawler_id,
                        joined_at: r.joined_at,
                        role: r.role.clone(),
                    },
                );
                assert(rows[i as int] == r@);
                assert(member_rows(kept@) =~= member_rows(prev).push(rows[i as int]));
            }
            i = i + 1;
        }
        assert(rows.subrange(0, i as int) =~= rows);
        self.memberships = kept;
        assert(self@ == before.with_members(rows.filter(keep)));
    }

    /// Gives `brawler_id` the role `role` in the crew of `mission_id`.
    pub(crate) fn set_role(&mut self, mission_id: i32, brawler_id: i32, role: &String)
        requires
            old(self)@.wf(),
        ensures
            final(self)@.wf(),
            final(self)@ == old(self)@.with_members(
                old(self)@.members.map_values(with_role(mission_id, brawler_id, role@)),
            ),
    {
        let ghost before = self@;
        let ghost rows = self@.members;
        let ghost f = with_role(mission_id, brawler_id, role@);
        let mut out: Vec<CrewMemberShips> = Vec::new();
        let mut i: usize = 0;
        while i < self.memberships.len()
            invariant
                i <= self.memberships.len(),
                self@ == before,
                rows == before.members,
                before.wf(),
                out@.len() == i,
                f == with_role(mission_id, brawler_id, role@),
                member_rows(out@) == rows.subrange(0, i as int).map_values(f),
                forall|j: int| 0 <= j < out@.len() ==> before.member_ok(#[trigger] out@[j]@),
            decreases self.memberships.len() - i,
        {
            let r = &self.memberships[i];
            let new_role = if r.mission_id == mission_id && r.brawler_id == brawler_id {
                role.clone()
            } else {
                r.role.clone()
            };
            let ghost prev = out@;
            out.push(
                CrewMemberShips {
                    mission_id: r.mission_id,
                    brawler_id: r.brawler_id,
                    joined_at: r.joined_at,
                    role: new_role,
                },
            );
            assert(rows[i as int] == r@);
            assert(member_rows(out@) =~= member_rows(prev).push(f(rows[i as int])));
            assert(rows.subrange(0, i + 1).map_values(f) =~= rows.subrange(0, i as int).map_values(
                f,
            ).push(f(rows[i as int])));
            i = i + 1;
        }
        assert(rows.subrange(0, i as int) =~= rows);
        self.memberships = out;
        assert(self@ == before.with_members(rows.map_values(f)));
    }

    /// Stores task `e` under the next identity; fails when no identity is left.
    pub(crate) fn create_task(&mut self, e: CreateTaskEntity) -> (r: Result<TaskModel, WorkspaceError>)
        requires
            old(self)@.wf(),
        ensures
            final(self)@.wf(),
            old(self)@.next_task_id == i32::MAX ==> r == Err::<TaskModel, WorkspaceError>(
                WorkspaceError::UpstreamFailure,
            ) && final(self)@ == old(self)@,
            old(self)@.next_task_id < i32::MAX ==> r.is_ok() && r.unwrap()@ == created_row(
                old(self)@.next_task_id,
                e,
            ) && final(self)@ == old(self)@.with_new_task(created_row(old(self)@.next_task_id, e)),
    {
        if self.next_task_id == i32::MAX {
            return Err(WorkspaceError::UpstreamFailure);
        }
        let now = local_now();
        let t = TaskModel {
            id: self.next_task_id,
            mission_id: e.mission_id,
            member_id: e.member_id,
            title: e.title,
            description: e.description,
            start_date: e.start_date,
            end_date: e.end_date,
            priority: e.priority,
            status: e.status,
            created_by: e.created_by,
            created_at: now,
            updated_at: now,
            has_submission: false,
        };
        let out = t.duplicate();
        let ghost before = self@;
        self.tasks.push(t);
        self.next_task_id = self.next_task_id + 1;
        assert(self@.tasks =~= before.with_new_task(created_row(before.next_task_id, e)).tasks);
        assert(self@ == before.with_new_task(created_row(before.next_task_id, e)));
        Ok(out)
    }

    /// The task with identity `task_id`.
    pub fn get_task(&self, task_id: i32) -> (r: Option<TaskModel>)
        ensures
            task_view(r) == find_task(self@.tasks, task_id),
    {
        let ghost rows = self@.tasks;
        let mut i: usize = 0;
        assert(rows.subrange(0, rows.len() as int) =~= rows);
        while i < self.tasks.len()
            invariant
                i <= self.tasks.len(),
                rows == self@.tasks,
                find_task(rows, task_id) == find_task(rows.subrange(i as int, rows.len() as int), task_id),
            decreases self.tasks.len() - i,
        {
            assert(rows.subrange(i as int, rows.len() as int).drop_first() =~= rows.subrange(
                i + 1,
                rows.len() as int,
            ));
            assert(rows.subrange(i as int, rows.len() as int)[0] == self.tasks@[i as int]@);
            if self.tasks[i].id == task_id {
                return Some(self.tasks[i].duplicate());
            }
            i = i + 1;
        }
        None
    }

    /// The tasks of mission `mission_id`, in the order they were created.
    pub fn tasks_of_mission(&self, mission_id: i32) -> (r: Vec<TaskModel>)
        ensures
            task_rows(r@) == self@.tasks.filter(task_in_mission(mission_id)),
    {
        let ghost rows = self@.tasks;
        let ghost keep = task_in_mission(mission_id);
        let mut out: Vec<TaskModel> = Vec::new();
        let mut i: usize = 0;
        while i < self.tasks.len()
            invariant
                i <= self.tasks.len(),
                rows == self@.tasks,
                keep == task_in_mission(mission_id),
                task_rows(out@) == rows.subrange(0, i as int).filter(keep),
            decreases self.tasks.len() - i,
        {
            proof {
                lemma_filter_step(rows, keep, i as int);
            }
            assert(rows[i as int] == self.tasks@[i as int]@);
            if self.tasks[i].mission_id == mission_id {
                let ghost prev = out@;
                out.push(self.tasks[i].duplicate());
                assert(task_rows(out@) =~= task_rows(prev).push(rows[i as int]));
            }
            i = i + 1;
        }
        assert(rows.subrange(0, i as int) =~= rows);
        out
    }

    /// Applies the change `e` to task `task_id`.
    pub(crate) fn update_task(&mut self, task_id: i32, e: &UpdateTaskEntity)
        requires
            old(self)@.wf(),
        ensures
            final(self)@.wf(),
            final(self)@ == old(self)@.with_tasks(
                old(self)@.tasks.map_values(task_changed(task_id, without_time(*e))),
            ),
    {
        let ghost before = self@;
        let ghost rows = self@.tasks;
        let ghost f = task_changed(task_id, without_time(*e));
        let mut out: Vec<TaskModel> = Vec::new();
        let mut i: usize = 0;
        while i < self.tasks.len()
            invariant
                i <= self.tasks.len(),
                self@ == before,
                rows == before.tasks,
                before.wf(),
                out@.len() == i,
                f == task_changed(task_id, without_time(*e)),
                task_rows(out@) == rows.subrange(0, i as int).map_values(f),
                forall|j: int| 0 <= j < out@.len() ==> 0 < #[trigger] out@[j].id < before.next_task_id,
            decreases self.tasks.len() - i,
        {
            let t = &self.tasks[i];
            let mut n = t.duplicate();
            if t.id == task_id {
                match &e.title {
                    Some(x) => n.title = x.clone(),
                    None => {},
                }
                match &e.description {
                    Some(x) => n.description = Some(x.clone()),
                    None => {},
                }
                match e.member_id {
                    Some(x) => n.member_id = Some(x),
                    None => {},
                }
                match e.status {
                    Some(x) => n.status = x,
                    None => {},
                }
                match &e.priority {
                    Some(x) => n.priority = x.clone(),
                    None => {},
                }
                match e.updated_at {
                    Some(x) => n.updated_at = x,
                    None => {},
                }
                match e.has_submission {
                    Some(x) => n.has_submission = x,
                    None => {},
                }
            }
            let ghost prev = out@;
            assert(rows[i as int] == t@);
            assert(n@ == f(rows[i as int]));
            out.push(n);
            assert(task_rows(out@) =~= task_rows(prev).push(f(rows[i as int])));
            assert(rows.subrange(0, i + 1).map_values(f) =~= rows.subrange(0, i as int).map_values(
                f,
            ).push(f(rows[i as int])));
            i = i + 1;
        }
        assert(rows.subrange(0, i as int) =~= rows);
        self.tasks = out;
        assert(self@ == before.with_tasks(rows.map_values(f)));
    }

    /// Removes task `task_id`.
    pub(crate) fn remove_task(&mut self, task_id: i32)
        requires
            old(self)@.wf(),
        ensures
            final(self)@.wf(),
            final(self)@ == old(self)@.with_tasks(old(self)@.tasks.filter(task_other_than(task_id))),
    {
        let ghost before = self@;
        let ghost rows = self@.tasks;
        let ghost keep = task_other_than(task_id);
        let mut kept: Vec<TaskModel> = Vec::new();
        let mut i: usize = 0;
        while i < self.tasks.len()
            invariant
                i <= self.tasks.len(),
                self@ == before,
                rows == before.tasks,
                before.wf(),
                keep == task_other_than(task_id),
                task_rows(kept@) == rows.subrange(0, i as int).filter(keep),
                forall|j: int| 0 <= j < kept@.len() ==> 0 < #[trigger] kept@[j].id < before.next_task_id,
            decreases self.tasks.len() - i,
        {
            proof {
                lemma_filter_step(rows, keep, i as int);
            }
            assert(rows[i as int] == self.tasks@[i as int]@);
            if self.tasks[i].id != task_id {
                let ghost prev = kept@;
                kept.push(self.tasks[i].duplicate());
                assert(task_rows(kept@) =~= task_rows(prev).push(rows[i as int]));
            }
            i = i + 1;
        }
        assert(rows.subrange(0, i as int) =~= rows);
        self.tasks = kept;
        assert(self@ == before.with_tasks(rows.filter(keep)));
    }

    /// Stores submission `n` under the next identity; fails when no identity is left.
    pub(crate) fn create_submission(&mut self, n: NewMissionSubmission) -> (r: Result<MissionSubmission, WorkspaceError>)
        requires
            old(self)@.wf(),
        ensures
            final(self)@.wf(),
            old(self)@.next_submission_id == i32::MAX ==> r == Err::<MissionSubmission, WorkspaceError>(
                WorkspaceError::UpstreamFailure,
            ) && final(self)@ == old(self)@,
            old(self)@.next_submission_id < i32::MAX ==> r.is_ok() && r.unwrap()@ == submitted_row(
                old(self)@.next_submission_id,
                n,
            ) && final(self)@ == old(self)@.with_new_submission(n),
    {
        if self.next_submission_id == i32::MAX {
            return Err(WorkspaceError::UpstreamFailure);
        }
        let row = MissionSubmission {
            id: self.next_submission_id,
            mission_id: n.mission_id,
            brawler_id: n.brawler_id,
            file_url: n.file_url,
            file_name: n.file_name,
            file_type: n.file_type,
            submitted_at: local_now(),
            task_id: n.task_id,
            description: n.description,
        };
        let out = row.duplicate();
        let ghost before = self@;
        self.submissions.push(row);
        self.next_submission_id = self.next_submission_id + 1;
        assert(self@.submissions =~= before.with_new_submission(n).submissions);
        assert(self@ == before.with_new_submission(n));
        Ok(out)
    }

    /// The submission with identity `id`.
    pub fn get_submission(&self, id: i32) -> (r: Option<MissionSubmission>)
        ensures
            submission_view(r) == find_submission(self@.submissions, id),
    {
        let ghost rows = self@.submissions;
        let mut i: usize = 0;
        assert(rows.subrange(0, rows.len() as int) =~= rows);
        while i < self.submissions.len()
            invariant
                i <= self.submissions.len(),
                rows == self@.submissions,
                find_submission(rows, id) == find_submission(rows.subrange(i as int, rows.len() as int), id),
            decreases self.submissions.len() - i,
        {
            assert(rows.subrange(i as int, rows.len() as int).drop_first() =~= rows.subrange(
                i + 1,
                rows.len() as int,
            ));
            assert(rows.subrange(i as int, rows.len() as int)[0] == self.submissions@[i as int]@);
            if self.submissions[i].id == id {
                return Some(self.submissions[i].duplicate());
            }
            i = i + 1;
        }
        None
    }

    /// The last stored submission that refers to task `task_id`.
    pub fn latest_submission_for_task(&self, task_id: i32) -> (r: Option<MissionSubmission>)
        ensures
            submission_view(r) == latest_for_task(self@.submissions, task_id),
    {
        let ghost rows = self@.submissions;
        let mut i: usize = self.submissions.len();
        assert(rows.subrange(0, i as int) =~= rows);
        while i > 0
            invariant
                i <= self.submissions.len(),
                rows == self@.submissions,
                latest_for_task(rows, task_id) == latest_for_task(rows.subrange(0, i as int), task_id),
            decreases i,
        {
            assert(rows.subrange(0, i as int).drop_last() =~= rows.subrange(0, i - 1));
            assert(rows.subrange(0, i as int).last() == self.submissions@[i - 1]@);
            if self.submissions[i - 1].task_id == Some(task_id) {
                return Some(self.submissions[i - 1].duplicate());
            }
            i = i - 1;
        }
        None
    }

    /// The submissions to mission `mission_id`, in the order they were made.
    pub fn submissions_of_mission(&self, mission_id: i32) -> (r: Vec<MissionSubmission>)
        ensures
            submission_rows(r@) == self@.submissions.filter(submission_in_mission(mission_id)),
    {
        let ghost rows = self@.submissions;
        let ghost keep = submission_in_mission(mission_id);
        let mut out: Vec<MissionSubmission> = Vec::new();
        let mut i: usize = 0;
        while i < self.submissions.len()
            invariant
                i <= self.submissions.len(),
                rows == self@.submissions,
                keep == submission_in_mission(mission_id),
                submission_rows(out@) == rows.subrange(0, i as int).filter(keep),
            decreases self.submissions.len() - i,
        {
            proof {
                lemma_filter_step(rows, keep, i as int);
            }
            assert(rows[i as int] == self.submissions@[i as int]@);
            if self.submissions[i].mission_id == mission_id {
                let ghost prev = out@;
                out.push(self.submissions[i].duplicate());
                assert(submission_rows(out@) =~= submission_rows(prev).push(rows[i as int]));
            }
            i = i + 1;
        }
        assert(rows.subrange(0, i as int) =~= rows);
        out
    }

    /// Removes the submissions that `sel` selects.
    pub(crate) fn remove_submissions(&mut self, sel: SubmissionFilter)
        requires
            old(self)@.wf(),
        ensures
            final(self)@.wf(),
            final(self)@ == old(self)@.with_submissions(old(self)@.submissions.filter(kept_by(sel))),
    {
        let ghost before = self@;
        let ghost rows = self@.submissions;
        let ghost keep = kept_by(sel);
        let mut kept: Vec<MissionSubmission> = Vec::new();
        let mut i: usize = 0;
        while i < self.submissions.len()
            invariant
                i <= self.submissions.len(),
                self@ == before,
                rows == before.submissions,
                before.wf(),
                keep == kept_by(sel),
                submission_rows(kept@) == rows.subrange(0, i as int).filter(keep),
                forall|j: int|
                    0 <= j < kept@.len() ==> 0 < #[trigger] kept@[j].id < before.next_submission_id,
            decreases self.submissions.len() - i,
        {
            proof {
                lemma_filter_step(rows, keep, i as int);
            }
            let r = &self.submissions[i];
            assert(rows[i as int] == r@);
            assert(0 < rows[i as int].id < before.next_submission_id);
            let chosen = match sel {
                SubmissionFilter::Id(id) => r.id == id,
                SubmissionFilter::Task(t) => r.task_id == Some(t),
                SubmissionFilter::Member(m, a) => r.mission_id == m && r.brawler_id == a,
            };
            if !chosen {
                let ghost prev = kept@;
                kept.push(r.duplicate());
                assert(submission_rows(kept@) =~= submission_rows(prev).push(rows[i as int]));
            }
            i = i + 1;
        }
        assert(rows.subrange(0, i as int) =~= rows);
        self.submissions = kept;
        assert(self@ == before.with_submissions(rows.filter(keep)));
    }

    /// Gives submission `id` the description `text`.
    pub(crate) fn set_description(&mut self, id: i32, text: &String)
        requires
            old(self)@.wf(),
        ensures
            final(self)@.wf(),
            final(self)@ == old(self)@.with_submissions(
                old(self)@.submissions.map_values(described(id, text@)),
            ),
    {
        let ghost before = self@;
        let ghost rows = self@.submissions;
        let ghost f = described(id, text@);
        let mut out: Vec<MissionSubmission> = Vec::new();
        let mut i: usize = 0;
        while i < self.submissions.len()
            invariant
                i <= self.submissions.len(),
                self@ == before,
                rows == before.submissions,
                before.wf(),
                out@.len() == i,
                f == described(id, text@),
                submission_rows(out@) == rows.subrange(0, i as int).map_values(f),
                forall|j: int|
                    0 <= j < out@.len() ==> 0 < #[trigger] out@[j].id < before.next_submission_id,
            decreases self.submissions.len() - i,
        {
            let r = &self.submissions[i];
            let mut n = r.duplicate();
            if r.id == id {
                n.description = Some(text.clone());
            }
            let ghost prev = out@;
            assert(rows[i as int] == r@);
            assert(n@ == f(rows[i as int]));
            out.push(n);
            assert(submission_rows(out@) =~= submission_rows(prev).push(f(rows[i as int])));
            assert(rows.subrange(0, i + 1).map_values(f) =~= rows.subrange(0, i as int).map_values(
                f,
            ).push(f(rows[i as int])));
            i = i + 1;
        }
        assert(rows.subrange(0, i as int) =~= rows);
        self.submissions = out;
        assert(self@ == before.with_submissions(rows.map_values(f)));
    }

    /// The chief `e.chief_id` changes mission `mission_id`.
    pub fn edit_mission(&mut self, mission_id: i32, e: &EditMissionEntity) -> (r: Result<(), WorkspaceError>)
        requires
            old(self)@.wf(),
        ensures
            final(self)@.wf(),
            (r, final(self)@) == edit_mission_spec(old(self)@, mission_id, *e),
    {
        if mission_id < 1 || mission_id as usize > self.missions.len() {
            return Err(WorkspaceError::NotFound);
        }
        let k = (mission_id - 1) as usize;
        let m = &self.missions[k];
        if m.deleted_at.is_some() {
            return Err(WorkspaceError::NotFound);
        }
        if m.chief_id != e.chief_id {
            return Err(WorkspaceError::Forbidden);
        }
        let status = match &e.status {
            Some(t) => match MissionStatuses::parse(t) {
                Some(st) => st,
                None => return Err(WorkspaceError::InvalidState),
            },
            None => m.status,
        };
        let changed = MissionEntity {
            id: m.id,
            chief_id: m.chief_id,
            name: match &e.name {
                Some(x) => x.clone(),
                None => m.name.clone(),
            },
            status,
            description: match &e.description {
                Some(x) => Some(x.clone()),
                None => clone_text(&m.description),
            },
            created_at: m.created_at,
            updated_at: local_now(),
            deleted_at: m.deleted_at,
            max_members: match e.max_members {
                Some(x) => x,
                None => m.max_members,
            },
        };
        let ghost before = self@;
        self.missions.set(k, changed);
        proof {
            let after = edit_mission_spec(before, mission_id, *e).1;
            assert(self@.missions =~= after.missions);
            assert(self@ == after);
            assert forall|i: int| 0 <= i < after.members.len() implies after.member_ok(
                #[trigger] after.members[i],
            ) by {
                assert(before.member_ok(before.members[i]));
            }
        }
        Ok(())
    }

    /// The chief `chief_id` deletes mission `mission_id`, which stays stored
    /// with a deletion mark.
    pub fn delete_mission(&mut self, mission_id: i32, chief_id: i32) -> (r: Result<(), WorkspaceError>)
        requires
            old(self)@.wf(),
        ensures
            final(self)@.wf(),
            (r, final(self)@) == delete_mission_spec(old(self)@, mission_id, chief_id),
    {
        if mission_id < 1 || mission_id as usize > self.missions.len() {
            return Err(WorkspaceError::NotFound);
        }
        let k = (mission_id - 1) as usize;
        let m = &self.missions[k];
        if m.deleted_at.is_some() {
            return Err(WorkspaceError::NotFound);
        }
        if m.chief_id != chief_id {
            return Err(WorkspaceError::Forbidden);
        }
        let now = local_now();
        let marked = MissionEntity {
            id: m.id,
            chief_id: m.chief_id,
            name: m.name.clone(),
            status: m.status,
            description: clone_text(&m.description),
            created_at: m.created_at,
            updated_at: now,
            deleted_at: Some(now),
            max_members: m.max_members,
        };
        let ghost before = self@;
        self.missions.set(k, marked);
        proof {
            let after = delete_mission_spec(before, mission_id, chief_id).1;
            assert(self@.missions =~= after.missions);
            assert(self@ == after);
            assert forall|i: int| 0 <= i < after.members.len() implies after.member_ok(
                #[trigger] after.members[i],
            ) by {
                assert(before.member_ok(before.members[i]));
            }
        }
        Ok(())
    }

    /// The crew of mission `mission_id`, in the order its members joined.
    pub fn crew_of(&self, mission_id: i32) -> (r: Vec<CrewMemberShips>)
        ensures
            member_rows(r@) == self@.members.filter(in_mission(mission_id)),
    {
        let ghost rows = self@.members;
        let ghost keep = in_mission(mission_id);
        let mut out: Vec<CrewMemberShips> = Vec::new();
        let mut i: usize = 0;
        while i < self.memberships.len()
            invariant
                i <= self.memberships.len(),
                rows == self@.members,
                keep == in_mission(mission_id),
                member_rows(out@) == rows.subrange(0, i as int).filter(keep),
            decreases self.memberships.len() - i,
        {
            proof {
                lemma_filter_step(rows, keep, i as int);
            }
            assert(rows[i as int] == self.memberships@[i as int]@);
            if self.memberships[i].mission_id == mission_id {
                let ghost prev = out@;
                out.push(self.memberships[i].duplicate());
                assert(member_rows(out@) =~= member_rows(prev).push(rows[i as int]));
            }
            i = i + 1;
        }
        assert(rows.subrange(0, i as int) =~= rows);
        out
    }

    /// The live missions led by `chief_id`, in order of creation, as shown
    /// to someone outside their crews.
    pub fn missions_led_by(&self, chief_id: i32, chief_display_name: &String) -> (r: Vec<MissionModel>)
        requires
            self@.wf(),
        ensures
            mission_cards(r@) == self@.missions.filter(led_by(chief_id)).map_values(
                card_of(self@, chief_display_name@),
            ),
    {
        let ghost rows = self@.missions;
        let ghost keep = led_by(chief_id);
        let ghost f = card_of(self@, chief_display_name@);
        let mut out: Vec<MissionModel> = Vec::new();
        let mut i: usize = 0;
        while i < self.missions.len()
            invariant
                i <= self.missions.len(),
                rows == self@.missions,
                self@.wf(),
                keep == led_by(chief_id),
                f == card_of(self@, chief_display_name@),
                mission_cards(out@) == rows.subrange(0, i as int).filter(keep).map_values(f),
            decreases self.missions.len() - i,
        {
            proof {
                lemma_filter_step(rows, keep, i as int);
            }
            let m = &self.missions[i];
            assert(rows[i as int] == m@);
            if m.chief_id == chief_id && m.deleted_at.is_none() {
                let count = self.member_counting(m.id);
                let shown: i64 = if count as u64 > i64::MAX as u64 {
                    i64::MAX
                } else {
                    count as i64
                };
                let card = m.to_model(chief_display_name.clone(), shown);
                let ghost prev = out@;
                out.push(card);
                assert(out@[out@.len() - 1]@ == f(rows[i as int]));
                assert(mission_cards(out@) =~= mission_cards(prev).push(f(rows[i as int])));
                assert(rows.subrange(0, i + 1).filter(keep).map_values(f) =~= rows.subrange(
                    0,
                    i as int,
                ).filter(keep).map_values(f).push(f(rows[i as int])));
            }
            i = i + 1;
        }
        assert(rows.subrange(0, i as int) =~= rows);
        out
    }
}

} // verus!
