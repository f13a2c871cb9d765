use vstd::prelude::*;

use crate::clock::Timestamp;

verus! {

/// One member of one mission's crew.
#[derive(Clone, Debug)]
pub struct CrewMemberShips {
    pub mission_id: i32,
    pub brawler_id: i32,
    pub joined_at: Timestamp,
    pub role: String,
}

/// What the coordination rules read of a crew membership.
pub struct MemberRow {
    pub mission_id: i32,
    pub brawler_id: i32,
    pub role: Seq<char>,
}

impl View for CrewMemberShips {
    type V = MemberRow;

    open spec fn view(&self) -> MemberRow {
        MemberRow { mission_id: self.mission_id, brawler_id: self.brawler_id, role: self.role@ }
    }
}

impl CrewMemberShips {
    /// A copy of the membership.
    pub fn duplicate(&self) -> (r: CrewMemberShips)
        ensures
            r == *self,
    {
        CrewMemberShips {
            mission_id: self.mission_id,
            brawler_id: self.brawler_id,
            joined_at: self.joined_at,
            role: self.role.clone(),
        }
    }
}

/// The role that a member gets on joining.
pub open spec fn member_role() -> Seq<char> {
    "Member"@
}

} // verus!
