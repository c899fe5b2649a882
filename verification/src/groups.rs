//! Types and verified logic for the groups endpoints: group roles and
//! their members.

use vstd::prelude::*;

verus! {

use crate::User;

/// A role in a group.
#[derive(Clone, Debug)]
pub struct Role {
    /// The ID of the role.
    pub id: u64,
    /// The name of the role.
    pub name: String,
    /// A number from 0 to 255 that determines the role's rank, with 255
    /// being the highest rank and 0 being the lowest rank.
    pub rank: u8,
    /// The number of members in the role.
    pub member_count: u64,
}

/// The raw shape of one entry of a role members response.
#[allow(missing_docs)]
#[derive(Clone, Debug)]
pub struct MemberRaw {
    pub has_verified_badge: bool,
    pub user_id: u64,
    pub username: String,
    pub display_name: String,
}

/// How one member relates to its raw entry.
pub open spec fn spec_member_from_raw(raw: MemberRaw, u: User) -> bool {
    &&& u.user_id == raw.user_id
    &&& u.username == raw.username
    &&& u.display_name == raw.display_name
}

/// Reshapes the raw entries of a role members response, keeping the
/// order.
pub fn members_from_response(data: Vec<MemberRaw>) -> (members: Vec<User>)
    ensures
        members@.len() == data@.len(),
        forall|i: int| 0 <= i < data@.len() ==> #[trigger] spec_member_from_raw(
            data@[i],
            members@[i],
        ),
{
    let mut members: Vec<User> = Vec::new();
    let mut i: usize = 0;
    while i < data.len()
        invariant
            i <= data.len(),
            members@.len() == i,
            forall|j: int| 0 <= j < i ==> #[trigger] spec_member_from_raw(data@[j], members@[j]),
        decreases data.len() - i,
    {
        let entry = &data[i];
        members.push(
            User {
                user_id: entry.user_id,
                username: entry.username.clone(),
                display_name: entry.display_name.clone(),
            },
        );
        i = i + 1;
    }
    members
}

} // verus!
