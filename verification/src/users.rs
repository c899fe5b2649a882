//! Types and verified logic for the users endpoints: user details and the
//! checked reshaping of search and lookup responses.

use vstd::prelude::*;

verus! {

use crate::User;

/// The details of a user, fetched by user id.
#[allow(missing_docs)]
#[derive(Clone, Debug)]
pub struct UserDetails {
    pub username: String,
    pub display_name: String,
    pub id: u64,
    pub description: String,
    /// A time string of when the account was created. Follows ISO 8601
    /// format.
    pub created_at: String,
    /// Whether the account is terminated. Does not include
    /// non-termination bans.
    pub is_terminated: bool,
    pub has_verified_badge: bool,
}

/// The details of a user, fetched by username.
#[allow(missing_docs)]
#[derive(Clone, Debug)]
pub struct UsernameUserDetails {
    pub requested_username: String,
    pub username: String,
    pub display_name: String,
    pub id: u64,
    pub has_verified_badge: bool,
}

/// The raw shape of one entry of a user search response.
#[allow(missing_docs)]
#[derive(Clone, Debug)]
pub struct UserSearchUserInformationRaw {
    pub id: u64,
    pub name: String,
    pub has_verified_badge: bool,
    pub previous_usernames: Vec<String>,
    pub display_name: String,
}

/// The raw shape of one entry of a username lookup response.
#[allow(missing_docs)]
#[derive(Clone, Debug)]
pub struct UsernameUserInformationRaw {
    pub requested_username: String,
    pub has_verified_badge: bool,
    pub id: u64,
    pub name: String,
    pub display_name: String,
}

/// How one found user relates to its raw search entry.
pub open spec fn spec_user_from_search(raw: UserSearchUserInformationRaw, u: User) -> bool {
    &&& u.user_id == raw.id
    &&& u.username == raw.name
    &&& u.display_name == raw.display_name
}

/// Reshapes the raw entries of a user search response, keeping the order.
pub fn users_from_search(data: Vec<UserSearchUserInformationRaw>) -> (users: Vec<User>)
    ensures
        users@.len() == data@.len(),
        forall|i: int| 0 <= i < data@.len() ==> #[trigger] spec_user_from_search(
            data@[i],
            users@[i],
        ),
{
    let mut users: Vec<User> = Vec::new();
    let mut i: usize = 0;
    while i < data.len()
        invariant
            i <= data.len(),
            users@.len() == i,
            forall|j: int| 0 <= j < i ==> #[trigger] spec_user_from_search(data@[j], users@[j]),
        decreases data.len() - i,
    {
        let entry = &data[i];
        users.push(
            User {
                user_id: entry.id,
                username: entry.name.clone(),
                display_name: entry.display_name.clone(),
            },
        );
        i = i + 1;
    }
    users
}

/// How one looked-up user relates to its raw entry.
pub open spec fn spec_username_user_details_from_raw(
    raw: UsernameUserInformationRaw,
    d: UsernameUserDetails,
) -> bool {
    &&& d.requested_username == raw.requested_username
    &&& d.username == raw.name
    &&& d.display_name == raw.display_name
    &&& d.id == raw.id
    &&& d.has_verified_badge == raw.has_verified_badge
}

/// Reshapes the raw entries of a username lookup response, keeping the
/// order.
pub fn username_user_details_from_response(data: Vec<UsernameUserInformationRaw>) -> (details: Vec<
    UsernameUserDetails,
>)
    ensures
        details@.len() == data@.len(),
        forall|i: int| 0 <= i < data@.len() ==> #[trigger] spec_username_user_details_from_raw(
            data@[i],
            details@[i],
        ),
{
    let mut details: Vec<UsernameUserDetails> = Vec::new();
    let mut i: usize = 0;
    while i < data.len()
        invariant
            i <= data.len(),
            details@.len() == i,
            forall|j: int| 0 <= j < i ==> #[trigger] spec_username_user_details_from_raw(
                data@[j],
                details@[j],
            ),
        decreases data.len() - i,
    {
        let entry = &data[i];
        details.push(
            UsernameUserDetails {
                requested_username: entry.requested_username.clone(),
                username: entry.name.clone(),
                display_name: entry.display_name.clone(),
                id: entry.id,
                has_verified_badge: entry.has_verified_badge,
            },
        );
        i = i + 1;
    }
    details
}

} // verus!
