//! Types for the presence endpoints: where users are and what they are
//! doing.

use vstd::prelude::*;

verus! {

use crate::RoboatError;

/// Presence of a user.
#[allow(missing_docs)]
#[derive(Clone, Copy, Debug, PartialEq, Eq, Structural)]
pub enum PresenceType {
    Offline,
    Online,
    InGame,
    InStudio,
    Invisible,
}

/// The presence type that the service encodes as `v`, if any.
pub open spec fn spec_presence_type_from_u8(v: u8) -> Option<PresenceType> {
    if v == 0 {
        Some(PresenceType::Offline)
    } else if v == 1 {
        Some(PresenceType::Online)
    } else if v == 2 {
        Some(PresenceType::InGame)
    } else if v == 3 {
        Some(PresenceType::InStudio)
    } else if v == 4 {
        Some(PresenceType::Invisible)
    } else {
        None
    }
}

impl PresenceType {
    /// Decodes the numeric presence type used by the service; an
    /// unassigned number is a malformed response.
    pub fn try_from(v: u8) -> (r: Result<PresenceType, RoboatError>)
        ensures
            match spec_presence_type_from_u8(v) {
                Some(t) => r == Ok::<PresenceType, RoboatError>(t),
                None => r == Err::<PresenceType, RoboatError>(RoboatError::MalformedResponse),
            },
    {
        match v {
            0 => Ok(PresenceType::Offline),
            1 => Ok(PresenceType::Online),
            2 => Ok(PresenceType::InGame),
            3 => Ok(PresenceType::InStudio),
            4 => Ok(PresenceType::Invisible),
            _ => Err(RoboatError::MalformedResponse),
        }
    }
}

/// The presence of one user.
#[allow(missing_docs)]
#[derive(Clone, Debug)]
pub struct UserPresence {
    pub user_presence_type: PresenceType,
    pub last_location: Option<String>,
    pub place_id: Option<u64>,
    pub root_place_id: Option<u64>,
    pub game_id: Option<String>,
    pub universe_id: Option<u64>,
    pub user_id: u64,
    pub last_online: Option<String>,
}

/// The presence of every requested user.
#[allow(missing_docs)]
#[derive(Clone, Debug)]
pub struct UserPresenceResponse {
    pub user_presences: Vec<UserPresence>,
}

} // verus!
