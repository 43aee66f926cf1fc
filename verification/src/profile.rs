//! Profile endpoints, as decisions.

use vstd::prelude::*;
use crate::identity::User;
use crate::roles::UserRole;

verus! {

/// Where a user plays.
pub struct LocationData {
    pub city: Option<String>,
}

/// What a client sends to change a profile.
pub struct UpdateProfileRequest {
    pub first_name: Option<String>,
    pub last_name: Option<String>,
    pub profile_picture: Option<String>,
    pub skill_level: Option<String>,
    pub location: Option<LocationData>,
}

/// What a player sends to change how they play.
pub struct UpdatePlayerProfileRequest {
    pub skill_level: Option<String>,
    pub play_style: Option<String>,
    pub availability: Option<Vec<String>>,
}

/// What a player has told about their play.
#[derive(Debug)]
pub struct PlayerProfile {
    pub skill_level: Option<String>,
    pub play_style: Option<String>,
    pub availability: Vec<String>,
}

/// Why a profile request was refused.
#[derive(Clone, Copy, Debug, PartialEq, Eq, Structural)]
pub enum ProfileRejection {
    NotAuthenticated,
    PlayersOnly,
    NoData,
}

/// HTTP status of a refusal.
pub open spec fn rejection_status(rejection: ProfileRejection) -> u16 {
    match rejection {
        ProfileRejection::NotAuthenticated => 401,
        ProfileRejection::PlayersOnly => 403,
        ProfileRejection::NoData => 400,
    }
}

/// Whether a caller may use the player endpoints.
pub open spec fn player_access(caller: Option<User>) -> Result<(), ProfileRejection> {
    match caller {
        None => Err(ProfileRejection::NotAuthenticated),
        Some(user) => if user.role == Some(UserRole::Player) {
            Ok(())
        } else {
            Err(ProfileRejection::PlayersOnly)
        },
    }
}

/// Whether an update names anything to change. The picture alone does not count.
pub open spec fn has_data(request: UpdateProfileRequest) -> bool {
    request.first_name is Some || request.last_name is Some || request.skill_level is Some
        || request.location is Some
}

/// The status to answer a refusal with.
pub fn status_code(rejection: ProfileRejection) -> (status: u16)
    ensures
        status == rejection_status(rejection),
{
    match rejection {
        ProfileRejection::NotAuthenticated => 401,
        ProfileRejection::PlayersOnly => 403,
        ProfileRejection::NoData => 400,
    }
}

fn check_player(caller: Option<&User>) -> (access: Result<(), ProfileRejection>)
    ensures
        access == player_access(
            match caller {
                Some(u) => Some(*u),
                None => None,
            },
        ),
{
    match caller {
        None => Err(ProfileRejection::NotAuthenticated),
        Some(user) => match user.role {
            Some(UserRole::Player) => Ok(()),
            _ => Err(ProfileRejection::PlayersOnly),
        },
    }
}

/// Whether the caller may see a profile at all: anyone authenticated may.
pub fn get_profile(caller: Option<&User>) -> (access: Result<(), ProfileRejection>)
    ensures
        access == (match caller {
            Some(_) => Ok::<(), ProfileRejection>(()),
            None => Err::<(), ProfileRejection>(ProfileRejection::NotAuthenticated),
        }),
{
    match caller {
        Some(_) => Ok(()),
        None => Err(ProfileRejection::NotAuthenticated),
    }
}

/// Tests a profile update: it must name something to change.
pub fn update_profile(request: &UpdateProfileRequest) -> (checked: Result<(), ProfileRejection>)
    ensures
        checked == (if has_data(*request) {
            Ok::<(), ProfileRejection>(())
        } else {
            Err::<(), ProfileRejection>(ProfileRejection::NoData)
        }),
{
    if request.first_name.is_none() && request.last_name.is_none() && request.skill_level.is_none()
        && request.location.is_none() {
        Err(ProfileRejection::NoData)
    } else {
        Ok(())
    }
}

fn copy_list(list: &Vec<String>) -> (copy: Vec<String>)
    ensures
        copy@ == list@,
{
    let mut copy: Vec<String> = Vec::new();
    let mut i: usize = 0;
    while i < list.len()
        invariant
            i <= list.len(),
            copy@ == list@.subrange(0, i as int),
        decreases list.len() - i,
    {
        copy.push(list[i].clone());
        i += 1;
    }
    assert(list@.subrange(0, list.len() as int) == list@);
    copy
}

/// The profile of the calling player: the stored one, or an empty one.
pub fn get_player_profile(caller: Option<&User>, stored: Option<PlayerProfile>) -> (profile: Result<
    PlayerProfile,
    ProfileRejection,
>)
    ensures
        match player_access(
            match caller {
                Some(u) => Some(*u),
                None => None,
            },
        ) {
            Err(e) => profile is Err && profile->Err_0 == e,
            Ok(_) => profile is Ok && match stored {
                Some(p) => profile->Ok_0 == p,
                None => profile->Ok_0.skill_level is None && profile->Ok_0.play_style is None
                    && profile->Ok_0.availability@.len() == 0,
            },
        },
{
    match check_player(caller) {
        Err(e) => Err(e),
        Ok(()) => Ok(
            match stored {
                Some(p) => p,
                None => PlayerProfile { skill_level: None, play_style: None, availability: Vec::new() },
            },
        ),
    }
}

/// The profile of the calling player after an update: each part that the
/// update names replaces the stored one, every other part stays.
pub fn update_player_profile(
    caller: Option<&User>,
    stored: Option<PlayerProfile>,
    request: &UpdatePlayerProfileRequest,
) -> (profile: Result<PlayerProfile, ProfileRejection>)
    ensures
        match player_access(
            match caller {
                Some(u) => Some(*u),
                None => None,
            },
        ) {
            Err(e) => profile is Err && profile->Err_0 == e,
            Ok(_) => {
                &&& profile is Ok
                &&& profile->Ok_0.skill_level == (match request.skill_level {
                    Some(s) => Some(s),
                    None => match stored {
                        Some(p) => p.skill_level,
                        None => None,
                    },
                })
                &&& profile->Ok_0.play_style == (match request.play_style {
                    Some(s) => Some(s),
                    None => match stored {
                        Some(p) => p.play_style,
                        None => None,
                    },
                })
                &&& profile->Ok_0.availability@ == (match request.availability {
                    Some(a) => a@,
                    None => match stored {
                        Some(p) => p.availability@,
                        None => Seq::<String>::empty(),
                    },
                })
            },
        },
{
    match check_player(caller) {
        Err(e) => {
            return Err(e);
        },
        Ok(()) => {},
    }
    let mut profile = match stored {
        Some(p) => p,
        None => PlayerProfile { skill_level: None, play_style: None, availability: Vec::new() },
    };
    match &request.skill_level {
        Some(s) => {
            profile.skill_level = Some(s.clone());
        },
        None => {},
    }
    match &request.play_style {
        Some(s) => {
            profile.play_style = Some(s.clone());
        },
        None => {},
    }
    match &request.availability {
        Some(a) => {
            profile.availability = copy_list(a);
        },
        None => {},
    }
    Ok(profile)
}

} // verus!
