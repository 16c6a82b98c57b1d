//! The records that the statistics service returns, as plain data.

use vstd::prelude::*;

verus! {

/// One hero of the hero list: its id and its display name.
#[derive(Debug, Clone)]
pub struct HeroStat {
    pub id: i32,
    pub localized_name: String,
}

/// One hero of the constant table, with the path or address of its picture.
#[derive(Debug, Clone)]
pub struct HeroConstant {
    pub id: i32,
    pub img: Option<String>,
}

/// A player as the service reports them.
#[derive(Debug, Clone, Default)]
pub struct PlayerResponse {
    pub profile: Option<PlayerProfile>,
    pub mmr_estimate: Option<MmrEstimate>,
}

/// The public part of a player's account.
#[derive(Debug, Clone, Default)]
pub struct PlayerProfile {
    pub personaname: Option<String>,
    pub steamid: Option<String>,
    pub avatar: Option<String>,
    pub avatarmedium: Option<String>,
    pub avatarfull: Option<String>,
}

#[derive(Debug, Clone, Default)]
pub struct MmrEstimate {
    pub estimate: Option<i32>,
}

/// One entry of a player's recent matches.
#[derive(Debug, Clone)]
pub struct PlayerMatch {
    pub match_id: u64,
    pub player_slot: u16,
    pub radiant_win: bool,
    pub duration: u32,
    pub start_time: Option<i64>,
    pub hero_id: i32,
    pub game_mode: Option<i32>,
    pub kills: Option<i32>,
    pub deaths: Option<i32>,
    pub assists: Option<i32>,
}

/// A match with the record of each of its players.
#[derive(Debug, Clone)]
pub struct MatchDetail {
    pub players: Vec<MatchPlayer>,
}

/// What one player did in one match.
#[derive(Debug, Clone)]
pub struct MatchPlayer {
    pub account_id: Option<u32>,
    pub personaname: Option<String>,
    pub hero_id: Option<i32>,
    pub player_slot: Option<u16>,
    pub item_0: Option<i32>,
    pub item_1: Option<i32>,
    pub item_2: Option<i32>,
    pub item_3: Option<i32>,
    pub item_4: Option<i32>,
    pub item_5: Option<i32>,
    pub kills: Option<i32>,
    pub deaths: Option<i32>,
    pub assists: Option<i32>,
    pub gold_per_min: Option<i32>,
    pub xp_per_min: Option<i32>,
    pub net_worth: Option<i32>,
}

/// One item of the constant table, with the path or address of its picture.
#[derive(Debug, Clone)]
pub struct ItemConstant {
    pub id: i32,
    pub img: Option<String>,
}

/// The address to show for a player: the largest picture that the profile
/// names, the medium one failing that, the small one failing both.
pub open spec fn preferred_avatar(profile: PlayerProfile) -> Option<String> {
    if profile.avatarfull is Some {
        profile.avatarfull
    } else if profile.avatarmedium is Some {
        profile.avatarmedium
    } else {
        profile.avatar
    }
}

/// The address to show for a response, if its profile names any.
pub open spec fn response_avatar(response: Option<PlayerResponse>) -> Option<String> {
    match response {
        Some(r) => match r.profile {
            Some(p) => preferred_avatar(p),
            None => None,
        },
        None => None,
    }
}

impl PlayerProfile {
    /// The preferred picture address of this profile.
    pub fn avatar_choice(&self) -> (url: Option<String>)
        ensures
            url == preferred_avatar(*self),
    {
        if let Some(full) = &self.avatarfull {
            Some(full.clone())
        } else if let Some(medium) = &self.avatarmedium {
            Some(medium.clone())
        } else if let Some(small) = &self.avatar {
            Some(small.clone())
        } else {
            None
        }
    }
}

impl PlayerResponse {
    /// The preferred picture address of this response's profile.
    pub fn avatar_choice(&self) -> (url: Option<String>)
        ensures
            url == response_avatar(Some(*self)),
    {
        match &self.profile {
            Some(profile) => profile.avatar_choice(),
            None => None,
        }
    }
}

} // verus!
