//! The records that the remote API's responses decode into.
#![allow(non_snake_case)]
use vstd::prelude::*;

verus! {

/// The body of an account-name resolution.
#[derive(Debug, Clone)]
pub struct ResolveVanityURL {
    pub steamid: Option<String>,
    pub message: Option<String>,
    /// 1 when the name resolved.
    pub success: u8,
}

#[derive(Debug, Clone)]
pub struct ResolveVanityURLResponse {
    pub response: ResolveVanityURL,
}

/// A player's identity and presentation attributes, with the owned games
/// once they have been fetched.
#[derive(Debug, Clone)]
pub struct Player {
    pub steamid: String,
    pub communityvisibilitystate: u8,
    pub profilestate: u8,
    pub personaname: String,
    pub profileurl: String,
    pub avatar: String,
    pub avatarmedium: String,
    pub avatarfull: String,
    pub avatarhash: String,
    pub lastlogoff: u32,
    pub personastate: u8,
    pub realname: String,
    pub primaryclanid: String,
    pub timecreated: u32,
    pub personastateflags: u8,
    pub loccountrycode: String,
    pub locstatecode: String,
    pub games: Option<Vec<Game>>,
}

#[derive(Debug, Clone)]
pub struct PlayerSummaries {
    pub players: Vec<Player>,
}

#[derive(Debug, Clone)]
pub struct PlayerSummariesResponse {
    pub response: PlayerSummaries,
}

/// One game of a player's library.
#[derive(Debug, Clone)]
pub struct Game {
    pub appid: u64,
    pub name: String,
    pub playtime_forever: u32,
    pub img_icon_url: String,
    pub rtime_last_played: u32,
    pub has_community_visible_stats: Option<bool>,
    pub has_leaderboards: Option<bool>,
}

#[derive(Debug, Clone)]
pub struct OwnedGames {
    pub games: Vec<Game>,
    pub game_count: u32,
}

#[derive(Debug, Clone)]
pub struct OwnedGamesResponse {
    pub response: OwnedGames,
}

/// One entry of a game's published achievement schema.
#[derive(Debug, Clone)]
pub struct GameAchievements {
    /// The internal key, matched against `PlayerAchievements::apiname`.
    pub name: String,
    pub displayName: String,
    pub hidden: u8,
    pub description: Option<String>,
    pub icon: String,
    pub icongray: String,
}

#[derive(Debug, Clone)]
pub struct GameStats {
    pub achievements: Vec<GameAchievements>,
}

#[derive(Debug, Clone)]
pub struct GameSchema {
    pub availableGameStats: GameStats,
}

#[derive(Debug, Clone)]
pub struct GameSchemaResponse {
    pub game: GameSchema,
}

/// One entry of a player's achievement record; the display fields are
/// filled in by the merge with the schema.
#[derive(Debug, Clone)]
pub struct PlayerAchievements {
    pub apiname: String,
    /// 1 when the player has the achievement, 0 otherwise.
    pub achieved: u8,
    pub name: Option<String>,
    pub hidden: Option<u8>,
    pub description: Option<String>,
    pub icon: Option<String>,
    pub icongray: Option<String>,
}

/// A player's achievement record for one game.
#[derive(Debug, Clone)]
pub struct PlayerStats {
    pub gameName: String,
    pub achievements: Vec<PlayerAchievements>,
    pub success: bool,
}

#[derive(Debug, Clone)]
pub struct PlayerAchievementsResponse {
    pub playerstats: PlayerStats,
}

} // verus!
