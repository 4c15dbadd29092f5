//! The resource operations. Each is split in two: a function that prepares
//! the request of a round trip, and one that turns the round trip's outcome
//! (a decoded body, or the failure that prevented it) into the operation's
//! result. The caller performs the round trips in between, one after the
//! other.
use vstd::prelude::*;
use vstd::string::StringExecFns;

use crate::client::{query_view, HttpClient, Request, SteamClient};
use crate::error::{fetch_error, FetchFailure, SteamError};
use crate::model::{
    Game, GameAchievements, GameSchemaResponse, OwnedGamesResponse, Player,
    PlayerAchievementsResponse, PlayerStats, PlayerSummariesResponse, ResolveVanityURLResponse,
};

verus! {

/// The message of a `NotFound` for `name`.
pub open spec fn not_found_message(name: Seq<char>) -> Seq<char> {
    name + " does not exist"@
}

fn not_found(name: &String) -> (r: SteamError)
    ensures
        r matches SteamError::NotFound(m) && m@ == not_found_message(name@),
{
    SteamError::NotFound(name.clone().concat(" does not exist"))
}

/// A resolution body names an account: its success indicator is 1 and it
/// carries a non-empty identifier.
pub open spec fn resolves(b: ResolveVanityURLResponse) -> bool {
    &&& b.response.success == 1
    &&& b.response.steamid matches Some(id)
    &&& id@.len() > 0
}

fn request_to(client: &SteamClient, endpoint: &str, params: Vec<(String, String)>) -> (r: Request)
    ensures
        r.url@ == client.base() + endpoint@,
        query_view(r.query@) == query_view(params@).push(("key"@, client.secret())),
{
    let mut params = params;
    let url = client.get(String::from_str(endpoint), &mut params);
    Request { url, query: params }
}

/// The request that resolves the account name `name`.
pub fn vanity_url_request(client: &SteamClient, name: &String) -> (r: Request)
    ensures
        r.url@ == client.base() + "/ISteamUser/ResolveVanityURL/v1"@,
        query_view(r.query@) == seq![("vanityurl"@, name@), ("key"@, client.secret())],
{
    let mut params: Vec<(String, String)> = Vec::new();
    params.push((String::from_str("vanityurl"), name.clone()));
    proof {
        assert(query_view(params@) =~= seq![("vanityurl"@, name@)]);
    }
    let r = request_to(client, "/ISteamUser/ResolveVanityURL/v1", params);
    proof {
        assert(query_view(r.query@) =~= seq![("vanityurl"@, name@), ("key"@, client.secret())]);
    }
    r
}

/// Resolves the account name `name` from the outcome of its round trip: the
/// identifier where the body says the name resolved, `NotFound` where it
/// does not, `InvalidResponse` where the body could not be decoded and
/// `Unreachable` where the request failed.
pub fn vanity_url(name: &String, outcome: Result<ResolveVanityURLResponse, FetchFailure>) -> (r: Result<String, SteamError>)
    ensures
        outcome matches Err(f) ==> r == Err::<String, SteamError>(fetch_error(f)),
        outcome matches Ok(b) ==> (resolves(b) ==> r == Ok::<String, SteamError>(b.response.steamid->0)),
        outcome matches Ok(b) ==> (!resolves(b) ==> (r matches Err(SteamError::NotFound(m))
            && m@ == not_found_message(name@))),
        r matches Ok(id) ==> id@.len() > 0,
{
    match outcome {
        Err(f) => Err(f.into_error()),
        Ok(b) => {
            if b.response.success != 1 {
                return Err(not_found(name));
            }
            match b.response.steamid {
                Some(id) => {
                    if id.as_str().is_empty() {
                        Err(not_found(name))
                    } else {
                        Ok(id)
                    }
                },
                None => Err(not_found(name)),
            }
        },
    }
}

/// The request for the summary of the account `steam_id`.
pub fn player_summary_request(client: &SteamClient, steam_id: &String) -> (r: Request)
    ensures
        r.url@ == client.base() + "/ISteamUser/GetPlayerSummaries/v2"@,
        query_view(r.query@) == seq![("steamids"@, steam_id@), ("key"@, client.secret())],
{
    let mut params: Vec<(String, String)> = Vec::new();
    params.push((String::from_str("steamids"), steam_id.clone()));
    proof {
        assert(query_view(params@) =~= seq![("steamids"@, steam_id@)]);
    }
    let r = request_to(client, "/ISteamUser/GetPlayerSummaries/v2", params);
    proof {
        assert(query_view(r.query@) =~= seq![("steamids"@, steam_id@), ("key"@, client.secret())]);
    }
    r
}

/// The summary of the account `steam_id` from the outcome of its round
/// trip: the first player of the body, or `NotFound` where the body lists
/// none.
pub fn player_summary(steam_id: &String, outcome: Result<PlayerSummariesResponse, FetchFailure>) -> (r: Result<Player, SteamError>)
    ensures
        outcome matches Err(f) ==> r == Err::<Player, SteamError>(fetch_error(f)),
        outcome matches Ok(b) ==> (b.response.players@.len() > 0 ==> r == Ok::<Player, SteamError>(b.response.players@[0])),
        outcome matches Ok(b) ==> (b.response.players@.len() == 0 ==> (r matches Err(SteamError::NotFound(m))
            && m@ == not_found_message(steam_id@))),
{
    match outcome {
        Err(f) => Err(f.into_error()),
        Ok(b) => {
            let mut players = b.response.players;
            if players.len() == 0 {
                Err(not_found(steam_id))
            } else {
                Ok(players.swap_remove(0))
            }
        },
    }
}

/// The request for the games that the account `steam_id` owns, with their
/// names and details.
pub fn owned_games_request(client: &SteamClient, steam_id: &String) -> (r: Request)
    ensures
        r.url@ == client.base() + "/IPlayerService/GetOwnedGames/v1"@,
        query_view(r.query@) == seq![("steamid"@, steam_id@), ("include_appinfo"@, "1"@), ("key"@, client.secret())],
{
    let mut params: Vec<(String, String)> = Vec::new();
    params.push((String::from_str("steamid"), steam_id.clone()));
    params.push((String::from_str("include_appinfo"), String::from_str("1")));
    proof {
        assert(query_view(params@) =~= seq![("steamid"@, steam_id@), ("include_appinfo"@, "1"@)]);
    }
    let r = request_to(client, "/IPlayerService/GetOwnedGames/v1", params);
    proof {
        assert(query_view(r.query@) =~= seq![("steamid"@, steam_id@), ("include_appinfo"@, "1"@), ("key"@, client.secret())]);
    }
    r
}

/// The owned games from the outcome of their round trip.
pub fn owned_games(outcome: Result<OwnedGamesResponse, FetchFailure>) -> (r: Result<Vec<Game>, SteamError>)
    ensures
        outcome matches Err(f) ==> r == Err::<Vec<Game>, SteamError>(fetch_error(f)),
        outcome matches Ok(b) ==> r == Ok::<Vec<Game>, SteamError>(b.response.games),
{
    match outcome {
        Err(f) => Err(f.into_error()),
        Ok(b) => Ok(b.response.games),
    }
}

/// A player's profile: the summary with the owned games attached. A failed
/// owned-games fetch fails the whole profile with that fetch's error.
pub fn player_profile(summary: Player, games: Result<Vec<Game>, SteamError>) -> (r: Result<Player, SteamError>)
    ensures
        games matches Err(e) ==> r == Err::<Player, SteamError>(e),
        games matches Ok(g) ==> r == Ok::<Player, SteamError>(Player { games: Some(g), ..summary }),
{
    match games {
        Err(e) => Err(e),
        Ok(g) => {
            let mut summary = summary;
            summary.games = Some(g);
            Ok(summary)
        },
    }
}

/// The request for the achievement schema of the game `game_id`.
pub fn game_schema_request(client: &SteamClient, game_id: &String) -> (r: Request)
    ensures
        r.url@ == client.base() + "/ISteamUserStats/GetSchemaForGame/v2"@,
        query_view(r.query@) == seq![("appid"@, game_id@), ("key"@, client.secret())],
{
    let mut params: Vec<(String, String)> = Vec::new();
    params.push((String::from_str("appid"), game_id.clone()));
    proof {
        assert(query_view(params@) =~= seq![("appid"@, game_id@)]);
    }
    let r = request_to(client, "/ISteamUserStats/GetSchemaForGame/v2", params);
    proof {
        assert(query_view(r.query@) =~= seq![("appid"@, game_id@), ("key"@, client.secret())]);
    }
    r
}

/// The schema's achievements from the outcome of their round trip.
pub fn game_schema(outcome: Result<GameSchemaResponse, FetchFailure>) -> (r: Result<Vec<GameAchievements>, SteamError>)
    ensures
        outcome matches Err(f) ==> r == Err::<Vec<GameAchievements>, SteamError>(fetch_error(f)),
        outcome matches Ok(b) ==> r == Ok::<Vec<GameAchievements>, SteamError>(b.game.availableGameStats.achievements),
{
    match outcome {
        Err(f) => Err(f.into_error()),
        Ok(b) => Ok(b.game.availableGameStats.achievements),
    }
}

/// The request for the achievement record of the account `steam_id` in the
/// game `game_id`.
pub fn achievements_request(client: &SteamClient, steam_id: &String, game_id: &String) -> (r: Request)
    ensures
        r.url@ == client.base() + "/ISteamUserStats/GetPlayerAchievements/v1"@,
        query_view(r.query@) == seq![("steamid"@, steam_id@), ("appid"@, game_id@), ("key"@, client.secret())],
{
    let mut params: Vec<(String, String)> = Vec::new();
    params.push((String::from_str("steamid"), steam_id.clone()));
    params.push((String::from_str("appid"), game_id.clone()));
    proof {
        assert(query_view(params@) =~= seq![("steamid"@, steam_id@), ("appid"@, game_id@)]);
    }
    let r = request_to(client, "/ISteamUserStats/GetPlayerAchievements/v1", params);
    proof {
        assert(query_view(r.query@) =~= seq![("steamid"@, steam_id@), ("appid"@, game_id@), ("key"@, client.secret())]);
    }
    r
}

/// The player's achievement record from the outcome of its round trip.
pub fn achievements(outcome: Result<PlayerAchievementsResponse, FetchFailure>) -> (r: Result<PlayerStats, SteamError>)
    ensures
        outcome matches Err(f) ==> r == Err::<PlayerStats, SteamError>(fetch_error(f)),
        outcome matches Ok(b) ==> r == Ok::<PlayerStats, SteamError>(b.playerstats),
{
    match outcome {
        Err(f) => Err(f.into_error()),
        Ok(b) => Ok(b.playerstats),
    }
}

} // verus!
