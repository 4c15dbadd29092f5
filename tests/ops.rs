use maestrodejuegos::model::{
    Game, GameAchievements, GameSchema, GameSchemaResponse, GameStats, OwnedGames,
    OwnedGamesResponse, Player, PlayerAchievementsResponse, PlayerStats, PlayerSummaries,
    PlayerSummariesResponse, ResolveVanityURL, ResolveVanityURLResponse,
};
use maestrodejuegos::ops::{
    achievements, achievements_request, game_schema, game_schema_request, owned_games,
    owned_games_request, player_profile, player_summary, player_summary_request, vanity_url,
    vanity_url_request,
};
use maestrodejuegos::{FetchFailure, HttpClient, SteamClient, SteamError};

fn client() -> SteamClient {
    SteamClient::build("https://api.example.com".to_string(), "SECRET".to_string())
}

fn pairs(q: &[(String, String)]) -> Vec<(&str, &str)> {
    q.iter().map(|(k, v)| (k.as_str(), v.as_str())).collect()
}

fn resolution(steamid: Option<&str>, success: u8) -> ResolveVanityURLResponse {
    ResolveVanityURLResponse {
        response: ResolveVanityURL {
            steamid: steamid.map(|s| s.to_string()),
            message: None,
            success,
        },
    }
}

fn player(id: &str) -> Player {
    Player {
        steamid: id.to_string(),
        communityvisibilitystate: 3,
        profilestate: 1,
        personaname: "gamer".to_string(),
        profileurl: "https://example.com/gamer".to_string(),
        avatar: "a.jpg".to_string(),
        avatarmedium: "am.jpg".to_string(),
        avatarfull: "af.jpg".to_string(),
        avatarhash: "hash".to_string(),
        lastlogoff: 100,
        personastate: 0,
        realname: "Real Name".to_string(),
        primaryclanid: "42".to_string(),
        timecreated: 50,
        personastateflags: 0,
        loccountrycode: "MX".to_string(),
        locstatecode: "CMX".to_string(),
        games: None,
    }
}

fn game(appid: u64) -> Game {
    Game {
        appid,
        name: format!("Game {appid}"),
        playtime_forever: 120,
        img_icon_url: "icon".to_string(),
        rtime_last_played: 7,
        has_community_visible_stats: Some(true),
        has_leaderboards: None,
    }
}

#[test]
fn client_get_appends_secret_last() {
    let mut params = vec![("a".to_string(), "1".to_string())];
    let url = client().get("/path".to_string(), &mut params);
    assert_eq!(url, "https://api.example.com/path");
    assert_eq!(pairs(&params), vec![("a", "1"), ("key", "SECRET")]);
}

#[test]
fn vanity_url_request_shape() {
    let r = vanity_url_request(&client(), &"someone".to_string());
    assert_eq!(r.url, "https://api.example.com/ISteamUser/ResolveVanityURL/v1");
    assert_eq!(pairs(&r.query), vec![("vanityurl", "someone"), ("key", "SECRET")]);
}

#[test]
fn other_request_shapes() {
    let c = client();
    let id = "765".to_string();
    let app = "440".to_string();
    let r = player_summary_request(&c, &id);
    assert_eq!(r.url, "https://api.example.com/ISteamUser/GetPlayerSummaries/v2");
    assert_eq!(pairs(&r.query), vec![("steamids", "765"), ("key", "SECRET")]);
    let r = owned_games_request(&c, &id);
    assert_eq!(r.url, "https://api.example.com/IPlayerService/GetOwnedGames/v1");
    assert_eq!(
        pairs(&r.query),
        vec![("steamid", "765"), ("include_appinfo", "1"), ("key", "SECRET")]
    );
    let r = game_schema_request(&c, &app);
    assert_eq!(r.url, "https://api.example.com/ISteamUserStats/GetSchemaForGame/v2");
    assert_eq!(pairs(&r.query), vec![("appid", "440"), ("key", "SECRET")]);
    let r = achievements_request(&c, &id, &app);
    assert_eq!(r.url, "https://api.example.com/ISteamUserStats/GetPlayerAchievements/v1");
    assert_eq!(
        pairs(&r.query),
        vec![("steamid", "765"), ("appid", "440"), ("key", "SECRET")]
    );
}

#[test]
fn vanity_url_resolves_to_identifier() {
    let r = vanity_url(&"someone".to_string(), Ok(resolution(Some("76561198"), 1)));
    assert_eq!(r.unwrap(), "76561198");
}

#[test]
fn vanity_url_not_found_on_failed_success_flag() {
    let r = vanity_url(&"nobody".to_string(), Ok(resolution(None, 42)));
    match r {
        Err(SteamError::NotFound(m)) => assert_eq!(m, "nobody does not exist"),
        other => panic!("unexpected {other:?}"),
    }
}

#[test]
fn vanity_url_not_found_without_identifier() {
    let r = vanity_url(&"nobody".to_string(), Ok(resolution(None, 1)));
    assert!(matches!(r, Err(SteamError::NotFound(_))));
    let r = vanity_url(&"nobody".to_string(), Ok(resolution(Some(""), 1)));
    assert!(matches!(r, Err(SteamError::NotFound(_))));
    let r = vanity_url(&"nobody".to_string(), Ok(resolution(Some("123"), 42)));
    assert!(matches!(r, Err(SteamError::NotFound(_))));
}

#[test]
fn decode_failure_is_distinct_from_transport_failure() {
    let r = vanity_url(&"x".to_string(), Err(FetchFailure::Decode("missing field `response`".to_string())));
    match r {
        Err(SteamError::InvalidResponse(m)) => assert_eq!(m, "missing field `response`"),
        other => panic!("unexpected {other:?}"),
    }
    let r = vanity_url(&"x".to_string(), Err(FetchFailure::Transport("dns error".to_string())));
    match r {
        Err(SteamError::Unreachable(m)) => assert_eq!(m, "dns error"),
        other => panic!("unexpected {other:?}"),
    }
    let r = owned_games(Err(FetchFailure::Decode("missing field `games`".to_string())));
    assert!(matches!(r, Err(SteamError::InvalidResponse(_))));
    let r = game_schema(Err(FetchFailure::Transport("down".to_string())));
    assert!(matches!(r, Err(SteamError::Unreachable(_))));
    let r = achievements(Err(FetchFailure::Decode("bad".to_string())));
    assert!(matches!(r, Err(SteamError::InvalidResponse(_))));
    let r = player_summary(&"1".to_string(), Err(FetchFailure::Transport("down".to_string())));
    assert!(matches!(r, Err(SteamError::Unreachable(_))));
}

#[test]
fn player_summary_takes_first_player() {
    let body = PlayerSummariesResponse {
        response: PlayerSummaries { players: vec![player("1"), player("2")] },
    };
    let p = player_summary(&"1".to_string(), Ok(body)).unwrap();
    assert_eq!(p.steamid, "1");
}

#[test]
fn player_summary_without_players_is_not_found() {
    let body = PlayerSummariesResponse { response: PlayerSummaries { players: vec![] } };
    match player_summary(&"99".to_string(), Ok(body)) {
        Err(SteamError::NotFound(m)) => assert_eq!(m, "99 does not exist"),
        other => panic!("unexpected {other:?}"),
    }
}

#[test]
fn player_profile_attaches_games() {
    let body = OwnedGamesResponse {
        response: OwnedGames { games: vec![game(10), game(20)], game_count: 2 },
    };
    let games = owned_games(Ok(body));
    let p = player_profile(player("1"), games).unwrap();
    let g = p.games.unwrap();
    assert_eq!(g.len(), 2);
    assert_eq!(g[0].appid, 10);
    assert_eq!(g[1].name, "Game 20");
    assert_eq!(p.personaname, "gamer");
}

#[test]
fn player_profile_fails_when_games_fetch_fails() {
    let games = owned_games(Err(FetchFailure::Transport("timeout".to_string())));
    match player_profile(player("1"), games) {
        Err(SteamError::Unreachable(m)) => assert_eq!(m, "timeout"),
        other => panic!("unexpected {other:?}"),
    }
}

#[test]
fn schema_and_record_are_unwrapped() {
    let schema = GameSchemaResponse {
        game: GameSchema {
            availableGameStats: GameStats {
                achievements: vec![GameAchievements {
                    name: "a".to_string(),
                    displayName: "A".to_string(),
                    hidden: 0,
                    description: None,
                    icon: "i".to_string(),
                    icongray: "g".to_string(),
                }],
            },
        },
    };
    let s = game_schema(Ok(schema)).unwrap();
    assert_eq!(s.len(), 1);
    assert_eq!(s[0].displayName, "A");
    let body = PlayerAchievementsResponse {
        playerstats: PlayerStats { gameName: "G".to_string(), achievements: vec![], success: true },
    };
    let st = achievements(Ok(body)).unwrap();
    assert_eq!(st.gameName, "G");
}
