use lolshorts::lcu::{
    lockfile_candidates, GameData, GameFlowPhase, GameSession, LcuClient, LcuError, LockfileData,
};

#[test]
fn test_lcu_client_creation() {
    let client = LcuClient::new();
    assert!(!client.is_connected());
}

#[test]
fn test_lockfile_parse_valid() {
    let content = "LeagueClient:12345:54321:secret123:https";
    let lockfile = LockfileData::parse(content).unwrap();

    assert_eq!(lockfile.process_name, "LeagueClient");
    assert_eq!(lockfile.pid, 12345);
    assert_eq!(lockfile.port, 54321);
    assert_eq!(lockfile.password, "secret123");
    assert_eq!(lockfile.protocol, "https");
}

#[test]
fn test_lockfile_parse_with_whitespace() {
    let content = "  LeagueClient:12345:54321:secret123:https  \n";
    let lockfile = LockfileData::parse(content).unwrap();

    assert_eq!(lockfile.process_name, "LeagueClient");
    assert_eq!(lockfile.port, 54321);
}

#[test]
fn test_lockfile_parse_invalid_format() {
    let content = "InvalidFormat";
    let result = LockfileData::parse(content);

    assert!(result.is_err());
    assert!(matches!(result.unwrap_err(), LcuError::InvalidLockfile));
}

#[test]
fn test_lockfile_parse_invalid_port() {
    let content = "LeagueClient:12345:notanumber:secret123:https";
    let result = LockfileData::parse(content);

    assert!(result.is_err());
    assert!(matches!(result.unwrap_err(), LcuError::InvalidLockfile));
}

#[test]
fn test_lockfile_parse_missing_fields() {
    let content = "LeagueClient:12345:54321";
    let result = LockfileData::parse(content);

    assert!(result.is_err());
    assert!(matches!(result.unwrap_err(), LcuError::InvalidLockfile));
}

#[test]
fn lockfile_port_out_of_range_is_refused() {
    let result = LockfileData::parse("LeagueClient:12345:65536:secret:https");
    assert!(matches!(result, Err(LcuError::InvalidLockfile)));
    let ok = LockfileData::parse("LeagueClient:+7:65535:secret:https").unwrap();
    assert_eq!(ok.pid, 7);
    assert_eq!(ok.port, 65535);
}

#[test]
fn lockfile_base_url_uses_port() {
    let lockfile = LockfileData::parse("LeagueClient:1:54321:pw:https").unwrap();
    assert_eq!(lockfile.base_url(), "https://127.0.0.1:54321");
}

#[test]
fn connected_client_has_base_url() {
    let mut client = LcuClient::new();
    assert!(matches!(client.get_base_url(), Err(LcuError::Connection(ref m)) if m == "Not connected"));
    client.attach(LockfileData::parse("LeagueClient:1:2999:pw:https").unwrap());
    assert!(client.is_connected());
    assert_eq!(client.get_base_url().unwrap(), "https://127.0.0.1:2999");
}

#[test]
fn phases_in_game() {
    assert!(GameFlowPhase::InProgress.is_in_game());
    assert!(GameFlowPhase::Reconnect.is_in_game());
    assert!(!GameFlowPhase::ChampSelect.is_in_game());
    assert!(!GameFlowPhase::NoPhase.is_in_game());
}

#[test]
fn current_game_from_session() {
    let session = GameSession {
        phase: GameFlowPhase::InProgress,
        game_data: Some(GameData { game_id: -42, game_mode: "CLASSIC".to_string(), game_time_ms: 61500 }),
    };
    let game = LcuClient::current_game(session).unwrap();
    assert_eq!(game.game_id, "-42");
    assert_eq!(game.champion, "Unknown");
    assert_eq!(game.game_mode, "CLASSIC");
    assert_eq!(game.game_time_ms, 61500);

    let lobby = GameSession {
        phase: GameFlowPhase::Lobby,
        game_data: Some(GameData { game_id: 1, game_mode: "ARAM".to_string(), game_time_ms: 0 }),
    };
    assert!(LcuClient::current_game(lobby).is_none());
    let no_data = GameSession { phase: GameFlowPhase::Reconnect, game_data: None };
    assert!(LcuClient::current_game(no_data).is_none());
}

#[test]
fn lockfile_candidate_order() {
    let fixed = lockfile_candidates(None);
    assert_eq!(
        fixed,
        vec![
            "C:\\Riot Games\\League of Legends\\lockfile".to_string(),
            "C:\\Program Files\\Riot Games\\League of Legends\\lockfile".to_string(),
            "C:\\Program Files (x86)\\Riot Games\\League of Legends\\lockfile".to_string(),
        ]
    );
    let with_local = lockfile_candidates(Some("C:\\Users\\me\\AppData\\Local"));
    assert_eq!(with_local.len(), 4);
    assert_eq!(with_local[3], "C:\\Users\\me\\AppData\\Local\\Riot Games\\League of Legends\\lockfile");
    let trailing = lockfile_candidates(Some("D:\\Local\\"));
    assert_eq!(trailing[3], "D:\\Local\\Riot Games\\League of Legends\\lockfile");
    let drive = lockfile_candidates(Some("E:"));
    assert_eq!(drive[3], "E:Riot Games\\League of Legends\\lockfile");
}
