use chukka_obs::cloud::{handle_message, pong_message, Backoff, MAX_RETRY_DELAY_SECS};
use chukka_obs::display::DisplayEngine;
use chukka_obs::models::{
    CloudMessage, ConnectionStatus, GameState, LastEvent, MatchStatus, Possession, RuleSetConfig,
    TeamConfig,
};

fn game(status: MatchStatus, home: u32, away: u32) -> GameState {
    GameState {
        match_id: "m1".to_string(),
        status,
        current_period: 1,
        period_clock_secs: 480,
        home_score: home,
        away_score: away,
        possession: Possession::Away,
        possession_clock_secs: Some(30),
        possession_clock_mode: None,
        home_timeouts_remaining: 2,
        away_timeouts_remaining: 2,
        active_exclusions: Vec::new(),
        player_foul_counts: Vec::new(),
        players_excluded_for_game: Vec::new(),
        shootout_state: None,
    }
}

fn team(short: &str) -> TeamConfig {
    TeamConfig {
        id: None,
        name: short.to_string(),
        short_name: short.to_string(),
        cap_colour: "red".to_string(),
        cap_label: "black".to_string(),
        logo_url: Some("https://example.org/logo.png".to_string()),
    }
}

#[test]
fn pong_echoes_timestamp() {
    assert_eq!(pong_message(Some(1712345678)), "{\"timestamp\":1712345678,\"type\":\"pong\"}");
    assert_eq!(pong_message(None), "{\"timestamp\":null,\"type\":\"pong\"}");
    assert_eq!(pong_message(Some(0)), "{\"timestamp\":0,\"type\":\"pong\"}");
}

#[test]
fn pong_is_what_serde_json_writes() {
    let mut m = serde_json::Map::new();
    m.insert("type".to_string(), serde_json::Value::from("pong"));
    m.insert("timestamp".to_string(), serde_json::Value::from(Some(u64::MAX)));
    assert_eq!(pong_message(Some(u64::MAX)), serde_json::Value::Object(m).to_string());
    let mut m = serde_json::Map::new();
    m.insert("type".to_string(), serde_json::Value::from("pong"));
    m.insert("timestamp".to_string(), serde_json::Value::Null);
    assert_eq!(pong_message(None), serde_json::Value::Object(m).to_string());
}

#[test]
fn backoff_doubles_to_thirty_seconds() {
    let mut b = Backoff::new();
    assert_eq!(b.connecting_status(), ConnectionStatus::Disconnected { error: None });
    let mut delays = Vec::new();
    for _ in 0..6 {
        let lost = b.on_connection_lost();
        assert_eq!(lost, ConnectionStatus::Disconnected { error: Some("Connection lost".to_string()) });
        delays.push(b.retry_delay_secs);
        b.after_wait(false);
    }
    assert_eq!(delays, vec![2, 4, 8, 16, 30, 30]);
    assert_eq!(b.retry_delay_secs, MAX_RETRY_DELAY_SECS);
    assert_eq!(b.connecting_status(), ConnectionStatus::Reconnecting { retry_count: 6 });
}

#[test]
fn reconnect_signal_and_connection_reset_backoff() {
    let mut b = Backoff::new();
    b.on_connection_lost();
    b.after_wait(false);
    b.on_connection_lost();
    b.after_wait(true);
    assert_eq!(b, Backoff::new());
    b.on_connection_lost();
    b.after_wait(false);
    assert_eq!(b.retry_delay_secs, 4);
    assert_eq!(b.on_connected(), ConnectionStatus::Connected);
    assert_eq!(b, Backoff { retry_delay_secs: 2, retry_count: 0 });
}

#[test]
fn state_message_replaces_game_state_and_updates_display() {
    let mut e = DisplayEngine::new();
    let fx = handle_message(
        &mut e,
        CloudMessage::State { game_state: game(MatchStatus::InProgress, 0, 0), last_event: None },
        1000,
    );
    assert!(fx.broadcast_display && !fx.broadcast_dock && fx.reply.is_none());
    assert!(!fx.timers.restart_goal_timer);
    assert_eq!(e.game_state.as_ref().map(|g| g.home_score), Some(0));
    assert!(e.display.possession_clock.visible);

    let ev = LastEvent { event_type: "goal".to_string(), cap_number: Some(11) };
    let fx = handle_message(
        &mut e,
        CloudMessage::State { game_state: game(MatchStatus::InProgress, 0, 1), last_event: Some(ev) },
        2000,
    );
    assert!(fx.timers.restart_goal_timer);
    assert_eq!(e.game_state.as_ref().map(|g| g.away_score), Some(1));
    assert_eq!(e.display.goal_animation.cap_number, Some(11));
    assert_eq!(e.display.goal_animation.expires_at, Some(7000));
}

#[test]
fn match_info_is_stored() {
    let mut e = DisplayEngine::new();
    let rule_set = RuleSetConfig { possession_clock_enabled: false, foul_limit_enforced: false, periods: 4 };
    let fx = handle_message(
        &mut e,
        CloudMessage::MatchInfo { home_team: team("A"), away_team: team("B"), rule_set },
        0,
    );
    assert!(fx.broadcast_dock && !fx.broadcast_display && fx.reply.is_none());
    let mc = e.match_config.as_ref().expect("match config");
    assert_eq!(mc.home_team.short_name, "A");
    assert_eq!(mc.away_team.short_name, "B");
    assert!(!mc.rule_set.foul_limit_enforced);
    assert!(e.game_state.is_none());
}

#[test]
fn ping_is_answered() {
    let mut e = DisplayEngine::new();
    let fx = handle_message(&mut e, CloudMessage::Ping { timestamp: Some(5) }, 0);
    assert_eq!(fx.reply.as_deref(), Some("{\"timestamp\":5,\"type\":\"pong\"}"));
    assert!(!fx.broadcast_display && !fx.broadcast_dock);
    assert!(e.game_state.is_none() && e.match_config.is_none());
}
